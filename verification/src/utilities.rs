//! The process-wide sticky error register.
//!
//! Every validation step in the bind, upload and delete pipelines reports a
//! failure by recording an error code here. Only the first code recorded
//! since the last query is kept ("first error wins"); the explicit query is
//! the one operation that clears the register.

use vstd::prelude::*;

verus! {

use crate::context::Context;
use crate::gl_sys::GLenum;
use crate::gl_sys::GL_EXTENSIONS;
use crate::gl_sys::GL_INVALID_ENUM;
use crate::gl_sys::GL_NO_ERROR;
use crate::gl_sys::GL_RENDERER;
use crate::gl_sys::GL_SHADING_LANGUAGE_VERSION;
use crate::gl_sys::GL_VENDOR;
use crate::gl_sys::GL_VERSION;

/// The sticky error register: holds `GL_NO_ERROR` or the first error code
/// recorded since the last query.
#[derive(Clone, Copy, Debug, PartialEq, Eq, Structural)]
pub struct Error {
    pub raw: GLenum,
}

impl Error {
    /// The register after an attempt to record `error`: the code is kept
    /// only when no earlier error is still latched.
    pub open spec fn recorded(self, error: GLenum) -> Error {
        if self.raw == GL_NO_ERROR {
            (Error { raw: error })
        } else {
            self
        }
    }

    /// The register after the diagnostic query, paired with the code the
    /// query returns: the query hands out the latched code and clears it.
    pub open spec fn taken(self) -> (Error, GLenum) {
        ((Error { raw: GL_NO_ERROR }), self.raw)
    }
}

impl Default for Error {
    fn default() -> (r: Self)
        ensures
            r.raw == GL_NO_ERROR,
    {
        Error { raw: GL_NO_ERROR }
    }
}

/// Record `error` in the register unless an earlier error is still latched.
pub fn record_error(latch: &mut Error, error: GLenum)
    ensures
        *final(latch) == old(latch).recorded(error),
{
    if latch.raw == GL_NO_ERROR {
        latch.raw = error;
    }
}

/// Hand out the first error recorded since the last query, clearing the
/// register: `GL_NO_ERROR` when nothing was recorded.
#[allow(non_snake_case)]
pub fn glGetError(ctx: &mut Context) -> (current_error: GLenum)
    requires
        old(ctx).wf(),
    ensures
        final(ctx).wf(),
        crate::context::leaves_non_error_state(*old(ctx), *final(ctx)),
        (final(ctx).error, current_error) == old(ctx).error.taken(),
{
    let current_error = ctx.error.raw;
    ctx.error.raw = GL_NO_ERROR;
    current_error
}

/// The NUL-terminated identification strings the implementation reports.
/// An unknown name records `GL_INVALID_ENUM` and yields nothing.
#[allow(non_snake_case)]
pub fn glGetString(ctx: &mut Context, name: GLenum) -> (description: Option<&'static str>)
    requires
        old(ctx).wf(),
    ensures
        final(ctx).wf(),
        crate::context::leaves_non_error_state(*old(ctx), *final(ctx)),
        description.is_some() == (name == GL_VENDOR || name == GL_RENDERER || name == GL_VERSION
            || name == GL_SHADING_LANGUAGE_VERSION || name == GL_EXTENSIONS),
        description.is_some() ==> final(ctx).error == old(ctx).error,
        description.is_none() ==> final(ctx).error == old(ctx).error.recorded(GL_INVALID_ENUM),
        name == GL_VENDOR ==> (description matches Some(s) && s@ == "Hood\0"@),
        name == GL_RENDERER ==> (description matches Some(s) && s@ == "OpenGL ES 2.0 Over Hood\0"@),
        name == GL_VERSION ==> (description matches Some(s) && s@ == "OpenGL ES 2.0\0"@),
        name == GL_SHADING_LANGUAGE_VERSION ==> (description matches Some(s) && s@
            == "OpenGL ES GLSL ES 1.00\0"@),
        name == GL_EXTENSIONS ==> (description matches Some(s) && s@
            == "GL_OES_get_program_binary\0"@),
{
    if name == GL_VENDOR {
        Some("Hood\0")
    } else if name == GL_RENDERER {
        Some("OpenGL ES 2.0 Over Hood\0")
    } else if name == GL_VERSION {
        Some("OpenGL ES 2.0\0")
    } else if name == GL_SHADING_LANGUAGE_VERSION {
        Some("OpenGL ES GLSL ES 1.00\0")
    } else if name == GL_EXTENSIONS {
        Some("GL_OES_get_program_binary\0")
    } else {
        record_error(&mut ctx.error, GL_INVALID_ENUM);
        None
    }
}

/// The error register is sticky: after recording `first` and then `second`,
/// the first query returns `first`, and a second query returns
/// `GL_NO_ERROR`.
pub proof fn lemma_error_latch_sticky(latch: Error, first: GLenum, second: GLenum)
    requires
        latch.raw == GL_NO_ERROR,
        first != GL_NO_ERROR,
    ensures
        ({
            let latched = latch.recorded(first).recorded(second);
            let (cleared, first_read) = latched.taken();
            let (_, second_read) = cleared.taken();
            first_read == first && second_read == GL_NO_ERROR
        }),
{
}

} // verus!
