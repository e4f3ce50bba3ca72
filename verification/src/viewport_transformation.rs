//! Viewport state and the validation logic of the viewport entry points.
//! The depth-range half of this state is floating point and lives with the
//! calling layer, not here.

use vstd::prelude::*;

verus! {

use crate::context::Context;
use crate::frame_buffer::Rect;
use crate::gl_sys::GLint;
use crate::gl_sys::GLsizei;
use crate::gl_sys::GL_INVALID_VALUE;
use crate::utilities::record_error;

/// The viewport transformation state the registry tracks.
#[derive(Clone, Copy, Debug, PartialEq, Eq, Structural)]
pub struct ViewportTransformation {
    pub viewport_rectangle: Rect,
    pub viewport_count: u32,
    pub scissor_count: u32,
}

impl Default for ViewportTransformation {
    fn default() -> (state: ViewportTransformation)
        ensures
            state == (ViewportTransformation {
                viewport_rectangle: (Rect { x: 0, y: 0, width: 0, height: 0 }),
                viewport_count: 0,
                scissor_count: 0,
            }),
    {
        ViewportTransformation {
            viewport_rectangle: Rect::default(),
            viewport_count: 0,
            scissor_count: 0,
        }
    }
}

/// Set the viewport rectangle: only the size validation is tracked here;
/// the rectangle bookkeeping is still open. A negative width or height
/// records `GL_INVALID_VALUE`.
#[allow(non_snake_case)]
pub fn glViewport(ctx: &mut Context, x: GLint, y: GLint, width: GLsizei, height: GLsizei)
    requires
        old(ctx).wf(),
    ensures
        final(ctx).wf(),
        crate::context::leaves_non_error_state(*old(ctx), *final(ctx)),
        width < 0 || height < 0 ==> final(ctx).error == old(ctx).error.recorded(GL_INVALID_VALUE),
        width >= 0 && height >= 0 ==> final(ctx).error == old(ctx).error,
{
    if width < 0 || height < 0 {
        record_error(&mut ctx.error, GL_INVALID_VALUE);
        return ;
    }
}

} // verus!
