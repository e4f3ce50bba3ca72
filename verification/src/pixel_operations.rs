//! Pixel transfer state and the validation logic of the pixel entry points.

use vstd::prelude::*;

verus! {

use crate::context::leaves_non_error_state;
use crate::context::Context;
use crate::gl_sys::GLenum;
use crate::gl_sys::GLint;
use crate::gl_sys::GLsizei;
use crate::gl_sys::GL_ALPHA;
use crate::gl_sys::GL_INVALID_ENUM;
use crate::gl_sys::GL_INVALID_OPERATION;
use crate::gl_sys::GL_INVALID_VALUE;
use crate::gl_sys::GL_LUMINANCE;
use crate::gl_sys::GL_LUMINANCE_ALPHA;
use crate::gl_sys::GL_PACK_ALIGNMENT;
use crate::gl_sys::GL_RGB;
use crate::gl_sys::GL_RGBA;
use crate::gl_sys::GL_UNPACK_ALIGNMENT;
use crate::gl_sys::GL_UNSIGNED_BYTE;
use crate::gl_sys::GL_UNSIGNED_SHORT_4_4_4_4;
use crate::gl_sys::GL_UNSIGNED_SHORT_5_5_5_1;
use crate::gl_sys::GL_UNSIGNED_SHORT_5_6_5;
use crate::utilities::record_error;

/// Pixel pack/unpack state; alignment bookkeeping is still open, so there
/// is nothing to track yet.
#[derive(Clone, Copy, Debug, PartialEq, Eq, Structural)]
pub struct PixelStorageState {}

impl Default for PixelStorageState {
    fn default() -> (state: PixelStorageState)
        ensures
            state == (PixelStorageState {  }),
    {
        PixelStorageState {  }
    }
}

/// Set a pixel pack/unpack alignment.
///
/// A name other than pack or unpack alignment records `GL_INVALID_ENUM`;
/// an alignment other than 1, 2, 4 or 8 records `GL_INVALID_VALUE`;
/// alignment bookkeeping itself is still open.
#[allow(non_snake_case)]
pub fn glPixelStorei(ctx: &mut Context, pname: GLenum, param: GLint)
    requires
        old(ctx).wf(),
    ensures
        final(ctx).wf(),
        leaves_non_error_state(*old(ctx), *final(ctx)),
        pname != GL_PACK_ALIGNMENT && pname != GL_UNPACK_ALIGNMENT ==> final(ctx).error == old(
            ctx,
        ).error.recorded(GL_INVALID_ENUM),
        (pname == GL_PACK_ALIGNMENT || pname == GL_UNPACK_ALIGNMENT) && !(param == 1 || param == 2
            || param == 4 || param == 8) ==> final(ctx).error == old(ctx).error.recorded(
            GL_INVALID_VALUE,
        ),
        (pname == GL_PACK_ALIGNMENT || pname == GL_UNPACK_ALIGNMENT) && (param == 1 || param == 2
            || param == 4 || param == 8) ==> final(ctx).error == old(ctx).error,
{
    if pname != GL_PACK_ALIGNMENT && pname != GL_UNPACK_ALIGNMENT {
        record_error(&mut ctx.error, GL_INVALID_ENUM);
        return ;
    }
    if param != 1 && param != 2 && param != 4 && param != 8 {
        record_error(&mut ctx.error, GL_INVALID_VALUE);
        return ;
    }
}

/// Whether a read-pixels format is accepted.
pub open spec fn is_read_pixels_format(format: GLenum) -> bool {
    format == GL_ALPHA || format == GL_RGB || format == GL_RGBA || format == GL_LUMINANCE
        || format == GL_LUMINANCE_ALPHA
}

/// Whether a read-pixels texel type is accepted.
pub open spec fn is_read_pixels_type(value: GLenum) -> bool {
    value == GL_UNSIGNED_BYTE || value == GL_UNSIGNED_SHORT_5_6_5 || value
        == GL_UNSIGNED_SHORT_4_4_4_4 || value == GL_UNSIGNED_SHORT_5_5_5_1
}

/// Whether a read-pixels (type, format) pair is rejected as inoperable.
pub open spec fn read_pixels_combination_rejected(format: GLenum, value: GLenum) -> bool {
    (value == GL_UNSIGNED_SHORT_5_6_5 && format != GL_RGB) || (value == GL_UNSIGNED_SHORT_5_5_5_1
        || value == GL_UNSIGNED_SHORT_4_4_4_4 && format != GL_RGBA) || (value == GL_UNSIGNED_BYTE
        && format != GL_RGBA)
}

/// Read back a rectangle of pixels: only the argument validation is
/// tracked here; the pixel transfer is the excluded backend's concern.
///
/// A negative size records `GL_INVALID_VALUE`; an unknown format or type
/// records `GL_INVALID_ENUM`; a rejected (type, format) pair records
/// `GL_INVALID_OPERATION`.
#[allow(non_snake_case)]
pub fn glReadPixels(
    ctx: &mut Context,
    x: GLint,
    y: GLint,
    width: GLsizei,
    height: GLsizei,
    format: GLenum,
    type_: GLenum,
)
    requires
        old(ctx).wf(),
    ensures
        final(ctx).wf(),
        leaves_non_error_state(*old(ctx), *final(ctx)),
        ({
            let latch = old(ctx).error;
            if width < 0 || height < 0 {
                final(ctx).error == latch.recorded(GL_INVALID_VALUE)
            } else if !is_read_pixels_format(format) {
                final(ctx).error == latch.recorded(GL_INVALID_ENUM)
            } else if !is_read_pixels_type(type_) {
                final(ctx).error == latch.recorded(GL_INVALID_ENUM)
            } else if read_pixels_combination_rejected(format, type_) {
                final(ctx).error == latch.recorded(GL_INVALID_OPERATION)
            } else {
                final(ctx).error == latch
            }
        }),
{
    if width < 0 || height < 0 {
        record_error(&mut ctx.error, GL_INVALID_VALUE);
        return ;
    }
    if format != GL_ALPHA && format != GL_RGB && format != GL_RGBA && format != GL_LUMINANCE
        && format != GL_LUMINANCE_ALPHA {
        record_error(&mut ctx.error, GL_INVALID_ENUM);
        return ;
    }
    if type_ != GL_UNSIGNED_BYTE && type_ != GL_UNSIGNED_SHORT_5_6_5 && type_
        != GL_UNSIGNED_SHORT_4_4_4_4 && type_ != GL_UNSIGNED_SHORT_5_5_5_1 {
        record_error(&mut ctx.error, GL_INVALID_ENUM);
        return ;
    }
    if (type_ == GL_UNSIGNED_SHORT_5_6_5 && format != GL_RGB) || (type_ == GL_UNSIGNED_SHORT_5_5_5_1
        || type_ == GL_UNSIGNED_SHORT_4_4_4_4 && format != GL_RGBA) || (type_ == GL_UNSIGNED_BYTE
        && format != GL_RGBA) {
        record_error(&mut ctx.error, GL_INVALID_OPERATION);
        return ;
    }
}

} // verus!
