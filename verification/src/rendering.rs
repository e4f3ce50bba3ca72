//! Draw submission entry points: only their argument validation and the
//! framebuffer-completeness gate are tracked here; command recording and
//! submission belong to the excluded backend.

use vstd::prelude::*;

verus! {

use crate::context::Context;
use crate::frame_buffer::glCheckFramebufferStatus;
use crate::gl_sys::GLbitfield;
use crate::gl_sys::GLenum;
use crate::gl_sys::GLint;
use crate::gl_sys::GLsizei;
use crate::gl_sys::GL_COLOR_BUFFER_BIT;
use crate::gl_sys::GL_DEPTH_BUFFER_BIT;
use crate::gl_sys::GL_FRAMEBUFFER;
use crate::gl_sys::GL_FRAMEBUFFER_COMPLETE;
use crate::gl_sys::GL_INVALID_ENUM;
use crate::gl_sys::GL_INVALID_FRAMEBUFFER_OPERATION;
use crate::gl_sys::GL_INVALID_VALUE;
use crate::gl_sys::GL_STENCIL_BUFFER_BIT;
use crate::gl_sys::GL_TRIANGLES;
use crate::gl_sys::GL_TRIANGLE_FAN;
use crate::gl_sys::GL_TRIANGLE_STRIP;
use crate::gl_sys::GL_UNSIGNED_BYTE;
use crate::gl_sys::GL_UNSIGNED_SHORT;
use crate::utilities::record_error;

/// Forward pending work to the backend; command submission is out of scope
/// here, so there is nothing to forward and the flush always succeeds.
pub fn flush() -> (ok: bool)
    ensures
        ok,
{
    true
}

/// Whether `mode` draws triangles.
pub fn is_draw_mode_triangle(mode: GLenum) -> (triangle: bool)
    ensures
        triangle == (mode == GL_TRIANGLE_STRIP || mode == GL_TRIANGLE_FAN || mode == GL_TRIANGLES),
{
    mode == GL_TRIANGLE_STRIP || mode == GL_TRIANGLE_FAN || mode == GL_TRIANGLES
}

/// Block until pending work completed; with nothing to forward, nothing to
/// wait for.
#[allow(non_snake_case)]
pub fn glFinish() {
    if !flush() {
        return ;
    }
}

/// Forward pending work without waiting.
#[allow(non_snake_case)]
pub fn glFlush() {
    flush();
}

/// Everything in the context but the error register is untouched; the
/// framebuffer pool is pinned by its counter and contents because the
/// completeness gate resolves the bound object through the pool.
pub open spec fn leaves_non_draw_state(pre: Context, post: Context) -> bool {
    &&& post.texture_pool == pre.texture_pool
    &&& post.active_texture@ == pre.active_texture@
    &&& post.active_texture_unit == pre.active_texture_unit
    &&& post.buffer_pool == pre.buffer_pool
    &&& post.active_buffer@ == pre.active_buffer@
    &&& post.render_buffer_pool == pre.render_buffer_pool
    &&& post.active_render_buffer@ == pre.active_render_buffer@
    &&& post.frame_buffer_pool.contents() == pre.frame_buffer_pool.contents()
    &&& post.frame_buffer_pool.counter() == pre.frame_buffer_pool.counter()
    &&& post.active_frame_buffer@ == pre.active_frame_buffer@
    &&& post.shader_pool == pre.shader_pool
    &&& post.program_pool == pre.program_pool
    &&& post.active_program@ == pre.active_program@
    &&& post.rasterization_state == pre.rasterization_state
    &&& post.pixel_storage_state == pre.pixel_storage_state
    &&& post.viewport_state == pre.viewport_state
}

/// Draw a range of vertices.
///
/// A mode beyond the triangle modes records `GL_INVALID_ENUM`; a negative
/// count records `GL_INVALID_VALUE`; a zero count does nothing. The
/// framebuffer-completeness gate then passes, attachment bookkeeping being
/// out of scope, and the draw is the excluded backend's concern.
#[allow(non_snake_case)]
pub fn glDrawArrays(ctx: &mut Context, mode: GLenum, first: GLint, count: GLsizei)
    requires
        old(ctx).wf(),
    ensures
        final(ctx).wf(),
        leaves_non_draw_state(*old(ctx), *final(ctx)),
        mode > GL_TRIANGLE_FAN ==> final(ctx).error == old(ctx).error.recorded(GL_INVALID_ENUM),
        mode <= GL_TRIANGLE_FAN && count < 0 ==> final(ctx).error == old(ctx).error.recorded(
            GL_INVALID_VALUE,
        ),
        mode <= GL_TRIANGLE_FAN && count >= 0 ==> final(ctx).error == old(ctx).error,
{
    if mode > GL_TRIANGLE_FAN {
        record_error(&mut ctx.error, GL_INVALID_ENUM);
        return ;
    }
    if count < 0 {
        record_error(&mut ctx.error, GL_INVALID_VALUE);
        return ;
    }
    if 0 == count {
        return ;
    }
    if glCheckFramebufferStatus(ctx, GL_FRAMEBUFFER) != GL_FRAMEBUFFER_COMPLETE {
        record_error(&mut ctx.error, GL_INVALID_FRAMEBUFFER_OPERATION);
        return ;
    }
}

/// Draw indexed vertices.
///
/// A mode beyond the triangle modes, or an index type other than unsigned
/// byte or short, records `GL_INVALID_ENUM`; a negative count records
/// `GL_INVALID_VALUE`; a zero count or an absent index list does nothing.
/// The framebuffer-completeness gate then passes as in `glDrawArrays`.
#[allow(non_snake_case)]
pub fn glDrawElements(
    ctx: &mut Context,
    mode: GLenum,
    count: GLsizei,
    type_: GLenum,
    indices_present: bool,
)
    requires
        old(ctx).wf(),
    ensures
        final(ctx).wf(),
        leaves_non_draw_state(*old(ctx), *final(ctx)),
        ({
            let enum_bad = mode > GL_TRIANGLE_FAN || !(type_ == GL_UNSIGNED_BYTE || type_
                == GL_UNSIGNED_SHORT);
            if enum_bad {
                final(ctx).error == old(ctx).error.recorded(GL_INVALID_ENUM)
            } else if count < 0 {
                final(ctx).error == old(ctx).error.recorded(GL_INVALID_VALUE)
            } else {
                final(ctx).error == old(ctx).error
            }
        }),
{
    if mode > GL_TRIANGLE_FAN || !(type_ == GL_UNSIGNED_BYTE || type_ == GL_UNSIGNED_SHORT) {
        record_error(&mut ctx.error, GL_INVALID_ENUM);
        return ;
    }
    if count < 0 {
        record_error(&mut ctx.error, GL_INVALID_VALUE);
        return ;
    }
    if 0 == count {
        return ;
    }
    if !indices_present {
        return ;
    }
    if glCheckFramebufferStatus(ctx, GL_FRAMEBUFFER) != GL_FRAMEBUFFER_COMPLETE {
        record_error(&mut ctx.error, GL_INVALID_FRAMEBUFFER_OPERATION);
        return ;
    }
}

/// Clear the selected buffers of the bound framebuffer.
///
/// A mask selecting all three of color, depth and stencil at once records
/// `GL_INVALID_VALUE`; the clear itself is the excluded backend's concern.
#[allow(non_snake_case)]
pub fn glClear(ctx: &mut Context, mask: GLbitfield)
    requires
        old(ctx).wf(),
    ensures
        final(ctx).wf(),
        leaves_non_draw_state(*old(ctx), *final(ctx)),
        ({
            let all_selected = (mask & GL_COLOR_BUFFER_BIT) != 0 && (mask & GL_DEPTH_BUFFER_BIT)
                != 0 && (mask & GL_STENCIL_BUFFER_BIT) != 0;
            if all_selected {
                final(ctx).error == old(ctx).error.recorded(GL_INVALID_VALUE)
            } else {
                final(ctx).error == old(ctx).error
            }
        }),
{
    let clear_color_enabled = (mask & GL_COLOR_BUFFER_BIT) == 0;
    let clear_depth_enabled = (mask & GL_DEPTH_BUFFER_BIT) == 0;
    let clear_stencil_enabled = (mask & GL_STENCIL_BUFFER_BIT) == 0;
    if !clear_color_enabled && !clear_depth_enabled && !clear_stencil_enabled {
        record_error(&mut ctx.error, GL_INVALID_VALUE);
        return ;
    }
}

} // verus!
