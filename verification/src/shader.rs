//! The shader resource kind and its entry points.

use vstd::prelude::*;

verus! {

use crate::context::generate_objects;
use crate::context::is_valid_object;
use crate::context::Context;
use crate::gl_sys::GLboolean;
use crate::gl_sys::GLenum;
use crate::gl_sys::GLsizei;
use crate::gl_sys::GLuint;
use crate::gl_sys::GL_FRAGMENT_SHADER;
use crate::gl_sys::GL_INVALID_ENUM;
use crate::gl_sys::GL_INVALID_OPERATION;
use crate::gl_sys::GL_INVALID_VALUE;
use crate::gl_sys::GL_VERTEX_SHADER;
use crate::object_pool::Resource;
use crate::utilities::record_error;

/// A shader object's registry state: only its stage is tracked.
#[derive(Clone, Copy, Debug, PartialEq, Eq, Structural)]
pub struct Shader {
    pub type_: GLenum,
}

impl Resource for Shader {
    open spec fn fresh_spec() -> Shader {
        (Shader { type_: 0 })
    }

    fn fresh() -> (object: Shader) {
        Shader { type_: 0 }
    }

    open spec fn cleaned(self) -> Shader {
        self
    }

    fn cleanup(&mut self) {
    }
}

impl Default for Shader {
    fn default() -> (object: Shader)
        ensures
            object == Shader::fresh_spec(),
    {
        Shader::fresh()
    }
}

/// Whether `value` names a shader stage.
pub open spec fn is_shader_type(value: GLenum) -> bool {
    value == GL_VERTEX_SHADER || value == GL_FRAGMENT_SHADER
}

/// Everything in the context but the shader pool and the error register is
/// untouched.
pub open spec fn leaves_non_shader_state(pre: Context, post: Context) -> bool {
    &&& post.texture_pool == pre.texture_pool
    &&& post.active_texture@ == pre.active_texture@
    &&& post.active_texture_unit == pre.active_texture_unit
    &&& post.buffer_pool == pre.buffer_pool
    &&& post.active_buffer@ == pre.active_buffer@
    &&& post.render_buffer_pool == pre.render_buffer_pool
    &&& post.active_render_buffer@ == pre.active_render_buffer@
    &&& post.frame_buffer_pool == pre.frame_buffer_pool
    &&& post.active_frame_buffer@ == pre.active_frame_buffer@
    &&& post.program_pool == pre.program_pool
    &&& post.active_program@ == pre.active_program@
    &&& post.rasterization_state == pre.rasterization_state
    &&& post.pixel_storage_state == pre.pixel_storage_state
    &&& post.viewport_state == pre.viewport_state
}

/// Create a shader object of the given stage.
///
/// An unknown stage records `GL_INVALID_ENUM` and returns the reserved
/// handle `0`. Otherwise a fresh non-zero handle is issued, its instance
/// created with the stage recorded, and the handle returned.
#[allow(non_snake_case)]
pub fn glCreateShader(ctx: &mut Context, type_: GLenum) -> (shader: GLuint)
    requires
        old(ctx).wf(),
        old(ctx).shader_pool.counter() < u32::MAX,
    ensures
        final(ctx).wf(),
        leaves_non_shader_state(*old(ctx), *final(ctx)),
        !is_shader_type(type_) ==> {
            &&& shader == 0
            &&& final(ctx).error == old(ctx).error.recorded(GL_INVALID_ENUM)
            &&& final(ctx).shader_pool == old(ctx).shader_pool
        },
        is_shader_type(type_) ==> {
            &&& shader == old(ctx).shader_pool.counter() + 1
            &&& shader > 0
            &&& final(ctx).error == old(ctx).error
            &&& final(ctx).shader_pool.counter() == shader
            &&& final(ctx).shader_pool.contents() == old(ctx).shader_pool.contents().insert(
                shader,
                (Shader { type_ }),
            )
        },
{
    if type_ != GL_VERTEX_SHADER && type_ != GL_FRAGMENT_SHADER {
        record_error(&mut ctx.error, GL_INVALID_ENUM);
        return 0;
    }
    let names = generate_objects(1, true, &mut ctx.shader_pool, &mut ctx.error);
    let shader_object_name = names[0];
    let shader_object = ctx.shader_pool.get_object_mut(shader_object_name);
    shader_object.type_ = type_;
    shader_object_name
}

/// Whether `shader` names a shader instance the pool holds.
#[allow(non_snake_case)]
pub fn glIsShader(ctx: &Context, shader: GLuint) -> (valid: GLboolean)
    ensures
        (valid == crate::gl_sys::GL_TRUE) == (shader != 0 && ctx.shader_pool.has(shader)),
        valid == crate::gl_sys::GL_TRUE || valid == crate::gl_sys::GL_FALSE,
{
    is_valid_object(shader, &ctx.shader_pool)
}

/// Replace a shader's source: only the argument validation is tracked
/// here. A negative string count, or an absent string list, records
/// `GL_INVALID_VALUE`.
#[allow(non_snake_case)]
pub fn glShaderSource(
    ctx: &mut Context,
    shader: GLuint,
    count: GLsizei,
    string_present: bool,
)
    requires
        old(ctx).wf(),
    ensures
        final(ctx).wf(),
        leaves_non_shader_state(*old(ctx), *final(ctx)),
        final(ctx).shader_pool == old(ctx).shader_pool,
        count < 0 ==> final(ctx).error == old(ctx).error.recorded(GL_INVALID_VALUE),
        count >= 0 && !string_present ==> final(ctx).error == old(ctx).error.recorded(
            GL_INVALID_VALUE,
        ),
        count >= 0 && string_present ==> final(ctx).error == old(ctx).error,
{
    if count < 0 {
        record_error(&mut ctx.error, GL_INVALID_VALUE);
        return ;
    }
    if !string_present {
        record_error(&mut ctx.error, GL_INVALID_VALUE);
        return ;
    }
}

/// Fetch a shader's build log: only the argument validation is tracked
/// here. A negative buffer size records `GL_INVALID_VALUE` but the absent
/// destination is still checked, recording `GL_INVALID_VALUE` once more
/// into the already latched register.
#[allow(non_snake_case)]
pub fn glGetShaderInfoLog(
    ctx: &mut Context,
    shader: GLuint,
    bufsize: GLsizei,
    infolog_present: bool,
)
    requires
        old(ctx).wf(),
    ensures
        final(ctx).wf(),
        leaves_non_shader_state(*old(ctx), *final(ctx)),
        final(ctx).shader_pool == old(ctx).shader_pool,
        bufsize < 0 || !infolog_present ==> final(ctx).error == old(ctx).error.recorded(
            GL_INVALID_VALUE,
        ),
        bufsize >= 0 && infolog_present ==> final(ctx).error == old(ctx).error,
{
    if bufsize < 0 {
        record_error(&mut ctx.error, GL_INVALID_VALUE);
    }
    if !infolog_present {
        record_error(&mut ctx.error, GL_INVALID_VALUE);
        return ;
    }
}

/// Fetch a shader's source: only the argument validation is tracked here.
/// A negative buffer size records `GL_INVALID_VALUE`; an absent
/// destination records `GL_INVALID_OPERATION`.
#[allow(non_snake_case)]
pub fn glGetShaderSource(
    ctx: &mut Context,
    shader: GLuint,
    bufsize: GLsizei,
    source_present: bool,
)
    requires
        old(ctx).wf(),
    ensures
        final(ctx).wf(),
        leaves_non_shader_state(*old(ctx), *final(ctx)),
        final(ctx).shader_pool == old(ctx).shader_pool,
        bufsize < 0 ==> final(ctx).error == old(ctx).error.recorded(GL_INVALID_VALUE),
        bufsize >= 0 && !source_present ==> final(ctx).error == old(ctx).error.recorded(
            GL_INVALID_OPERATION,
        ),
        bufsize >= 0 && source_present ==> final(ctx).error == old(ctx).error,
{
    if bufsize < 0 {
        record_error(&mut ctx.error, GL_INVALID_VALUE);
        return ;
    }
    if !source_present {
        record_error(&mut ctx.error, GL_INVALID_OPERATION);
        return ;
    }
}

} // verus!
