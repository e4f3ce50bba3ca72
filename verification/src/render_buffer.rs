//! The renderbuffer resource kind: its registry state, its wiring into the
//! generic pipelines, and its entry points.

use vstd::prelude::*;

verus! {

use crate::active_object::ActiveObject;
use crate::context::bind_target_object_name;
use crate::context::delete_objects;
use crate::context::generate_objects;
use crate::context::is_valid_object;
use crate::context::lemma_slots_wf_after_bind;
use crate::context::lemma_slots_wf_grow;
use crate::context::slot_mut;
use crate::context::Bindable;
use crate::context::Context;
use crate::gl_sys::GLboolean;
use crate::gl_sys::GLenum;
use crate::gl_sys::GLint;
use crate::gl_sys::GLsizei;
use crate::gl_sys::GLuint;
use crate::gl_sys::GL_INVALID_ENUM;
use crate::gl_sys::GL_INVALID_VALUE;
use crate::gl_sys::GL_RENDERBUFFER;
use crate::object_pool::Resource;
use crate::texture::Texture;
use crate::utilities::record_error;
use crate::utilities::Error;

/// A renderbuffer object's registry state; its storage is carried by an
/// internally managed texture, created on first bind.
/// `GL_INVALID_VALUE` in the target field means "not yet bound".
#[derive(Clone, Copy, Debug, PartialEq, Eq, Structural)]
pub struct RenderBuffer {
    pub internal_format: GLenum,
    pub target: GLenum,
    pub texture: Option<Texture>,
    pub index: u32,
    pub attached_frame_buffer_index: u32,
    pub component_size: GLint,
}

/// Give the renderbuffer its backing texture, freshly initialized.
pub fn init_texture(object: &mut RenderBuffer)
    ensures
        *final(object) == (RenderBuffer { texture: Some(Texture::fresh_spec()), ..*old(object) }),
{
    object.texture = Some(Texture::fresh());
}

impl Resource for RenderBuffer {
    open spec fn fresh_spec() -> RenderBuffer {
        (RenderBuffer {
            internal_format: 0,
            target: GL_INVALID_VALUE,
            texture: None,
            index: 0,
            attached_frame_buffer_index: 0,
            component_size: 0,
        })
    }

    fn fresh() -> (object: RenderBuffer) {
        RenderBuffer {
            internal_format: 0,
            target: GL_INVALID_VALUE,
            texture: None,
            index: 0,
            attached_frame_buffer_index: 0,
            component_size: 0,
        }
    }

    open spec fn cleaned(self) -> RenderBuffer {
        (RenderBuffer {
            texture: match self.texture {
                Some(texture) => Some(texture.cleaned()),
                None => None,
            },
            ..self
        })
    }

    fn cleanup(&mut self) {
        match &mut self.texture {
            Some(texture) => {
                texture.cleanup();
            },
            None => {},
        }
    }
}

impl Bindable for RenderBuffer {
    /// A renderbuffer accepts any rebinding; only the first bind records the
    /// target and creates the backing texture.
    open spec fn conflicts_with(self, target: GLenum) -> bool {
        false
    }

    open spec fn with_target(self, target: GLenum) -> RenderBuffer {
        if self.target == GL_INVALID_VALUE {
            (RenderBuffer { target, texture: Some(Texture::fresh_spec()), ..self })
        } else {
            self
        }
    }

    fn record_target(&mut self, target: GLenum) -> (ok: bool) {
        if self.target == GL_INVALID_VALUE {
            self.target = target;
            init_texture(self);
        }
        true
    }

    proof fn fresh_never_conflicts(target: GLenum) {
    }
}

impl Default for RenderBuffer {
    fn default() -> (object: RenderBuffer)
        ensures
            object == RenderBuffer::fresh_spec(),
    {
        RenderBuffer::fresh()
    }
}

/// Target validation for renderbuffers: `GL_INVALID_ENUM` unless `target`
/// is `GL_RENDERBUFFER`.
pub fn validate_render_buffer_target(target: GLenum, latch: &mut Error) -> (ok: bool)
    ensures
        ok == (target == GL_RENDERBUFFER),
        ok ==> *final(latch) == *old(latch),
        !ok ==> *final(latch) == old(latch).recorded(GL_INVALID_ENUM),
{
    if target != GL_RENDERBUFFER {
        record_error(latch, GL_INVALID_ENUM);
        false
    } else {
        true
    }
}

/// Everything in the context but the renderbuffer kind's own state and the
/// error register is untouched.
pub open spec fn leaves_non_render_buffer_state(pre: Context, post: Context) -> bool {
    &&& post.texture_pool == pre.texture_pool
    &&& post.active_texture@ == pre.active_texture@
    &&& post.active_texture_unit == pre.active_texture_unit
    &&& post.buffer_pool == pre.buffer_pool
    &&& post.active_buffer@ == pre.active_buffer@
    &&& post.frame_buffer_pool == pre.frame_buffer_pool
    &&& post.active_frame_buffer@ == pre.active_frame_buffer@
    &&& post.shader_pool == pre.shader_pool
    &&& post.program_pool == pre.program_pool
    &&& post.active_program@ == pre.active_program@
    &&& post.rasterization_state == pre.rasterization_state
    &&& post.pixel_storage_state == pre.pixel_storage_state
    &&& post.viewport_state == pre.viewport_state
}

/// Bind `renderbuffer` to `target`.
///
/// A target other than `GL_RENDERBUFFER` records `GL_INVALID_ENUM` and
/// changes nothing. Handle `0` clears the slot. A non-zero handle is bound
/// with lazy creation; the first bind records the target and creates the
/// backing texture, and rebinding never fails.
#[allow(non_snake_case)]
pub fn glBindRenderbuffer(ctx: &mut Context, target: GLenum, renderbuffer: GLuint)
    requires
        old(ctx).wf(),
    ensures
        final(ctx).wf(),
        leaves_non_render_buffer_state(*old(ctx), *final(ctx)),
        target != GL_RENDERBUFFER ==> {
            &&& final(ctx).error == old(ctx).error.recorded(GL_INVALID_ENUM)
            &&& final(ctx).render_buffer_pool == old(ctx).render_buffer_pool
            &&& final(ctx).active_render_buffer@ == old(ctx).active_render_buffer@
        },
        target == GL_RENDERBUFFER ==> {
            let prior = if old(ctx).render_buffer_pool.has(renderbuffer) {
                old(ctx).render_buffer_pool.contents()[renderbuffer]
            } else {
                RenderBuffer::fresh_spec()
            };
            &&& final(ctx).error == old(ctx).error
            &&& final(ctx).active_render_buffer@ == old(ctx).active_render_buffer@.update(
                0,
                (ActiveObject { name: renderbuffer }),
            )
            &&& (renderbuffer == 0 ==> final(ctx).render_buffer_pool == old(
                ctx,
            ).render_buffer_pool)
            &&& (renderbuffer != 0 ==> final(ctx).render_buffer_pool.contents() == old(
                ctx,
            ).render_buffer_pool.contents().insert(renderbuffer, prior.with_target(target)))
        },
{
    let required = vec![GL_RENDERBUFFER];
    proof {
        assert forall|v: GLenum| required@.contains(v) == (v == GL_RENDERBUFFER) by {
            if v == GL_RENDERBUFFER {
                assert(required@[0] == v);
            }
        }
    }
    let slot = slot_mut(&mut ctx.active_render_buffer, 0);
    let bound = bind_target_object_name(
        target,
        renderbuffer,
        &required,
        &mut ctx.render_buffer_pool,
        slot,
        &mut ctx.error,
    );
    proof {
        if target == GL_RENDERBUFFER {
            lemma_slots_wf_after_bind(
                old(ctx).active_render_buffer@,
                ctx.active_render_buffer@,
                old(ctx).render_buffer_pool,
                ctx.render_buffer_pool,
                0,
                renderbuffer,
            );
        }
    }
}

/// Issue `n` fresh renderbuffer handles; see the generate pipeline for the
/// validation and the handle guarantees.
#[allow(non_snake_case)]
pub fn glGenRenderbuffers(ctx: &mut Context, n: GLsizei, renderbuffers_present: bool) -> (
    renderbuffers: Vec<GLuint>)
    requires
        old(ctx).wf(),
        n > 0 ==> old(ctx).render_buffer_pool.counter() + n <= u32::MAX,
    ensures
        final(ctx).wf(),
        leaves_non_render_buffer_state(*old(ctx), *final(ctx)),
        final(ctx).active_render_buffer@ == old(ctx).active_render_buffer@,
        final(ctx).render_buffer_pool.contents() == old(ctx).render_buffer_pool.contents(),
        !(n >= 0 && renderbuffers_present) ==> {
            &&& final(ctx).error == old(ctx).error.recorded(GL_INVALID_VALUE)
            &&& final(ctx).render_buffer_pool == old(ctx).render_buffer_pool
            &&& renderbuffers@.len() == 0
        },
        n >= 0 && renderbuffers_present ==> {
            &&& final(ctx).error == old(ctx).error
            &&& renderbuffers@.len() == n
            &&& final(ctx).render_buffer_pool.counter() == old(ctx).render_buffer_pool.counter()
                + n
            &&& forall|j: int|
                0 <= j < n ==> renderbuffers@[j] == old(ctx).render_buffer_pool.counter() + j + 1
        },
{
    let renderbuffers = generate_objects(
        n,
        renderbuffers_present,
        &mut ctx.render_buffer_pool,
        &mut ctx.error,
    );
    proof {
        lemma_slots_wf_grow(
            old(ctx).active_render_buffer@,
            old(ctx).render_buffer_pool,
            ctx.render_buffer_pool,
        );
    }
    renderbuffers
}

/// Destroy the first `n` renderbuffers of the list; see the delete
/// pipeline for the validation, skipping, and slot-clearing guarantees.
#[allow(non_snake_case)]
pub fn glDeleteRenderbuffers(ctx: &mut Context, n: GLsizei, renderbuffers: Option<&Vec<GLuint>>)
    requires
        old(ctx).wf(),
        n >= 0 && renderbuffers.is_some() ==> n <= renderbuffers.unwrap()@.len(),
    ensures
        final(ctx).wf(),
        leaves_non_render_buffer_state(*old(ctx), *final(ctx)),
        final(ctx).render_buffer_pool.counter() == old(ctx).render_buffer_pool.counter(),
        !(n >= 0 && renderbuffers.is_some()) ==> {
            &&& final(ctx).error == old(ctx).error.recorded(GL_INVALID_VALUE)
            &&& final(ctx).render_buffer_pool == old(ctx).render_buffer_pool
            &&& final(ctx).active_render_buffer@ == old(ctx).active_render_buffer@
        },
        n >= 0 && renderbuffers.is_some() ==> {
            let names = renderbuffers.unwrap()@.take(n as int);
            &&& final(ctx).error == old(ctx).error
            &&& forall|h: GLuint|
                #[trigger] final(ctx).render_buffer_pool.has(h) == (old(
                    ctx,
                ).render_buffer_pool.has(h) && !names.contains(h))
            &&& forall|h: GLuint|
                #[trigger] final(ctx).render_buffer_pool.has(h)
                    ==> final(ctx).render_buffer_pool.contents()[h] == old(
                    ctx,
                ).render_buffer_pool.contents()[h]
            &&& forall|j: int|
                0 <= j < old(ctx).active_render_buffer@.len()
                    ==> final(ctx).active_render_buffer@[j] == (if old(
                    ctx,
                ).render_buffer_pool.has(old(ctx).active_render_buffer@[j].name)
                    && names.contains(old(ctx).active_render_buffer@[j].name) {
                    ActiveObject::unbound_spec()
                } else {
                    old(ctx).active_render_buffer@[j]
                })
        },
{
    delete_objects(
        n,
        renderbuffers,
        &mut ctx.render_buffer_pool,
        &mut ctx.active_render_buffer,
        false,
        &mut ctx.error,
    );
    proof {
        if n >= 0 && renderbuffers.is_some() {
            assert forall|j: int| 0 <= j < ctx.active_render_buffer@.len() implies ((
            #[trigger] ctx.active_render_buffer@[j]).name == 0 || ctx.render_buffer_pool.has(
                ctx.active_render_buffer@[j].name,
            )) by {
                let pre = old(ctx).active_render_buffer@[j];
                assert(pre.name == 0 || old(ctx).render_buffer_pool.has(pre.name));
                assert(ctx.render_buffer_pool.has(pre.name) == (old(ctx).render_buffer_pool.has(
                    pre.name,
                ) && !renderbuffers.unwrap()@.take(n as int).contains(pre.name)));
            }
        }
    }
}

/// Whether `renderbuffer` names a renderbuffer instance the pool holds.
#[allow(non_snake_case)]
pub fn glIsRenderbuffer(ctx: &Context, renderbuffer: GLuint) -> (valid: GLboolean)
    ensures
        (valid == crate::gl_sys::GL_TRUE) == (renderbuffer != 0 && ctx.render_buffer_pool.has(
            renderbuffer,
        )),
        valid == crate::gl_sys::GL_TRUE || valid == crate::gl_sys::GL_FALSE,
{
    is_valid_object(renderbuffer, &ctx.render_buffer_pool)
}

} // verus!
