//! The framebuffer resource kind: its registry state, its wiring into the
//! generic pipelines, and its entry points.

use vstd::prelude::*;

verus! {

use crate::active_object::ActiveObject;
use crate::context::bind_target_object_name;
use crate::context::delete_objects;
use crate::context::generate_objects;
use crate::context::is_default_frame_buffer;
use crate::context::is_valid_object;
use crate::context::lemma_slots_wf_after_bind;
use crate::context::lemma_slots_wf_grow;
use crate::context::slot_mut;
use crate::context::Bindable;
use crate::context::Context;
use crate::gl_sys::GLboolean;
use crate::gl_sys::GLenum;
use crate::gl_sys::GLsizei;
use crate::gl_sys::GLuint;
use crate::gl_sys::GL_FRAMEBUFFER;
use crate::gl_sys::GL_FRAMEBUFFER_COMPLETE;
use crate::gl_sys::GL_INVALID_ENUM;
use crate::gl_sys::GL_INVALID_VALUE;
use crate::gl_sys::GL_ZERO;
use crate::object_pool::Resource;
use crate::utilities::Error;

/// An integer rectangle, used for framebuffer and viewport dimensions.
#[derive(Clone, Copy, Debug, PartialEq, Eq, Structural)]
pub struct Rect {
    pub x: i32,
    pub y: i32,
    pub width: i32,
    pub height: i32,
}

impl Rect {
    /// Build a rectangle from its components.
    pub fn new(x: i32, y: i32, width: i32, height: i32) -> (rect: Rect)
        ensures
            rect == (Rect { x, y, width, height }),
    {
        Rect { x, y, width, height }
    }
}

impl Default for Rect {
    fn default() -> (rect: Rect)
        ensures
            rect == (Rect { x: 0, y: 0, width: 0, height: 0 }),
    {
        Rect { x: 0, y: 0, width: 0, height: 0 }
    }
}

/// A framebuffer's drawing state.
#[derive(Clone, Copy, Debug, PartialEq, Eq, Structural)]
pub enum State {
    Idle,
    Clear,
    ClearDraw,
    Draw,
    Delete,
}

impl Default for State {
    fn default() -> (state: State)
        ensures
            state == State::Idle,
    {
        State::Idle
    }
}

/// A framebuffer object's registry state. `GL_INVALID_VALUE` in the target
/// field means "not yet bound".
#[derive(Clone, Copy, Debug, PartialEq, Eq, Structural)]
pub struct FrameBuffer {
    pub dimensions: Rect,
    pub target: GLenum,
    pub write_buffer_index: u32,
    pub state: State,
    pub is_updated: bool,
    pub is_size_updated: bool,
    pub is_system_frame_buffer: bool,
    pub is_bound_to_texture: bool,
}

impl Resource for FrameBuffer {
    open spec fn fresh_spec() -> FrameBuffer {
        (FrameBuffer {
            dimensions: (Rect { x: 0, y: 0, width: 0, height: 0 }),
            target: GL_INVALID_VALUE,
            write_buffer_index: 0,
            state: State::Idle,
            is_updated: false,
            is_size_updated: false,
            is_system_frame_buffer: false,
            is_bound_to_texture: false,
        })
    }

    fn fresh() -> (object: FrameBuffer) {
        FrameBuffer {
            dimensions: Rect::default(),
            target: GL_INVALID_VALUE,
            write_buffer_index: 0,
            state: State::Idle,
            is_updated: false,
            is_size_updated: false,
            is_system_frame_buffer: false,
            is_bound_to_texture: false,
        }
    }

    open spec fn cleaned(self) -> FrameBuffer {
        self
    }

    fn cleanup(&mut self) {
    }
}

impl Bindable for FrameBuffer {
    /// A framebuffer accepts any rebinding; only the first bind records the
    /// target.
    open spec fn conflicts_with(self, target: GLenum) -> bool {
        false
    }

    open spec fn with_target(self, target: GLenum) -> FrameBuffer {
        if self.target == GL_INVALID_VALUE {
            (FrameBuffer { target, ..self })
        } else {
            self
        }
    }

    fn record_target(&mut self, target: GLenum) -> (ok: bool) {
        if self.target == GL_INVALID_VALUE {
            self.target = target;
        }
        true
    }

    proof fn fresh_never_conflicts(target: GLenum) {
    }
}

impl Default for FrameBuffer {
    fn default() -> (object: FrameBuffer)
        ensures
            object == FrameBuffer::fresh_spec(),
    {
        FrameBuffer::fresh()
    }
}

/// Completeness check of a framebuffer object. Attachment bookkeeping is
/// out of scope here, so every object checks out complete.
pub fn check_frame_buffer_status(object: &mut FrameBuffer) -> (status: GLenum)
    ensures
        status == GL_FRAMEBUFFER_COMPLETE,
        *final(object) == *old(object),
{
    GL_FRAMEBUFFER_COMPLETE
}

/// Target validation for framebuffers: `GL_INVALID_ENUM` unless `target`
/// is `GL_FRAMEBUFFER`.
pub fn validate_frame_buffer_target(target: GLenum, latch: &mut Error) -> (ok: bool)
    ensures
        ok == (target == GL_FRAMEBUFFER),
        ok ==> *final(latch) == *old(latch),
        !ok ==> *final(latch) == old(latch).recorded(crate::gl_sys::GL_INVALID_ENUM),
{
    let required = vec![GL_FRAMEBUFFER];
    proof {
        assert forall|v: GLenum| required@.contains(v) == (v == GL_FRAMEBUFFER) by {
            if v == GL_FRAMEBUFFER {
                assert(required@[0] == v);
            }
        }
    }
    crate::context::validate_invalid_enum(target, &required, latch)
}

/// Placeholder validation of "is the default framebuffer active": the
/// rules on it are still open, so every state passes.
pub fn validate_is_default_frame_buffer_active() -> (ok: bool)
    ensures
        ok,
{
    true
}

/// Everything in the context but the framebuffer kind's own state and the
/// error register is untouched.
pub open spec fn leaves_non_frame_buffer_state(pre: Context, post: Context) -> bool {
    &&& post.texture_pool == pre.texture_pool
    &&& post.active_texture@ == pre.active_texture@
    &&& post.active_texture_unit == pre.active_texture_unit
    &&& post.buffer_pool == pre.buffer_pool
    &&& post.active_buffer@ == pre.active_buffer@
    &&& post.render_buffer_pool == pre.render_buffer_pool
    &&& post.active_render_buffer@ == pre.active_render_buffer@
    &&& post.shader_pool == pre.shader_pool
    &&& post.program_pool == pre.program_pool
    &&& post.active_program@ == pre.active_program@
    &&& post.rasterization_state == pre.rasterization_state
    &&& post.pixel_storage_state == pre.pixel_storage_state
    &&& post.viewport_state == pre.viewport_state
}

/// Bind `framebuffer` to `target`.
///
/// A target other than `GL_FRAMEBUFFER` records `GL_INVALID_ENUM` and
/// changes nothing. Handle `0` selects the default framebuffer and clears
/// the slot. A non-zero handle is bound with lazy creation; the first bind
/// records the target, and rebinding never fails.
#[allow(non_snake_case)]
pub fn glBindFramebuffer(ctx: &mut Context, target: GLenum, framebuffer: GLuint)
    requires
        old(ctx).wf(),
    ensures
        final(ctx).wf(),
        leaves_non_frame_buffer_state(*old(ctx), *final(ctx)),
        target != GL_FRAMEBUFFER ==> {
            &&& final(ctx).error == old(ctx).error.recorded(GL_INVALID_ENUM)
            &&& final(ctx).frame_buffer_pool == old(ctx).frame_buffer_pool
            &&& final(ctx).active_frame_buffer@ == old(ctx).active_frame_buffer@
        },
        target == GL_FRAMEBUFFER ==> {
            let prior = if old(ctx).frame_buffer_pool.has(framebuffer) {
                old(ctx).frame_buffer_pool.contents()[framebuffer]
            } else {
                FrameBuffer::fresh_spec()
            };
            &&& final(ctx).error == old(ctx).error
            &&& final(ctx).active_frame_buffer@ == old(ctx).active_frame_buffer@.update(
                0,
                (ActiveObject { name: framebuffer }),
            )
            &&& (framebuffer == 0 ==> final(ctx).frame_buffer_pool == old(ctx).frame_buffer_pool)
            &&& (framebuffer != 0 ==> final(ctx).frame_buffer_pool.contents() == old(
                ctx,
            ).frame_buffer_pool.contents().insert(framebuffer, prior.with_target(target)))
        },
{
    let required = vec![GL_FRAMEBUFFER];
    proof {
        assert forall|v: GLenum| required@.contains(v) == (v == GL_FRAMEBUFFER) by {
            if v == GL_FRAMEBUFFER {
                assert(required@[0] == v);
            }
        }
    }
    let slot = slot_mut(&mut ctx.active_frame_buffer, 0);
    let bound = bind_target_object_name(
        target,
        framebuffer,
        &required,
        &mut ctx.frame_buffer_pool,
        slot,
        &mut ctx.error,
    );
    proof {
        if target == GL_FRAMEBUFFER {
            lemma_slots_wf_after_bind(
                old(ctx).active_frame_buffer@,
                ctx.active_frame_buffer@,
                old(ctx).frame_buffer_pool,
                ctx.frame_buffer_pool,
                0,
                framebuffer,
            );
        }
    }
}

/// Completeness of the currently bound framebuffer: `GL_ZERO` with
/// `GL_INVALID_ENUM` recorded for a bad target; otherwise complete, for
/// the default framebuffer and, attachment bookkeeping being out of scope,
/// for every bound object too.
#[allow(non_snake_case)]
pub fn glCheckFramebufferStatus(ctx: &mut Context, target: GLenum) -> (status: GLenum)
    requires
        old(ctx).wf(),
    ensures
        final(ctx).wf(),
        leaves_non_frame_buffer_state(*old(ctx), *final(ctx)),
        final(ctx).frame_buffer_pool.contents() == old(ctx).frame_buffer_pool.contents(),
        final(ctx).frame_buffer_pool.counter() == old(ctx).frame_buffer_pool.counter(),
        final(ctx).active_frame_buffer@ == old(ctx).active_frame_buffer@,
        target != GL_FRAMEBUFFER ==> {
            &&& status == GL_ZERO
            &&& final(ctx).error == old(ctx).error.recorded(GL_INVALID_ENUM)
        },
        target == GL_FRAMEBUFFER ==> {
            &&& status == GL_FRAMEBUFFER_COMPLETE
            &&& final(ctx).error == old(ctx).error
        },
{
    if !validate_frame_buffer_target(target, &mut ctx.error) {
        return GL_ZERO;
    }
    let active = ctx.active_frame_buffer[0];
    if is_default_frame_buffer(active.name) {
        GL_FRAMEBUFFER_COMPLETE
    } else {
        proof {
            assert(old(ctx).active_frame_buffer@[0].name == 0 || old(
                ctx,
            ).frame_buffer_pool.has(old(ctx).active_frame_buffer@[0].name));
            old(ctx).frame_buffer_pool.lemma_wf_bounds(active.name);
        }
        let frame_buffer = ctx.frame_buffer_pool.get_object_mut(active.name);
        let status = check_frame_buffer_status(frame_buffer);
        proof {
            assert(old(ctx).frame_buffer_pool.contents().insert(
                active.name,
                old(ctx).frame_buffer_pool.contents()[active.name],
            ) =~= old(ctx).frame_buffer_pool.contents());
        }
        status
    }
}

/// Issue `n` fresh framebuffer handles; see the generate pipeline for the
/// validation and the handle guarantees.
#[allow(non_snake_case)]
pub fn glGenFramebuffers(ctx: &mut Context, n: GLsizei, framebuffers_present: bool) -> (
    framebuffers: Vec<GLuint>)
    requires
        old(ctx).wf(),
        n > 0 ==> old(ctx).frame_buffer_pool.counter() + n <= u32::MAX,
    ensures
        final(ctx).wf(),
        leaves_non_frame_buffer_state(*old(ctx), *final(ctx)),
        final(ctx).active_frame_buffer@ == old(ctx).active_frame_buffer@,
        final(ctx).frame_buffer_pool.contents() == old(ctx).frame_buffer_pool.contents(),
        !(n >= 0 && framebuffers_present) ==> {
            &&& final(ctx).error == old(ctx).error.recorded(GL_INVALID_VALUE)
            &&& final(ctx).frame_buffer_pool == old(ctx).frame_buffer_pool
            &&& framebuffers@.len() == 0
        },
        n >= 0 && framebuffers_present ==> {
            &&& final(ctx).error == old(ctx).error
            &&& framebuffers@.len() == n
            &&& final(ctx).frame_buffer_pool.counter() == old(ctx).frame_buffer_pool.counter() + n
            &&& forall|j: int|
                0 <= j < n ==> framebuffers@[j] == old(ctx).frame_buffer_pool.counter() + j + 1
        },
{
    let framebuffers = generate_objects(
        n,
        framebuffers_present,
        &mut ctx.frame_buffer_pool,
        &mut ctx.error,
    );
    proof {
        lemma_slots_wf_grow(
            old(ctx).active_frame_buffer@,
            old(ctx).frame_buffer_pool,
            ctx.frame_buffer_pool,
        );
    }
    framebuffers
}

/// Destroy the first `n` framebuffers of the list; see the delete pipeline
/// for the validation, skipping, and slot-clearing guarantees.
#[allow(non_snake_case)]
pub fn glDeleteFramebuffers(ctx: &mut Context, n: GLsizei, framebuffers: Option<&Vec<GLuint>>)
    requires
        old(ctx).wf(),
        n >= 0 && framebuffers.is_some() ==> n <= framebuffers.unwrap()@.len(),
    ensures
        final(ctx).wf(),
        leaves_non_frame_buffer_state(*old(ctx), *final(ctx)),
        final(ctx).frame_buffer_pool.counter() == old(ctx).frame_buffer_pool.counter(),
        !(n >= 0 && framebuffers.is_some()) ==> {
            &&& final(ctx).error == old(ctx).error.recorded(GL_INVALID_VALUE)
            &&& final(ctx).frame_buffer_pool == old(ctx).frame_buffer_pool
            &&& final(ctx).active_frame_buffer@ == old(ctx).active_frame_buffer@
        },
        n >= 0 && framebuffers.is_some() ==> {
            let names = framebuffers.unwrap()@.take(n as int);
            &&& final(ctx).error == old(ctx).error
            &&& forall|h: GLuint|
                #[trigger] final(ctx).frame_buffer_pool.has(h) == (old(ctx).frame_buffer_pool.has(
                    h,
                ) && !names.contains(h))
            &&& forall|h: GLuint|
                #[trigger] final(ctx).frame_buffer_pool.has(h)
                    ==> final(ctx).frame_buffer_pool.contents()[h] == old(
                    ctx,
                ).frame_buffer_pool.contents()[h]
            &&& forall|j: int|
                0 <= j < old(ctx).active_frame_buffer@.len()
                    ==> final(ctx).active_frame_buffer@[j] == (if old(ctx).frame_buffer_pool.has(
                    old(ctx).active_frame_buffer@[j].name,
                ) && names.contains(old(ctx).active_frame_buffer@[j].name) {
                    ActiveObject::unbound_spec()
                } else {
                    old(ctx).active_frame_buffer@[j]
                })
        },
{
    delete_objects(
        n,
        framebuffers,
        &mut ctx.frame_buffer_pool,
        &mut ctx.active_frame_buffer,
        false,
        &mut ctx.error,
    );
    proof {
        if n >= 0 && framebuffers.is_some() {
            assert forall|j: int| 0 <= j < ctx.active_frame_buffer@.len() implies ((
            #[trigger] ctx.active_frame_buffer@[j]).name == 0 || ctx.frame_buffer_pool.has(
                ctx.active_frame_buffer@[j].name,
            )) by {
                let pre = old(ctx).active_frame_buffer@[j];
                assert(pre.name == 0 || old(ctx).frame_buffer_pool.has(pre.name));
                assert(ctx.frame_buffer_pool.has(pre.name) == (old(ctx).frame_buffer_pool.has(
                    pre.name,
                ) && !framebuffers.unwrap()@.take(n as int).contains(pre.name)));
            }
        }
    }
}

/// Whether `framebuffer` names a framebuffer instance the pool holds.
#[allow(non_snake_case)]
pub fn glIsFramebuffer(ctx: &Context, framebuffer: GLuint) -> (valid: GLboolean)
    ensures
        (valid == crate::gl_sys::GL_TRUE) == (framebuffer != 0 && ctx.frame_buffer_pool.has(
            framebuffer,
        )),
        valid == crate::gl_sys::GL_TRUE || valid == crate::gl_sys::GL_FALSE,
{
    is_valid_object(framebuffer, &ctx.frame_buffer_pool)
}

} // verus!
