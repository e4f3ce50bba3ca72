//! The buffer resource kind: its registry state, its wiring into the three
//! generic pipelines, and its entry points.

use vstd::prelude::*;

verus! {

use crate::active_object::ActiveObject;
use crate::context::bind_target_object_name;
use crate::context::buffer_target_index;
use crate::context::buffer_target_to_index;
use crate::context::delete_objects;
use crate::context::generate_objects;
use crate::context::get_active_buffer;
use crate::context::is_valid_object;
use crate::context::lemma_slots_wf_after_bind;
use crate::context::lemma_slots_wf_grow;
use crate::context::object_upload_data;
use crate::context::slot_mut;
use crate::context::Bindable;
use crate::context::Context;
use crate::context::UploadHandler;
use crate::gl_sys::GLboolean;
use crate::gl_sys::GLenum;
use crate::gl_sys::GLsizei;
use crate::gl_sys::GLsizeiptr;
use crate::gl_sys::GLuint;
use crate::gl_sys::GL_INVALID_ENUM;
use crate::gl_sys::GL_INVALID_OPERATION;
use crate::gl_sys::GL_INVALID_VALUE;
use crate::gl_sys::GL_ARRAY_BUFFER;
use crate::gl_sys::GL_BUFFER_SIZE;
use crate::gl_sys::GL_BUFFER_USAGE;
use crate::gl_sys::GL_DYNAMIC_DRAW;
use crate::gl_sys::GL_ELEMENT_ARRAY_BUFFER;
use crate::gl_sys::GL_STATIC_DRAW;
use crate::gl_sys::GL_STREAM_DRAW;
use crate::hal_registry::HalBuffer;
use crate::hal_registry::HalMemory;
use crate::object_pool::Resource;
use crate::utilities::Error;

/// The buffer binding targets, in slot order.
#[derive(Clone, Copy, Debug, Hash, PartialEq, Eq, Structural)]
pub enum BufferType {
    Array,
    Element,
    Total,
}

/// A buffer object's registry state: configuration plus the optional
/// materialized backend storage.
#[derive(Debug, PartialEq, Eq)]
pub struct Buffer {
    pub usage: GLenum,
    pub target: GLenum,
    pub size: GLsizeiptr,
    pub data: Option<Vec<u8>>,
    pub is_allocated: bool,
    pub memory: Option<HalMemory>,
    pub buffer: Option<HalBuffer>,
}

impl Resource for Buffer {
    open spec fn fresh_spec() -> Buffer {
        (Buffer {
            usage: 0,
            target: 0,
            size: 0,
            data: None,
            is_allocated: false,
            memory: None,
            buffer: None,
        })
    }

    fn fresh() -> (object: Buffer) {
        Buffer {
            usage: 0,
            target: 0,
            size: 0,
            data: None,
            is_allocated: false,
            memory: None,
            buffer: None,
        }
    }

    open spec fn cleaned(self) -> Buffer {
        self.released()
    }

    fn cleanup(&mut self) {
        hal_buffer_release(self);
    }
}

impl Bindable for Buffer {
    /// A buffer takes whatever target it is bound to; binding never
    /// conflicts.
    open spec fn conflicts_with(self, target: GLenum) -> bool {
        false
    }

    open spec fn with_target(self, target: GLenum) -> Buffer {
        (Buffer { target, ..self })
    }

    fn record_target(&mut self, target: GLenum) -> (ok: bool) {
        self.target = target;
        true
    }

    proof fn fresh_never_conflicts(target: GLenum) {
    }
}

impl Buffer {
    /// The buffer with its backend storage released.
    pub open spec fn released(self) -> Buffer {
        (Buffer { memory: None, buffer: None, ..self })
    }
}

impl Default for Buffer {
    fn default() -> (object: Buffer)
        ensures
            object == Buffer::fresh_spec(),
    {
        Buffer::fresh()
    }
}

/// Release the backend storage a buffer holds.
pub fn hal_buffer_release(buffer: &mut Buffer)
    ensures
        *final(buffer) == old(buffer).released(),
{
    buffer.memory = None;
    buffer.buffer = None;
}

/// Whether the buffer has materialized backend storage.
pub fn has_hal_buffer(buffer: &Buffer) -> (allocated: bool)
    ensures
        allocated == buffer.buffer.is_some(),
{
    buffer.buffer.is_some()
}

/// Whether `value` is a buffer binding target.
pub open spec fn is_buffer_target(value: GLenum) -> bool {
    value == GL_ARRAY_BUFFER || value == GL_ELEMENT_ARRAY_BUFFER
}

/// Target validation for buffers: `GL_INVALID_ENUM` unless `value` is a
/// buffer binding target.
pub fn validate_buffer_target(value: GLenum, latch: &mut Error) -> (ok: bool)
    ensures
        ok == is_buffer_target(value),
        ok ==> *final(latch) == *old(latch),
        !ok ==> *final(latch) == old(latch).recorded(crate::gl_sys::GL_INVALID_ENUM),
{
    let required = buffer_targets();
    crate::context::validate_target(value, &required, latch)
}

/// The buffer binding targets as a list, with membership pinned down.
fn buffer_targets() -> (required: Vec<GLenum>)
    ensures
        forall|value: GLenum| required@.contains(value) == is_buffer_target(value),
{
    let required = vec![GL_ARRAY_BUFFER, GL_ELEMENT_ARRAY_BUFFER];
    proof {
        assert forall|value: GLenum| required@.contains(value) == is_buffer_target(value) by {
            if is_buffer_target(value) {
                if value == GL_ARRAY_BUFFER {
                    assert(required@[0] == value);
                } else {
                    assert(required@[1] == value);
                }
            }
        }
    }
    required
}

/// Whether `value` is a buffer parameter name that may be queried.
pub open spec fn is_buffer_pname(value: GLenum) -> bool {
    value == GL_BUFFER_SIZE || value == GL_BUFFER_USAGE
}

/// Parameter-name validation for buffer queries: `GL_INVALID_ENUM` unless
/// `value` is a buffer parameter name.
pub fn validate_buffer_pname(value: GLenum, latch: &mut Error) -> (ok: bool)
    ensures
        ok == is_buffer_pname(value),
        ok ==> *final(latch) == *old(latch),
        !ok ==> *final(latch) == old(latch).recorded(crate::gl_sys::GL_INVALID_ENUM),
{
    let required = vec![GL_BUFFER_SIZE, GL_BUFFER_USAGE];
    proof {
        assert forall|v: GLenum| required@.contains(v) == is_buffer_pname(v) by {
            if is_buffer_pname(v) {
                if v == GL_BUFFER_SIZE {
                    assert(required@[0] == v);
                } else {
                    assert(required@[1] == v);
                }
            }
        }
    }
    crate::context::validate_pname(value, &required, latch)
}

/// Whether `value` is a buffer data usage hint.
pub open spec fn is_buffer_usage(value: GLenum) -> bool {
    value == GL_STREAM_DRAW || value == GL_STATIC_DRAW || value == GL_DYNAMIC_DRAW
}

/// Usage validation for buffer uploads: `GL_INVALID_ENUM` unless `value`
/// is a usage hint.
pub fn validate_buffer_usage(value: GLenum, latch: &mut Error) -> (ok: bool)
    ensures
        ok == is_buffer_usage(value),
        ok ==> *final(latch) == *old(latch),
        !ok ==> *final(latch) == old(latch).recorded(crate::gl_sys::GL_INVALID_ENUM),
{
    let required = vec![GL_STREAM_DRAW, GL_STATIC_DRAW, GL_DYNAMIC_DRAW];
    proof {
        assert forall|v: GLenum| required@.contains(v) == is_buffer_usage(v) by {
            if is_buffer_usage(v) {
                if v == GL_STREAM_DRAW {
                    assert(required@[0] == v);
                } else if v == GL_STATIC_DRAW {
                    assert(required@[1] == v);
                } else {
                    assert(required@[2] == v);
                }
            }
        }
    }
    crate::context::validate_pname(value, &required, latch)
}

/// Size validation for buffer uploads: `GL_INVALID_VALUE` for a negative
/// size.
pub fn validate_buffer_size(value: GLsizeiptr, latch: &mut Error) -> (ok: bool)
    ensures
        ok == (value >= 0),
        ok ==> *final(latch) == *old(latch),
        !ok ==> *final(latch) == old(latch).recorded(crate::gl_sys::GL_INVALID_VALUE),
{
    crate::context::validate_invalid_value(value < 0, latch)
}

/// Everything in the context but the buffer kind's own state and the error
/// register is untouched.
pub open spec fn leaves_non_buffer_state(pre: Context, post: Context) -> bool {
    &&& post.texture_pool == pre.texture_pool
    &&& post.active_texture@ == pre.active_texture@
    &&& post.active_texture_unit == pre.active_texture_unit
    &&& post.render_buffer_pool == pre.render_buffer_pool
    &&& post.active_render_buffer@ == pre.active_render_buffer@
    &&& post.frame_buffer_pool == pre.frame_buffer_pool
    &&& post.active_frame_buffer@ == pre.active_frame_buffer@
    &&& post.shader_pool == pre.shader_pool
    &&& post.program_pool == pre.program_pool
    &&& post.active_program@ == pre.active_program@
    &&& post.rasterization_state == pre.rasterization_state
    &&& post.pixel_storage_state == pre.pixel_storage_state
    &&& post.viewport_state == pre.viewport_state
}

/// Bind `buffer` to the buffer target `target`.
///
/// An invalid target records `GL_INVALID_ENUM` and changes nothing. Handle
/// `0` clears the target's slot. A non-zero handle is bound with lazy
/// creation, the target recorded on the instance; buffers accept any
/// rebinding, so the bind never fails.
#[allow(non_snake_case)]
pub fn glBindBuffer(ctx: &mut Context, target: GLenum, buffer: GLuint)
    requires
        old(ctx).wf(),
    ensures
        final(ctx).wf(),
        leaves_non_buffer_state(*old(ctx), *final(ctx)),
        !is_buffer_target(target) ==> {
            &&& final(ctx).error == old(ctx).error.recorded(GL_INVALID_ENUM)
            &&& final(ctx).buffer_pool == old(ctx).buffer_pool
            &&& final(ctx).active_buffer@ == old(ctx).active_buffer@
        },
        is_buffer_target(target) ==> {
            let prior = if old(ctx).buffer_pool.has(buffer) {
                old(ctx).buffer_pool.contents()[buffer]
            } else {
                Buffer::fresh_spec()
            };
            &&& final(ctx).error == old(ctx).error
            &&& final(ctx).active_buffer@ == old(ctx).active_buffer@.update(
                buffer_target_index(target),
                (ActiveObject { name: buffer }),
            )
            &&& (buffer == 0 ==> final(ctx).buffer_pool == old(ctx).buffer_pool)
            &&& (buffer != 0 ==> final(ctx).buffer_pool.contents() == old(
                ctx,
            ).buffer_pool.contents().insert(buffer, prior.with_target(target)))
        },
{
    let i = buffer_target_to_index(target);
    let required = buffer_targets();
    let slot = slot_mut(&mut ctx.active_buffer, i);
    let bound = bind_target_object_name(
        target,
        buffer,
        &required,
        &mut ctx.buffer_pool,
        slot,
        &mut ctx.error,
    );
    proof {
        if is_buffer_target(target) {
            lemma_slots_wf_after_bind(
                old(ctx).active_buffer@,
                ctx.active_buffer@,
                old(ctx).buffer_pool,
                ctx.buffer_pool,
                i as int,
                buffer,
            );
        }
    }
}

/// Issue `n` fresh buffer handles; see the generate pipeline for the
/// validation and the handle guarantees. `buffers_present` reports whether
/// the caller supplied a destination for them.
#[allow(non_snake_case)]
pub fn glGenBuffers(ctx: &mut Context, n: GLsizei, buffers_present: bool) -> (buffers: Vec<GLuint>)
    requires
        old(ctx).wf(),
        n > 0 ==> old(ctx).buffer_pool.counter() + n <= u32::MAX,
    ensures
        final(ctx).wf(),
        leaves_non_buffer_state(*old(ctx), *final(ctx)),
        final(ctx).active_buffer@ == old(ctx).active_buffer@,
        final(ctx).buffer_pool.contents() == old(ctx).buffer_pool.contents(),
        !(n >= 0 && buffers_present) ==> {
            &&& final(ctx).error == old(ctx).error.recorded(GL_INVALID_VALUE)
            &&& final(ctx).buffer_pool == old(ctx).buffer_pool
            &&& buffers@.len() == 0
        },
        n >= 0 && buffers_present ==> {
            &&& final(ctx).error == old(ctx).error
            &&& buffers@.len() == n
            &&& final(ctx).buffer_pool.counter() == old(ctx).buffer_pool.counter() + n
            &&& forall|j: int|
                0 <= j < n ==> buffers@[j] == old(ctx).buffer_pool.counter() + j + 1
        },
{
    let buffers = generate_objects(n, buffers_present, &mut ctx.buffer_pool, &mut ctx.error);
    proof {
        lemma_slots_wf_grow(old(ctx).active_buffer@, old(ctx).buffer_pool, ctx.buffer_pool);
    }
    buffers
}

/// Whether `buffer` names a buffer instance the pool holds.
#[allow(non_snake_case)]
pub fn glIsBuffer(ctx: &Context, buffer: GLuint) -> (valid: GLboolean)
    ensures
        (valid == crate::gl_sys::GL_TRUE) == (buffer != 0 && ctx.buffer_pool.has(buffer)),
        valid == crate::gl_sys::GL_TRUE || valid == crate::gl_sys::GL_FALSE,
{
    is_valid_object(buffer, &ctx.buffer_pool)
}

/// Destroy the first `n` buffers of the list; see the delete pipeline for
/// the validation, skipping, and slot-clearing guarantees.
#[allow(non_snake_case)]
pub fn glDeleteBuffers(ctx: &mut Context, n: GLsizei, buffers: Option<&Vec<GLuint>>)
    requires
        old(ctx).wf(),
        n >= 0 && buffers.is_some() ==> n <= buffers.unwrap()@.len(),
    ensures
        final(ctx).wf(),
        leaves_non_buffer_state(*old(ctx), *final(ctx)),
        final(ctx).buffer_pool.counter() == old(ctx).buffer_pool.counter(),
        !(n >= 0 && buffers.is_some()) ==> {
            &&& final(ctx).error == old(ctx).error.recorded(GL_INVALID_VALUE)
            &&& final(ctx).buffer_pool == old(ctx).buffer_pool
            &&& final(ctx).active_buffer@ == old(ctx).active_buffer@
        },
        n >= 0 && buffers.is_some() ==> {
            let names = buffers.unwrap()@.take(n as int);
            &&& final(ctx).error == old(ctx).error
            &&& forall|h: GLuint|
                #[trigger] final(ctx).buffer_pool.has(h) == (old(ctx).buffer_pool.has(h)
                    && !names.contains(h))
            &&& forall|h: GLuint|
                #[trigger] final(ctx).buffer_pool.has(h) ==> final(ctx).buffer_pool.contents()[h]
                    == old(ctx).buffer_pool.contents()[h]
            &&& forall|j: int|
                0 <= j < old(ctx).active_buffer@.len() ==> final(ctx).active_buffer@[j] == (if old(
                    ctx,
                ).buffer_pool.has(old(ctx).active_buffer@[j].name) && names.contains(
                    old(ctx).active_buffer@[j].name,
                ) {
                    ActiveObject::unbound_spec()
                } else {
                    old(ctx).active_buffer@[j]
                })
        },
{
    delete_objects(
        n,
        buffers,
        &mut ctx.buffer_pool,
        &mut ctx.active_buffer,
        false,
        &mut ctx.error,
    );
    proof {
        if n >= 0 && buffers.is_some() {
            assert forall|j: int| 0 <= j < ctx.active_buffer@.len() implies ((
            #[trigger] ctx.active_buffer@[j]).name == 0 || ctx.buffer_pool.has(
                ctx.active_buffer@[j].name,
            )) by {
                let pre = old(ctx).active_buffer@[j];
                assert(pre.name == 0 || old(ctx).buffer_pool.has(pre.name));
                assert(ctx.buffer_pool.has(pre.name) == (old(ctx).buffer_pool.has(pre.name)
                    && !buffers.unwrap()@.take(n as int).contains(pre.name)));
            }
        }
    }
}

/// The upload handler wiring `glBufferData` into the upload pipeline: it
/// carries the call's parameters and implements the kind's callbacks.
pub struct BufferDataHandler {
    pub target: GLenum,
    pub size: GLsizeiptr,
    pub data_present: bool,
    pub usage: GLenum,
}

/// The buffer instance after the prepare step of a data upload: the usage
/// hint is recorded, and the backend storage is released when the new
/// write is incompatible with it (a payload over existing storage, or a
/// size change with no payload supplied).
pub open spec fn buffer_data_applied(
    object: Buffer,
    size: GLsizeiptr,
    data_present: bool,
    usage: GLenum,
) -> Buffer {
    let updated = Buffer { usage, ..object };
    if (data_present && object.buffer is Some) || (!data_present && object.size > 0 && size
        != object.size) {
        updated.released()
    } else {
        updated
    }
}

impl UploadHandler<Buffer> for BufferDataHandler {
    open spec fn params_valid(self) -> bool {
        is_buffer_target(self.target) && is_buffer_usage(self.usage) && self.size >= 0
    }

    open spec fn invalid_params_error(self) -> GLenum {
        if !is_buffer_target(self.target) || !is_buffer_usage(self.usage) {
            GL_INVALID_ENUM
        } else {
            GL_INVALID_VALUE
        }
    }

    fn check_params(&self, latch: &mut Error) -> (ok: bool) {
        validate_buffer_target(self.target, latch) && validate_buffer_usage(self.usage, latch)
            && validate_buffer_size(self.size, latch)
    }

    open spec fn prepared(self, object: Buffer) -> Buffer {
        buffer_data_applied(object, self.size, self.data_present, self.usage)
    }

    open spec fn proceeds(self, object: Buffer) -> bool {
        true
    }

    fn prepare(&self, object: &mut Buffer) -> (go: bool) {
        object.usage = self.usage;
        let allocated_size = object.size;
        let data_is_nullptr = !self.data_present;
        if (!data_is_nullptr && has_hal_buffer(object)) || (data_is_nullptr && allocated_size > 0
            && self.size != allocated_size) {
            hal_buffer_release(object);
        }
        true
    }

    open spec fn can_materialize(self, object: Buffer) -> bool {
        true
    }

    open spec fn materialized(self, object: Buffer) -> Buffer {
        object
    }

    fn materialize(&self, object: &mut Buffer) -> (ok: bool) {
        crate::hal_registry::hal_buffer_allocate()
    }

    open spec fn finalized(self) -> BufferDataHandler {
        self
    }

    fn finalize(&mut self) {
    }
}

/// Write `size` bytes of data (or none) into the buffer bound at `target`,
/// with the given usage hint.
///
/// Invalid parameters record their error and change nothing. An unbound
/// target records `GL_INVALID_OPERATION`. Otherwise the bound instance
/// takes the usage hint, incompatible backend storage is released, and
/// storage is materialized anew.
#[allow(non_snake_case)]
pub fn glBufferData(
    ctx: &mut Context,
    target: GLenum,
    size: GLsizeiptr,
    data: Option<&Vec<u8>>,
    usage: GLenum,
)
    requires
        old(ctx).wf(),
    ensures
        final(ctx).wf(),
        leaves_non_buffer_state(*old(ctx), *final(ctx)),
        final(ctx).active_buffer@ == old(ctx).active_buffer@,
        final(ctx).buffer_pool.counter() == old(ctx).buffer_pool.counter(),
        ({
            let params_ok = is_buffer_target(target) && is_buffer_usage(usage) && size >= 0;
            let enum_bad = !is_buffer_target(target) || !is_buffer_usage(usage);
            let slot = old(ctx).active_buffer@[buffer_target_index(target)];
            if !params_ok {
                &&& final(ctx).error == old(ctx).error.recorded(
                    if enum_bad {
                        GL_INVALID_ENUM
                    } else {
                        GL_INVALID_VALUE
                    },
                )
                &&& final(ctx).buffer_pool == old(ctx).buffer_pool
            } else if slot.name == 0 {
                &&& final(ctx).error == old(ctx).error.recorded(GL_INVALID_OPERATION)
                &&& final(ctx).buffer_pool == old(ctx).buffer_pool
            } else {
                &&& final(ctx).error == old(ctx).error
                &&& final(ctx).buffer_pool.contents() == old(ctx).buffer_pool.contents().insert(
                    slot.name,
                    buffer_data_applied(
                        old(ctx).buffer_pool.contents()[slot.name],
                        size,
                        data.is_some(),
                        usage,
                    ),
                )
            }
        }),
{
    let snapshot = get_active_buffer(ctx, target);
    let mut handler = BufferDataHandler { target, size, data_present: data.is_some(), usage };
    proof {
        let i = buffer_target_index(target);
        assert(old(ctx).active_buffer@[i].name == 0 || old(ctx).buffer_pool.has(
            old(ctx).active_buffer@[i].name,
        ));
    }
    let outcome = object_upload_data(&mut handler, snapshot, &mut ctx.buffer_pool, &mut ctx.error);
    proof {
        assert forall|h: GLuint| old(ctx).buffer_pool.has(h) implies ctx.buffer_pool.has(h) by {}
        lemma_slots_wf_grow(old(ctx).active_buffer@, old(ctx).buffer_pool, ctx.buffer_pool);
    }
}

/// Query a parameter of the buffer bound at `target`: only the target and
/// parameter-name validation is tracked here; the value write-back is the
/// calling layer's concern.
#[allow(non_snake_case)]
pub fn glGetBufferParameteriv(ctx: &mut Context, target: GLenum, pname: GLenum)
    requires
        old(ctx).wf(),
    ensures
        final(ctx).wf(),
        leaves_non_buffer_state(*old(ctx), *final(ctx)),
        final(ctx).buffer_pool == old(ctx).buffer_pool,
        final(ctx).active_buffer@ == old(ctx).active_buffer@,
        !is_buffer_target(target) ==> final(ctx).error == old(ctx).error.recorded(GL_INVALID_ENUM),
        is_buffer_target(target) && !is_buffer_pname(pname) ==> final(ctx).error == old(
            ctx,
        ).error.recorded(GL_INVALID_ENUM),
        is_buffer_target(target) && is_buffer_pname(pname) ==> final(ctx).error == old(ctx).error,
{
    if !validate_buffer_target(target, &mut ctx.error) {
        return ;
    }
    if !validate_buffer_pname(pname, &mut ctx.error) {
        return ;
    }
}

} // verus!
