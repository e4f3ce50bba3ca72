//! The generic state-transition pipelines and the shared validation steps
//! that every resource kind is wired into, plus the context value that owns
//! one pool and one group of active binding slots per kind.
//!
//! Lock discipline of the surrounding process-wide hub: a pool's entries are
//! resolved and used while that pool is exclusively held, and a pool is
//! always taken before the binding slots of its kind. This crate encodes
//! that discipline by construction: each pipeline takes the pool and the
//! slots it touches as separate exclusive borrows for the whole operation.

use vstd::prelude::*;

verus! {

use crate::active_object::ActiveObject;
use crate::buffer::Buffer;
use crate::frame_buffer::FrameBuffer;
use crate::gl_sys::GLboolean;
use crate::gl_sys::GLenum;
use crate::gl_sys::GLsizei;
use crate::gl_sys::GLuint;
use crate::gl_sys::GL_FALSE;
use crate::gl_sys::GL_INVALID_ENUM;
use crate::gl_sys::GL_INVALID_OPERATION;
use crate::gl_sys::GL_INVALID_VALUE;
use crate::gl_sys::GL_OUT_OF_MEMORY;
use crate::gl_sys::GL_TRUE;
use crate::gl_sys::GL_ARRAY_BUFFER;
use crate::gl_sys::GL_ELEMENT_ARRAY_BUFFER;
use crate::gl_sys::GL_NO_ERROR;
use crate::gl_sys::GL_TEXTURE0;
use crate::gl_sys::GL_TEXTURE_2D;
use crate::gl_sys::GL_TEXTURE_CUBE_MAP;
use crate::object_pool::ObjectPool;
use crate::object_pool::Resource;
use crate::pixel_operations::PixelStorageState;
use crate::program::Program;
use crate::rasterization_state::RasterizationState;
use crate::render_buffer::RenderBuffer;
use crate::shader::Shader;
use crate::texture::Texture;
use crate::texture::TextureUnit;
use crate::utilities::record_error;
use crate::utilities::Error;
use crate::viewport_transformation::ViewportTransformation;

/// Builds a `GLboolean` out of a value.
pub trait AsGlBoolValue {
    /// The `GLboolean` the value stands for.
    spec fn as_gl_bool_spec(&self) -> GLboolean;

    /// Build the `GLboolean`.
    fn as_gl_bool_value(&self) -> (raw: GLboolean)
        ensures
            raw == self.as_gl_bool_spec(),
    ;
}

impl AsGlBoolValue for bool {
    open spec fn as_gl_bool_spec(&self) -> GLboolean {
        if *self {
            GL_TRUE
        } else {
            GL_FALSE
        }
    }

    fn as_gl_bool_value(&self) -> (raw: GLboolean) {
        if *self {
            GL_TRUE
        } else {
            GL_FALSE
        }
    }
}

/// Whether a value that stands for a C pointer is absent.
pub fn is_nullptr<T>(value: &Option<T>) -> (null: bool)
    ensures
        null == value.is_none(),
{
    match value {
        Option::None => true,
        Option::Some(_) => false,
    }
}

/// Return true if `value` is one of the `required_values`, otherwise false.
pub fn find_value_in_slice(value: GLenum, required_values: &Vec<GLenum>) -> (found: bool)
    ensures
        found == required_values@.contains(value),
{
    let n = required_values.len();
    let mut i: usize = 0;
    while i < n
        invariant
            i <= n,
            n == required_values@.len(),
            forall|j: int| 0 <= j < i ==> required_values@[j] != value,
        decreases n - i,
    {
        if required_values[i] == value {
            return true;
        }
        i += 1;
    }
    false
}

/// Record `GL_INVALID_ENUM` and return false when `value` is not one of the
/// `required_values`, otherwise true with the error register untouched.
pub fn validate_invalid_enum(
    value: GLenum,
    required_values: &Vec<GLenum>,
    latch: &mut Error,
) -> (ok: bool)
    ensures
        ok == required_values@.contains(value),
        ok ==> *final(latch) == *old(latch),
        !ok ==> *final(latch) == old(latch).recorded(GL_INVALID_ENUM),
{
    if !find_value_in_slice(value, required_values) {
        record_error(latch, GL_INVALID_ENUM);
        false
    } else {
        true
    }
}

/// Target validation: `GL_INVALID_ENUM` when `target` is not one of the
/// `required_values`.
pub fn validate_target(target: GLenum, required_values: &Vec<GLenum>, latch: &mut Error) -> (ok:
    bool)
    ensures
        ok == required_values@.contains(target),
        ok ==> *final(latch) == *old(latch),
        !ok ==> *final(latch) == old(latch).recorded(GL_INVALID_ENUM),
{
    validate_invalid_enum(target, required_values, latch)
}

/// Parameter-name validation: `GL_INVALID_ENUM` when `pname` is not one of
/// the `required_values`.
pub fn validate_pname(pname: GLenum, required_values: &Vec<GLenum>, latch: &mut Error) -> (ok:
    bool)
    ensures
        ok == required_values@.contains(pname),
        ok ==> *final(latch) == *old(latch),
        !ok ==> *final(latch) == old(latch).recorded(GL_INVALID_ENUM),
{
    validate_invalid_enum(pname, required_values, latch)
}

/// Parameter-value validation: `GL_INVALID_ENUM` when `param` is not one of
/// the `required_values`.
pub fn validate_params(param: GLenum, required_values: &Vec<GLenum>, latch: &mut Error) -> (ok:
    bool)
    ensures
        ok == required_values@.contains(param),
        ok ==> *final(latch) == *old(latch),
        !ok ==> *final(latch) == old(latch).recorded(GL_INVALID_ENUM),
{
    validate_invalid_enum(param, required_values, latch)
}

/// Parameter-name validation for a single name: `GL_INVALID_ENUM` when
/// `pname` is not one of the `required_values`, otherwise true with the
/// error register untouched.
pub fn validate_parameter(pname: GLenum, required_values: &Vec<GLenum>, latch: &mut Error) -> (ok:
    bool)
    ensures
        ok == required_values@.contains(pname),
        ok ==> *final(latch) == *old(latch),
        !ok ==> *final(latch) == old(latch).recorded(GL_INVALID_ENUM),
{
    validate_parameters(pname, required_values, latch)
}

/// Record `GL_INVALID_ENUM` and return false when `param` is not one of
/// the `required_values`, otherwise true with the register untouched.
pub fn validate_parameters(param: GLenum, required_values: &Vec<GLenum>, latch: &mut Error) -> (ok:
    bool)
    ensures
        ok == required_values@.contains(param),
        ok ==> *final(latch) == *old(latch),
        !ok ==> *final(latch) == old(latch).recorded(GL_INVALID_ENUM),
{
    if !find_value_in_slice(param, required_values) {
        record_error(latch, GL_INVALID_ENUM);
        return false;
    }
    true
}

/// Record `GL_INVALID_VALUE` and return false when the caller's value test
/// found the value invalid, otherwise true with the register untouched.
pub fn validate_invalid_value(is_invalid: bool, latch: &mut Error) -> (ok: bool)
    ensures
        ok == !is_invalid,
        ok ==> *final(latch) == *old(latch),
        !ok ==> *final(latch) == old(latch).recorded(GL_INVALID_VALUE),
{
    if is_invalid {
        record_error(latch, GL_INVALID_VALUE);
        false
    } else {
        true
    }
}

/// Count and list validation shared by the generate and delete pipelines:
/// the count must be non-negative and the handle list present, else
/// `GL_INVALID_VALUE` is recorded and the pipeline runs no further.
pub fn validate_objects_ptr(count: GLsizei, objects_present: bool, latch: &mut Error) -> (ok: bool)
    ensures
        ok == (count >= 0 && objects_present),
        ok ==> *final(latch) == *old(latch),
        !ok ==> *final(latch) == old(latch).recorded(GL_INVALID_VALUE),
{
    if count < 0 {
        record_error(latch, GL_INVALID_VALUE);
        return false;
    }
    if !objects_present {
        record_error(latch, GL_INVALID_VALUE);
        return false;
    }
    true
}

/// Whether `object_name` names the default framebuffer.
pub fn is_default_frame_buffer(object_name: GLuint) -> (default: bool)
    ensures
        default == (object_name == 0),
{
    object_name == 0
}

/// The default framebuffer's handle for `target`: the reserved handle `0`,
/// which no pool entry ever stands behind.
pub fn get_default_frame_buffer(target: GLenum) -> (object_name: GLuint)
    ensures
        object_name == 0,
{
    0
}

/// Whether `object_name` currently names an instance: `GL_FALSE` for the
/// reserved handle `0` and for any handle the pool does not hold.
pub fn is_valid_object<T: Resource>(object_name: GLuint, pool: &ObjectPool<T>) -> (valid:
    GLboolean)
    ensures
        (valid == GL_TRUE) == (object_name != 0 && pool.has(object_name)),
        valid == GL_TRUE || valid == GL_FALSE,
{
    if object_name == 0 {
        return GL_FALSE;
    }
    pool.is_object_exists(object_name).as_gl_bool_value()
}

/// Issue `count` fresh handles from `pool`. The handles are returned
/// strictly increasing and never zero; no instance is created for them. A
/// negative count, or an absent destination list, records
/// `GL_INVALID_VALUE` and issues nothing.
pub fn generate_objects<T: Resource>(
    count: GLsizei,
    objects_present: bool,
    pool: &mut ObjectPool<T>,
    latch: &mut Error,
) -> (objects: Vec<GLuint>)
    requires
        old(pool).wf(),
        count > 0 ==> old(pool).counter() + count <= u32::MAX,
    ensures
        final(pool).wf(),
        final(pool).contents() == old(pool).contents(),
        !(count >= 0 && objects_present) ==> {
            &&& *final(latch) == old(latch).recorded(GL_INVALID_VALUE)
            &&& *final(pool) == *old(pool)
            &&& objects@.len() == 0
        },
        count >= 0 && objects_present ==> {
            &&& *final(latch) == *old(latch)
            &&& objects@.len() == count
            &&& final(pool).counter() == old(pool).counter() + count
            &&& forall|i: int|
                0 <= i < count ==> objects@[i] == old(pool).counter() + i + 1
        },
{
    let mut objects: Vec<GLuint> = Vec::new();
    if !validate_objects_ptr(count, objects_present, latch) {
        return objects;
    }
    let n = count as usize;
    let mut i: usize = 0;
    while i < n
        invariant
            i <= n,
            n == count,
            old(pool).counter() + count <= u32::MAX,
            pool.wf(),
            pool.counter() == old(pool).counter() + i,
            pool.contents() == old(pool).contents(),
            objects@.len() == i,
            forall|j: int| 0 <= j < i ==> objects@[j] == old(pool).counter() + j + 1,
        decreases n - i,
    {
        let object_name = pool.allocate();
        objects.push(object_name);
        i += 1;
    }
    objects
}

/// Per-kind rules for how binding records a target on a resource instance.
pub trait Bindable: Resource {
    /// Whether binding to `target` conflicts with the target this instance
    /// has already recorded.
    spec fn conflicts_with(self, target: GLenum) -> bool;

    /// The instance after `target` is recorded on it.
    spec fn with_target(self, target: GLenum) -> Self;

    /// Record `target` on the instance; fails exactly on a conflict and
    /// leaves the instance untouched then.
    fn record_target(&mut self, target: GLenum) -> (ok: bool)
        ensures
            ok == !old(self).conflicts_with(target),
            ok ==> *final(self) == old(self).with_target(target),
            !ok ==> *final(self) == *old(self),
    ;

    /// A default-initialized instance has no target recorded yet, so it
    /// never conflicts.
    proof fn fresh_never_conflicts(target: GLenum)
        ensures
            !Self::fresh_spec().conflicts_with(target),
    ;
}

/// Whether binding `object_name` to `target` would hit a target conflict on
/// the instance the pool already holds for it.
pub open spec fn bind_conflicts<T: Bindable>(
    pool: ObjectPool<T>,
    object_name: GLuint,
    target: GLenum,
) -> bool {
    pool.has(object_name) && pool.contents()[object_name].conflicts_with(target)
}

/// The generic bind pipeline: bind `object_name` to `target` in `slot`.
///
/// An invalid target records `GL_INVALID_ENUM` and changes nothing. Handle
/// `0` selects the default object: the slot is cleared and no pool entry is
/// created. A non-zero handle is resolved with lazy creation and the target
/// recorded on it; a target conflict records `GL_INVALID_OPERATION` and
/// leaves pool and slot exactly as they were. The slot changes if and only
/// if every step succeeded.
pub fn bind_target_object_name<T: Bindable>(
    target: GLenum,
    object_name: GLuint,
    required_targets: &Vec<GLenum>,
    pool: &mut ObjectPool<T>,
    slot: &mut ActiveObject,
    latch: &mut Error,
) -> (bound: bool)
    requires
        old(pool).wf(),
    ensures
        final(pool).wf(),
        bound == (required_targets@.contains(target) && (object_name == 0 || !bind_conflicts(
            *old(pool),
            object_name,
            target,
        ))),
        !required_targets@.contains(target) ==> {
            &&& *final(latch) == old(latch).recorded(GL_INVALID_ENUM)
            &&& *final(pool) == *old(pool)
            &&& *final(slot) == *old(slot)
        },
        required_targets@.contains(target) && object_name == 0 ==> {
            &&& *final(latch) == *old(latch)
            &&& *final(pool) == *old(pool)
            &&& *final(slot) == ActiveObject::unbound_spec()
        },
        required_targets@.contains(target) && object_name != 0 && bind_conflicts(
            *old(pool),
            object_name,
            target,
        ) ==> {
            &&& *final(latch) == old(latch).recorded(GL_INVALID_OPERATION)
            &&& final(pool).contents() == old(pool).contents()
            &&& final(pool).counter() == old(pool).counter()
            &&& *final(slot) == *old(slot)
        },
        required_targets@.contains(target) && object_name != 0 && !bind_conflicts(
            *old(pool),
            object_name,
            target,
        ) ==> {
            let prior = if old(pool).has(object_name) {
                old(pool).contents()[object_name]
            } else {
                T::fresh_spec()
            };
            &&& *final(latch) == *old(latch)
            &&& final(pool).contents() == old(pool).contents().insert(
                object_name,
                prior.with_target(target),
            )
            &&& final(pool).counter() == (if object_name > old(pool).counter() {
                object_name
            } else {
                old(pool).counter()
            })
            &&& *final(slot) == (ActiveObject { name: object_name })
        },
{
    if !validate_target(target, required_targets, latch) {
        return false;
    }
    if object_name == 0 {
        slot.clear();
        return true;
    }
    let object = pool.get_object_mut(object_name);
    let ok = object.record_target(target);
    if !ok {
        proof {
            if !old(pool).has(object_name) {
                T::fresh_never_conflicts(target);
            }
            old(pool).lemma_wf_bounds(object_name);
            assert(old(pool).contents().insert(
                object_name,
                old(pool).contents()[object_name],
            ) =~= old(pool).contents());
        }
        record_error(latch, GL_INVALID_OPERATION);
        return false;
    }
    slot.set(object_name);
    true
}

/// How far one run of the upload pipeline came.
#[derive(Clone, Copy, Debug, PartialEq, Eq, Structural)]
pub enum UploadOutcome {
    /// The parameter validation step rejected the call.
    InvalidParams,
    /// No object is bound in the snapshotted slot.
    NoObjectBound,
    /// The prepare step declined to proceed; no further error is recorded.
    Aborted,
    /// The materialize step failed; `GL_OUT_OF_MEMORY` was recorded.
    OutOfMemory,
    /// All steps ran, finalize included.
    Done,
}

/// The per-kind callback roles of the upload pipeline, bundled with the
/// call's parameters.
pub trait UploadHandler<T>: Sized {
    /// Whether the call's parameters pass validation.
    spec fn params_valid(self) -> bool;

    /// The error code the validation step records when it fails.
    spec fn invalid_params_error(self) -> GLenum;

    /// Validate the call's parameters, recording the kind-specific error
    /// code on failure.
    fn check_params(&self, latch: &mut Error) -> (ok: bool)
        ensures
            ok == self.params_valid(),
            ok ==> *final(latch) == *old(latch),
            !ok ==> *final(latch) == old(latch).recorded(self.invalid_params_error()),
    ;

    /// The bound instance after the prepare step, which may release backend
    /// state the new write is incompatible with.
    spec fn prepared(self, object: T) -> T;

    /// Whether the prepare step decides to proceed to materialization.
    spec fn proceeds(self, object: T) -> bool;

    /// Run the prepare step on the bound instance.
    fn prepare(&self, object: &mut T) -> (go: bool)
        ensures
            *final(object) == self.prepared(*old(object)),
            go == self.proceeds(*old(object)),
    ;

    /// Whether the backend can materialize storage for the prepared
    /// instance.
    spec fn can_materialize(self, object: T) -> bool;

    /// The instance after a successful materialization.
    spec fn materialized(self, object: T) -> T;

    /// Attempt to (re)allocate backend storage for the bound instance.
    fn materialize(&self, object: &mut T) -> (ok: bool)
        ensures
            ok == self.can_materialize(*old(object)),
            ok ==> *final(object) == self.materialized(*old(object)),
            !ok ==> *final(object) == *old(object),
    ;

    /// The handler after its finalize hook ran.
    spec fn finalized(self) -> Self;

    /// The side-effect hook run only after a successful materialization.
    fn finalize(&mut self)
        ensures
            *final(self) == old(self).finalized(),
    ;
}

/// Which outcome the upload pipeline reaches from this starting state.
pub open spec fn upload_outcome<T, H: UploadHandler<T>>(
    handler: H,
    active_object: ActiveObject,
    pool: ObjectPool<T>,
) -> UploadOutcome {
    if !handler.params_valid() {
        UploadOutcome::InvalidParams
    } else if active_object.name == 0 {
        UploadOutcome::NoObjectBound
    } else {
        let object = pool.contents()[active_object.name];
        if !handler.proceeds(object) {
            UploadOutcome::Aborted
        } else if !handler.can_materialize(handler.prepared(object)) {
            UploadOutcome::OutOfMemory
        } else {
            UploadOutcome::Done
        }
    }
}

/// The generic upload pipeline: write data into the object bound by the
/// snapshotted slot.
///
/// Invalid parameters abort with the kind's own error already recorded. An
/// unbound slot records `GL_INVALID_OPERATION` before prepare or
/// materialize ever run. A prepare refusal aborts silently. A materialize
/// failure records `GL_OUT_OF_MEMORY` and skips finalize; materialize is
/// attempted at most once.
pub fn object_upload_data<T: Resource, H: UploadHandler<T>>(
    handler: &mut H,
    active_object: ActiveObject,
    pool: &mut ObjectPool<T>,
    latch: &mut Error,
) -> (outcome: UploadOutcome)
    requires
        old(pool).wf(),
        active_object.name != 0 ==> old(pool).has(active_object.name),
    ensures
        final(pool).wf(),
        final(pool).counter() == old(pool).counter(),
        outcome == upload_outcome(*old(handler), active_object, *old(pool)),
        ({
            let object = old(pool).contents()[active_object.name];
            let prepared = old(handler).prepared(object);
            match outcome {
                UploadOutcome::InvalidParams => {
                    &&& *final(latch) == old(latch).recorded(old(handler).invalid_params_error())
                    &&& *final(pool) == *old(pool)
                    &&& *final(handler) == *old(handler)
                },
                UploadOutcome::NoObjectBound => {
                    &&& *final(latch) == old(latch).recorded(GL_INVALID_OPERATION)
                    &&& *final(pool) == *old(pool)
                    &&& *final(handler) == *old(handler)
                },
                UploadOutcome::Aborted => {
                    &&& *final(latch) == *old(latch)
                    &&& final(pool).contents() == old(pool).contents().insert(
                        active_object.name,
                        prepared,
                    )
                    &&& *final(handler) == *old(handler)
                },
                UploadOutcome::OutOfMemory => {
                    &&& *final(latch) == old(latch).recorded(GL_OUT_OF_MEMORY)
                    &&& final(pool).contents() == old(pool).contents().insert(
                        active_object.name,
                        prepared,
                    )
                    &&& *final(handler) == *old(handler)
                },
                UploadOutcome::Done => {
                    &&& *final(latch) == *old(latch)
                    &&& final(pool).contents() == old(pool).contents().insert(
                        active_object.name,
                        old(handler).materialized(prepared),
                    )
                    &&& *final(handler) == old(handler).finalized()
                },
            }
        }),
{
    if !handler.check_params(latch) {
        return UploadOutcome::InvalidParams;
    }
    if active_object.name == 0 {
        record_error(latch, GL_INVALID_OPERATION);
        return UploadOutcome::NoObjectBound;
    }
    proof {
        old(pool).lemma_wf_bounds(active_object.name);
    }
    let object = pool.get_object_mut(active_object.name);
    let go = handler.prepare(object);
    if !go {
        return UploadOutcome::Aborted;
    }
    let ok = handler.materialize(object);
    if !ok {
        record_error(latch, GL_OUT_OF_MEMORY);
        return UploadOutcome::OutOfMemory;
    }
    handler.finalize();
    UploadOutcome::Done
}

proof fn lemma_take_step<A>(s: Seq<A>, k: int, x: A)
    requires
        0 <= k < s.len(),
    ensures
        s.take(k + 1).contains(x) == (s.take(k).contains(x) || s[k] == x),
{
    if s.take(k + 1).contains(x) {
        let i = choose|i: int| 0 <= i < s.take(k + 1).len() && #[trigger] s.take(k + 1)[i] == x;
        if i < k {
            assert(s.take(k)[i] == x);
        } else {
            assert(s[k] == x);
        }
    }
    if s.take(k).contains(x) {
        let i = choose|i: int| 0 <= i < s.take(k).len() && #[trigger] s.take(k)[i] == x;
        assert(s.take(k + 1)[i] == x);
    }
    if s[k] == x {
        assert(s.take(k + 1)[k] == x);
    }
}

/// Clear every slot that currently names `object_name`.
fn clear_slots(slots: &mut Vec<ActiveObject>, object_name: GLuint)
    ensures
        final(slots)@.len() == old(slots)@.len(),
        forall|j: int|
            0 <= j < old(slots)@.len() ==> final(slots)@[j] == (if old(slots)@[j].name
                == object_name {
                ActiveObject::unbound_spec()
            } else {
                old(slots)@[j]
            }),
{
    let n = slots.len();
    let mut j: usize = 0;
    while j < n
        invariant
            j <= n,
            n == slots@.len(),
            slots@.len() == old(slots)@.len(),
            forall|i: int|
                0 <= i < j ==> slots@[i] == (if old(slots)@[i].name == object_name {
                    ActiveObject::unbound_spec()
                } else {
                    old(slots)@[i]
                }),
            forall|i: int| j <= i < n ==> slots@[i] == old(slots)@[i],
        decreases n - j,
    {
        if slots[j].name == object_name {
            slots.set(j, ActiveObject::unbound());
        }
        j += 1;
    }
}

/// The generic delete pipeline: destroy the first `count` handles of the
/// list, each independently.
///
/// A negative count, or an absent list, records `GL_INVALID_VALUE` and
/// touches nothing. A handle the pool does not hold is skipped without
/// error. For each held handle, the instance's cleanup hook runs, every
/// slot of the kind that names the handle is cleared, and the entry is
/// removed; the counter is untouched, so the handle is never reissued. The
/// `need_forward_finish_drawing` flag is the excluded backend's
/// forward-finish hook and has nothing to do here.
pub fn delete_objects<T: Resource>(
    count: GLsizei,
    object_names: Option<&Vec<GLuint>>,
    pool: &mut ObjectPool<T>,
    slots: &mut Vec<ActiveObject>,
    need_forward_finish_drawing: bool,
    latch: &mut Error,
)
    requires
        old(pool).wf(),
        count >= 0 && object_names.is_some() ==> count <= object_names.unwrap()@.len(),
    ensures
        final(pool).wf(),
        final(pool).counter() == old(pool).counter(),
        final(slots)@.len() == old(slots)@.len(),
        !(count >= 0 && object_names.is_some()) ==> {
            &&& *final(latch) == old(latch).recorded(GL_INVALID_VALUE)
            &&& *final(pool) == *old(pool)
            &&& final(slots)@ == old(slots)@
        },
        count >= 0 && object_names.is_some() ==> {
            let names = object_names.unwrap()@.take(count as int);
            &&& *final(latch) == *old(latch)
            &&& forall|h: GLuint|
                #[trigger] final(pool).has(h) == (old(pool).has(h) && !names.contains(h))
            &&& forall|h: GLuint|
                #[trigger] final(pool).has(h) ==> final(pool).contents()[h] == old(
                    pool,
                ).contents()[h]
            &&& forall|j: int|
                0 <= j < old(slots)@.len() ==> final(slots)@[j] == (if old(pool).has(
                    old(slots)@[j].name,
                ) && names.contains(old(slots)@[j].name) {
                    ActiveObject::unbound_spec()
                } else {
                    old(slots)@[j]
                })
        },
{
    if !validate_objects_ptr(count, object_names.is_some(), latch) {
        return;
    }
    if need_forward_finish_drawing {
        // the forward-finish hook belongs to the excluded backend
    }
    let names = object_names.unwrap();
    let n = count as usize;
    let mut k: usize = 0;
    while k < n
        invariant
            k <= n,
            n == count,
            count <= names@.len(),
            pool.wf(),
            pool.counter() == old(pool).counter(),
            slots@.len() == old(slots)@.len(),
            *latch == *old(latch),
            forall|h: GLuint|
                #[trigger] pool.has(h) == (old(pool).has(h) && !names@.take(k as int).contains(h)),
            forall|h: GLuint|
                #[trigger] pool.has(h) ==> pool.contents()[h] == old(pool).contents()[h],
            forall|j: int|
                0 <= j < old(slots)@.len() ==> slots@[j] == (if old(pool).has(old(slots)@[j].name)
                    && names@.take(k as int).contains(old(slots)@[j].name) {
                    ActiveObject::unbound_spec()
                } else {
                    old(slots)@[j]
                }),
        decreases n - k,
    {
        let ghost taken = names@.take(k as int);
        let ghost taken_next = names@.take(k as int + 1);
        let object_name = names[k];
        proof {
            assert(taken_next[k as int] == object_name);
        }
        if pool.is_object_exists(object_name) {
            let ghost pool_before = *pool;
            proof {
                pool.lemma_wf_bounds(object_name);
            }
            let object = pool.get_object_mut(object_name);
            object.cleanup();
            clear_slots(slots, object_name);
            pool.deallocate(object_name);
            proof {
                assert forall|h: GLuint| #[trigger] pool.has(h) == (old(pool).has(h)
                    && !taken_next.contains(h)) by {
                    lemma_take_step(names@, k as int, h);
                    assert(pool_before.has(h) == (old(pool).has(h) && !taken.contains(h)));
                }
                assert forall|h: GLuint| #[trigger] pool.has(h) implies pool.contents()[h] == old(
                    pool,
                ).contents()[h] by {
                    lemma_take_step(names@, k as int, h);
                    assert(pool_before.has(h) == (old(pool).has(h) && !taken.contains(h)));
                    if pool_before.has(h) {
                        assert(pool_before.contents()[h] == old(pool).contents()[h]);
                    }
                }
                assert forall|j: int| 0 <= j < old(slots)@.len() implies slots@[j] == (if old(
                    pool,
                ).has(old(slots)@[j].name) && taken_next.contains(old(slots)@[j].name) {
                    ActiveObject::unbound_spec()
                } else {
                    old(slots)@[j]
                }) by {
                    lemma_take_step(names@, k as int, old(slots)@[j].name);
                    assert(pool_before.has(old(slots)@[j].name) == (old(pool).has(
                        old(slots)@[j].name,
                    ) && !taken.contains(old(slots)@[j].name)));
                    assert(ActiveObject::unbound_spec().name == 0);
                    assert(object_name != 0);
                }
            }
        } else {
            proof {
                assert(!pool.has(object_name));
                assert forall|h: GLuint| #[trigger] pool.has(h) == (old(pool).has(h)
                    && !taken_next.contains(h)) by {
                    lemma_take_step(names@, k as int, h);
                    assert(pool.has(h) == (old(pool).has(h) && !taken.contains(h)));
                    assert(pool.has(object_name) == (old(pool).has(object_name)
                        && !taken.contains(object_name)));
                }
                assert forall|j: int| 0 <= j < old(slots)@.len() implies slots@[j] == (if old(
                    pool,
                ).has(old(slots)@[j].name) && taken_next.contains(old(slots)@[j].name) {
                    ActiveObject::unbound_spec()
                } else {
                    old(slots)@[j]
                }) by {
                    lemma_take_step(names@, k as int, old(slots)@[j].name);
                    assert(pool.has(old(slots)@[j].name) == (old(pool).has(old(slots)@[j].name)
                        && !taken.contains(old(slots)@[j].name)));
                    assert(pool.has(object_name) == (old(pool).has(object_name)
                        && !taken.contains(object_name)));
                }
            }
        }
        k += 1;
    }
    proof {
        assert(names@.take(n as int) =~= names@.take(count as int));
    }
}

/// How many binding slots the buffer kind has: one per buffer target.
pub const BUFFER_TARGET_COUNT: usize = 2;

/// How many texture binding targets there are.
pub const TEXTURE_TARGET_COUNT: usize = 2;

/// How many texture units there are.
pub const TEXTURE_UNIT_COUNT: usize = 32;

/// Whether every bound slot of a group names an instance its pool holds.
pub open spec fn slots_wf<T>(slots: Seq<ActiveObject>, pool: ObjectPool<T>) -> bool {
    forall|i: int|
        0 <= i < slots.len() ==> ((#[trigger] slots[i]).name == 0 || pool.has(slots[i].name))
}

/// The process-wide registry state: one pool and one group of active
/// binding slots per resource kind, plus the error register and the shared
/// fixed-function state. The surrounding hub guards each part with its own
/// lock; here the whole value is threaded through explicitly, so tests can
/// construct independent instances.
#[derive(Debug)]
pub struct Context {
    pub error: Error,
    pub texture_pool: ObjectPool<Texture>,
    pub active_texture: Vec<ActiveObject>,
    pub active_texture_unit: TextureUnit,
    pub buffer_pool: ObjectPool<Buffer>,
    pub active_buffer: Vec<ActiveObject>,
    pub render_buffer_pool: ObjectPool<RenderBuffer>,
    pub active_render_buffer: Vec<ActiveObject>,
    pub frame_buffer_pool: ObjectPool<FrameBuffer>,
    pub active_frame_buffer: Vec<ActiveObject>,
    pub shader_pool: ObjectPool<Shader>,
    pub program_pool: ObjectPool<Program>,
    pub active_program: Vec<ActiveObject>,
    pub rasterization_state: RasterizationState,
    pub pixel_storage_state: PixelStorageState,
    pub viewport_state: ViewportTransformation,
}

impl Context {
    /// The context's invariant: every pool is well formed, every slot group
    /// has its fixed size, every bound slot names an instance its pool
    /// holds, and the selected texture unit is in range.
    pub open spec fn wf(self) -> bool {
        &&& self.buffer_pool.wf()
        &&& self.texture_pool.wf()
        &&& self.render_buffer_pool.wf()
        &&& self.frame_buffer_pool.wf()
        &&& self.shader_pool.wf()
        &&& self.program_pool.wf()
        &&& self.active_buffer@.len() == BUFFER_TARGET_COUNT
        &&& self.active_texture@.len() == TEXTURE_TARGET_COUNT * TEXTURE_UNIT_COUNT
        &&& self.active_render_buffer@.len() == 1
        &&& self.active_frame_buffer@.len() == 1
        &&& self.active_program@.len() == 1
        &&& slots_wf(self.active_buffer@, self.buffer_pool)
        &&& slots_wf(self.active_texture@, self.texture_pool)
        &&& slots_wf(self.active_render_buffer@, self.render_buffer_pool)
        &&& slots_wf(self.active_frame_buffer@, self.frame_buffer_pool)
        &&& slots_wf(self.active_program@, self.program_pool)
        &&& GL_TEXTURE0 <= self.active_texture_unit.raw < GL_TEXTURE0 + TEXTURE_UNIT_COUNT
    }

    /// A fresh context: empty pools, all slots unbound, no error latched,
    /// texture unit zero selected.
    pub fn new() -> (ctx: Context)
        ensures
            ctx.wf(),
            ctx.error.raw == GL_NO_ERROR,
            ctx.buffer_pool.counter() == 0 && ctx.buffer_pool.contents() == Map::<
                GLuint,
                Buffer,
            >::empty(),
            ctx.texture_pool.counter() == 0 && ctx.texture_pool.contents() == Map::<
                GLuint,
                Texture,
            >::empty(),
            ctx.render_buffer_pool.counter() == 0 && ctx.render_buffer_pool.contents() == Map::<
                GLuint,
                RenderBuffer,
            >::empty(),
            ctx.frame_buffer_pool.counter() == 0 && ctx.frame_buffer_pool.contents() == Map::<
                GLuint,
                FrameBuffer,
            >::empty(),
            ctx.shader_pool.counter() == 0 && ctx.shader_pool.contents() == Map::<
                GLuint,
                Shader,
            >::empty(),
            ctx.program_pool.counter() == 0 && ctx.program_pool.contents() == Map::<
                GLuint,
                Program,
            >::empty(),
            forall|i: int|
                0 <= i < BUFFER_TARGET_COUNT ==> ctx.active_buffer@[i]
                    == ActiveObject::unbound_spec(),
            forall|i: int|
                0 <= i < TEXTURE_TARGET_COUNT * TEXTURE_UNIT_COUNT ==> ctx.active_texture@[i]
                    == ActiveObject::unbound_spec(),
            ctx.active_render_buffer@[0] == ActiveObject::unbound_spec(),
            ctx.active_frame_buffer@[0] == ActiveObject::unbound_spec(),
            ctx.active_program@[0] == ActiveObject::unbound_spec(),
            ctx.active_texture_unit.raw == GL_TEXTURE0,
    {
        Context {
            error: Error::default(),
            texture_pool: ObjectPool::new(),
            active_texture: unbound_slots(TEXTURE_TARGET_COUNT * TEXTURE_UNIT_COUNT),
            active_texture_unit: TextureUnit::default(),
            buffer_pool: ObjectPool::new(),
            active_buffer: unbound_slots(BUFFER_TARGET_COUNT),
            render_buffer_pool: ObjectPool::new(),
            active_render_buffer: unbound_slots(1),
            frame_buffer_pool: ObjectPool::new(),
            active_frame_buffer: unbound_slots(1),
            shader_pool: ObjectPool::new(),
            program_pool: ObjectPool::new(),
            active_program: unbound_slots(1),
            rasterization_state: RasterizationState::default(),
            pixel_storage_state: PixelStorageState::default(),
            viewport_state: ViewportTransformation::default(),
        }
    }
}

impl Default for Context {
    fn default() -> (ctx: Context)
        ensures
            ctx.wf(),
            ctx.error.raw == GL_NO_ERROR,
    {
        Context::new()
    }
}

/// A group of `count` unbound slots.
fn unbound_slots(count: usize) -> (slots: Vec<ActiveObject>)
    ensures
        slots@.len() == count,
        forall|i: int| 0 <= i < count ==> slots@[i] == ActiveObject::unbound_spec(),
{
    let mut slots: Vec<ActiveObject> = Vec::new();
    let mut i: usize = 0;
    while i < count
        invariant
            i <= count,
            slots@.len() == i,
            forall|j: int| 0 <= j < i ==> slots@[j] == ActiveObject::unbound_spec(),
        decreases count - i,
    {
        slots.push(ActiveObject::unbound());
        i += 1;
    }
    slots
}

/// A mutable borrow of one slot of a group.
pub(crate) fn slot_mut(slots: &mut Vec<ActiveObject>, i: usize) -> (slot: &mut ActiveObject)
    requires
        i < old(slots).len(),
    ensures
        *slot == old(slots)@[i as int],
        final(slots)@ == old(slots)@.update(i as int, *final(slot)),
{
    &mut slots[i]
}

/// The slot a buffer target selects.
pub open spec fn buffer_target_index(target: GLenum) -> int {
    if target == GL_ELEMENT_ARRAY_BUFFER {
        1
    } else {
        0
    }
}

/// Map a buffer target onto its slot; an unknown target falls back to the
/// first slot, as the callers have already rejected it.
pub fn buffer_target_to_index(target: GLenum) -> (index: usize)
    ensures
        index == buffer_target_index(target),
        index < BUFFER_TARGET_COUNT,
{
    if target == GL_ARRAY_BUFFER {
        0
    } else if target == GL_ELEMENT_ARRAY_BUFFER {
        1
    } else {
        0
    }
}

/// The target row a texture target selects among the texture slots.
pub open spec fn texture_target_index(target: GLenum) -> int {
    if target == GL_TEXTURE_CUBE_MAP {
        1
    } else {
        0
    }
}

/// Map a texture target onto its row; an unknown target falls back to the
/// first row, as the callers have already rejected it.
pub fn texture_target_to_index(target: GLenum) -> (index: usize)
    ensures
        index == texture_target_index(target),
        index < TEXTURE_TARGET_COUNT,
{
    if target == GL_TEXTURE_2D {
        0
    } else if target == GL_TEXTURE_CUBE_MAP {
        1
    } else {
        0
    }
}

/// Map a texture unit enumerant onto its index.
pub fn texture_unit_to_index(texture: GLenum) -> (index: usize)
    requires
        GL_TEXTURE0 <= texture < GL_TEXTURE0 + TEXTURE_UNIT_COUNT,
    ensures
        index == texture - GL_TEXTURE0,
        index < TEXTURE_UNIT_COUNT,
{
    (texture - GL_TEXTURE0) as usize
}

/// The texture slot a (target, unit) pair selects.
pub open spec fn texture_slot_index(target: GLenum, unit: GLenum) -> int {
    texture_target_index(target) * TEXTURE_UNIT_COUNT + (unit - GL_TEXTURE0)
}

/// The buffer slot snapshot for `target`.
pub fn get_active_buffer(ctx: &Context, target: GLenum) -> (slot: ActiveObject)
    requires
        ctx.wf(),
    ensures
        slot == ctx.active_buffer@[buffer_target_index(target)],
{
    ctx.active_buffer[buffer_target_to_index(target)]
}

/// The texture slot snapshot for `target` and the selected texture unit.
pub fn get_active_texture(ctx: &Context, target: GLenum) -> (slot: ActiveObject)
    requires
        ctx.wf(),
    ensures
        slot == ctx.active_texture@[texture_slot_index(target, ctx.active_texture_unit.raw)],
{
    let row = texture_target_to_index(target);
    let unit = texture_unit_to_index(ctx.active_texture_unit.raw);
    ctx.active_texture[row * TEXTURE_UNIT_COUNT + unit]
}

/// Everything in the context but the error register is untouched.
pub open spec fn leaves_non_error_state(pre: Context, post: Context) -> bool {
    &&& post.texture_pool == pre.texture_pool
    &&& post.active_texture@ == pre.active_texture@
    &&& post.active_texture_unit == pre.active_texture_unit
    &&& post.buffer_pool == pre.buffer_pool
    &&& post.active_buffer@ == pre.active_buffer@
    &&& post.render_buffer_pool == pre.render_buffer_pool
    &&& post.active_render_buffer@ == pre.active_render_buffer@
    &&& post.frame_buffer_pool == pre.frame_buffer_pool
    &&& post.active_frame_buffer@ == pre.active_frame_buffer@
    &&& post.shader_pool == pre.shader_pool
    &&& post.program_pool == pre.program_pool
    &&& post.active_program@ == pre.active_program@
    &&& post.rasterization_state == pre.rasterization_state
    &&& post.pixel_storage_state == pre.pixel_storage_state
    &&& post.viewport_state == pre.viewport_state
}

/// A slot group stays well formed when one slot is rebound to a handle the
/// new pool holds (or to the reserved handle `0`) and the pool loses no
/// instance.
pub proof fn lemma_slots_wf_after_bind<T>(
    slots0: Seq<ActiveObject>,
    slots1: Seq<ActiveObject>,
    pool0: ObjectPool<T>,
    pool1: ObjectPool<T>,
    i: int,
    object_name: GLuint,
)
    requires
        slots_wf(slots0, pool0),
        0 <= i < slots0.len(),
        slots1 == slots0.update(i, (ActiveObject { name: object_name })),
        object_name == 0 || pool1.has(object_name),
        forall|h: GLuint| pool0.has(h) ==> pool1.has(h),
    ensures
        slots_wf(slots1, pool1),
{
    assert forall|j: int| 0 <= j < slots1.len() implies ((#[trigger] slots1[j]).name == 0
        || pool1.has(slots1[j].name)) by {
        if j != i {
            assert(slots1[j] == slots0[j]);
        }
    }
}

/// A slot group stays well formed when the pool loses no instance.
pub proof fn lemma_slots_wf_grow<T>(
    slots: Seq<ActiveObject>,
    pool0: ObjectPool<T>,
    pool1: ObjectPool<T>,
)
    requires
        slots_wf(slots, pool0),
        forall|h: GLuint| pool0.has(h) ==> pool1.has(h),
    ensures
        slots_wf(slots, pool1),
{
    assert forall|j: int| 0 <= j < slots.len() implies ((#[trigger] slots[j]).name == 0
        || pool1.has(slots[j].name)) by {
        assert(slots[j].name == 0 || pool0.has(slots[j].name));
    }
}

} // verus!
