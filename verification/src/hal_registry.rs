//! The crate's view of the hardware-abstraction backend.
//!
//! The backend is consumed through one capability per resource kind:
//! "attempt to materialize backend storage, report success or failure". The
//! marker types below stand for the backend's opaque storage objects; a
//! resource instance holds one to say that storage is materialized. The
//! functions are the materialize and release entry points; backend work
//! itself is out of scope here, so they only report the outcome.

use vstd::prelude::*;

verus! {

/// Backend device memory bound to a resource instance.
#[derive(Clone, Copy, Debug, PartialEq, Eq, Structural)]
pub struct HalMemory {}

/// A backend image.
#[derive(Clone, Copy, Debug, PartialEq, Eq, Structural)]
pub struct HalImage {}

/// A backend image view.
#[derive(Clone, Copy, Debug, PartialEq, Eq, Structural)]
pub struct HalImageView {}

/// A backend sampler.
#[derive(Clone, Copy, Debug, PartialEq, Eq, Structural)]
pub struct HalSampler {}

/// A backend buffer.
#[derive(Clone, Copy, Debug, PartialEq, Eq, Structural)]
pub struct HalBuffer {}

/// Materialize backend storage for a buffer.
pub fn hal_buffer_allocate() -> (ok: bool)
    ensures
        ok,
{
    true
}

/// Release a backend sampler.
pub fn hal_sampler_release() {
}

/// Release a backend image view.
pub fn hal_image_view_release() {
}

/// Release a backend image.
pub fn hal_image_release() {
}

/// Release backend memory.
pub fn hal_memory_release() {
}

/// Materialize backend memory.
pub fn hal_memory_allocate() -> (ok: bool)
    ensures
        ok,
{
    true
}

/// Create a backend image.
pub fn hal_image_create() -> (ok: bool)
    ensures
        ok,
{
    true
}

/// Create a backend image view.
pub fn hal_image_view_create() -> (ok: bool)
    ensures
        ok,
{
    true
}

/// Create backend memory.
pub fn hal_memory_create() -> (ok: bool)
    ensures
        ok,
{
    true
}

/// Materialize backend storage for a texture: release whatever the texture
/// held, then create the image, its memory, and its view, giving up at the
/// first failing step.
pub fn hal_texture_create() -> (ok: bool)
    ensures
        ok,
{
    hal_sampler_release();
    hal_image_view_release();
    hal_image_release();
    hal_memory_release();
    if !hal_image_create() {
        return false;
    }
    if !hal_memory_allocate() {
        hal_image_release();
        return false;
    }
    if !hal_image_view_create() {
        return false;
    }
    true
}

} // verus!
