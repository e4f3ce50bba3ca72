//! Core state tracking for an OpenGL (ES) style graphics front end.
//!
//! Client code names every resource (buffer, texture, renderbuffer,
//! framebuffer, shader, program) by a small non-zero integer handle. This
//! crate owns the handle tables, the "currently bound" slots, the sticky
//! error register, and the three generic state-transition pipelines (bind,
//! upload, delete) that every concrete resource kind is wired into. The
//! hardware backend is consumed only as a boolean-returning "materialize"
//! step; argument marshalling for the C calling convention and the
//! process-wide lock-guarded hub live outside this crate.

pub mod active_object;
pub mod buffer;
pub mod context;
pub mod frame_buffer;
pub mod gl_sys;
pub mod hal_registry;
pub mod object_pool;
pub mod pixel_operations;
pub mod program;
pub mod rasterization_state;
pub mod render_buffer;
pub mod rendering;
pub mod shader;
pub mod texture;
pub mod utilities;
pub mod viewport_transformation;
