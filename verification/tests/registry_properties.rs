use gles_native::buffer::glGenBuffers;
use gles_native::buffer::Buffer;
use gles_native::context::Context;
use gles_native::gl_sys::GL_INVALID_ENUM;
use gles_native::gl_sys::GL_INVALID_VALUE;
use gles_native::gl_sys::GL_NO_ERROR;
use gles_native::object_pool::ObjectPool;
use gles_native::shader::Shader;
use gles_native::utilities::glGetError;
use gles_native::utilities::record_error;
use gles_native::utilities::Error;

#[test]
fn allocate_returns_strictly_increasing_nonzero_handles() {
    let mut pool: ObjectPool<Shader> = ObjectPool::new();
    let first = pool.allocate();
    let second = pool.allocate();
    let third = pool.allocate();
    assert_eq!(1, first);
    assert_eq!(2, second);
    assert_eq!(3, third);
    assert!(0 < first && first < second && second < third);
}

#[test]
fn allocate_never_reuses_a_freed_handle() {
    let mut pool: ObjectPool<Shader> = ObjectPool::new();
    let first = pool.allocate();
    pool.get_object_mut(first);
    assert!(pool.deallocate(first));
    let second = pool.allocate();
    assert_ne!(first, second);
    assert_eq!(2, second);
}

#[test]
fn allocate_clears_no_way_for_lazy_handles() {
    // Binding an as-yet-unknown handle raises the counter, so a later
    // allocate cannot collide with it.
    let mut pool: ObjectPool<Buffer> = ObjectPool::new();
    pool.get_object_mut(7);
    let next = pool.allocate();
    assert_eq!(8, next);
}

#[test]
fn handle_exists_only_between_creation_and_deallocation() {
    let mut pool: ObjectPool<Shader> = ObjectPool::new();
    assert!(!pool.is_object_exists(1));
    let handle = pool.allocate();
    // allocate issues the handle but creates no instance
    assert!(!pool.is_object_exists(handle));
    pool.get_object_mut(handle);
    assert!(pool.is_object_exists(handle));
    assert!(pool.deallocate(handle));
    assert!(!pool.is_object_exists(handle));
    assert!(!pool.deallocate(handle));
}

#[test]
fn gen_buffers_handles_are_strictly_increasing() {
    let mut ctx = Context::new();
    let batch_1 = glGenBuffers(&mut ctx, 3, true);
    let batch_2 = glGenBuffers(&mut ctx, 2, true);
    assert_eq!(vec![1, 2, 3], batch_1);
    assert_eq!(vec![4, 5], batch_2);
    assert_eq!(GL_NO_ERROR, glGetError(&mut ctx));
}

#[test]
fn gen_buffers_rejects_negative_count() {
    let mut ctx = Context::new();
    let buffers = glGenBuffers(&mut ctx, -1, true);
    assert!(buffers.is_empty());
    assert_eq!(GL_INVALID_VALUE, glGetError(&mut ctx));
}

#[test]
fn gen_buffers_rejects_absent_destination() {
    let mut ctx = Context::new();
    let buffers = glGenBuffers(&mut ctx, 2, false);
    assert!(buffers.is_empty());
    assert_eq!(GL_INVALID_VALUE, glGetError(&mut ctx));
}

#[test]
fn error_latch_keeps_the_first_error() {
    let mut ctx = Context::new();
    record_error(&mut ctx.error, GL_INVALID_ENUM);
    record_error(&mut ctx.error, GL_INVALID_VALUE);
    assert_eq!(GL_INVALID_ENUM, glGetError(&mut ctx));
    assert_eq!(GL_NO_ERROR, glGetError(&mut ctx));
}

#[test]
fn error_latch_can_latch_again_after_a_query() {
    let mut ctx = Context::new();
    record_error(&mut ctx.error, GL_INVALID_VALUE);
    assert_eq!(GL_INVALID_VALUE, glGetError(&mut ctx));
    record_error(&mut ctx.error, GL_INVALID_ENUM);
    assert_eq!(GL_INVALID_ENUM, glGetError(&mut ctx));
}

#[test]
fn fresh_error_register_holds_no_error() {
    let latch = Error::default();
    assert_eq!(GL_NO_ERROR, latch.raw);
}
