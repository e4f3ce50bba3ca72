use gles_native::active_object::ActiveObject;
use gles_native::buffer::glBindBuffer;
use gles_native::buffer::glBufferData;
use gles_native::buffer::glGenBuffers;
use gles_native::context::object_upload_data;
use gles_native::context::Context;
use gles_native::context::UploadHandler;
use gles_native::context::UploadOutcome;
use gles_native::gl_sys::GL_ARRAY_BUFFER;
use gles_native::gl_sys::GL_DYNAMIC_DRAW;
use gles_native::gl_sys::GL_INVALID_ENUM;
use gles_native::gl_sys::GL_INVALID_OPERATION;
use gles_native::gl_sys::GL_INVALID_VALUE;
use gles_native::gl_sys::GL_NO_ERROR;
use gles_native::gl_sys::GL_OUT_OF_MEMORY;
use gles_native::gl_sys::GL_RGBA;
use gles_native::gl_sys::GL_STATIC_DRAW;
use gles_native::gl_sys::GL_TEXTURE_2D;
use gles_native::gl_sys::GL_UNSIGNED_BYTE;
use gles_native::object_pool::ObjectPool;
use gles_native::shader::Shader;
use gles_native::texture::glTexImage2D;
use gles_native::utilities::glGetError;
use gles_native::utilities::record_error;
use gles_native::utilities::Error;

#[test]
fn upload_on_unbound_slot_records_invalid_operation_and_touches_nothing() {
    let mut ctx = Context::new();
    glBufferData(&mut ctx, GL_ARRAY_BUFFER, 16, None, GL_STATIC_DRAW);
    assert_eq!(GL_INVALID_OPERATION, glGetError(&mut ctx));
    // neither prepare nor materialize ran: the pool holds nothing
    assert!(ctx.buffer_pool.get_objects_mut().is_empty());
}

#[test]
fn upload_records_usage_on_the_bound_buffer() {
    let mut ctx = Context::new();
    let buffers = glGenBuffers(&mut ctx, 1, true);
    glBindBuffer(&mut ctx, GL_ARRAY_BUFFER, buffers[0]);
    glBufferData(&mut ctx, GL_ARRAY_BUFFER, 64, None, GL_DYNAMIC_DRAW);
    assert_eq!(GL_NO_ERROR, glGetError(&mut ctx));
    assert_eq!(
        GL_DYNAMIC_DRAW,
        ctx.buffer_pool.get_object_mut(buffers[0]).usage
    );
}

#[test]
fn upload_rejects_bad_parameters_without_consulting_the_slot() {
    let mut ctx = Context::new();
    // invalid usage enum: the enum error wins even though nothing is bound
    glBufferData(&mut ctx, GL_ARRAY_BUFFER, 16, None, GL_TEXTURE_2D);
    assert_eq!(GL_INVALID_ENUM, glGetError(&mut ctx));
    // negative size with valid enums
    glBufferData(&mut ctx, GL_ARRAY_BUFFER, -4, None, GL_STATIC_DRAW);
    assert_eq!(GL_INVALID_VALUE, glGetError(&mut ctx));
    assert!(ctx.buffer_pool.get_objects_mut().is_empty());
}

#[test]
fn tex_image_on_unbound_unit_records_invalid_operation() {
    let mut ctx = Context::new();
    glTexImage2D(
        &mut ctx,
        GL_TEXTURE_2D,
        0,
        GL_RGBA,
        16,
        16,
        0,
        GL_RGBA,
        GL_UNSIGNED_BYTE,
        None,
    );
    assert_eq!(GL_INVALID_OPERATION, glGetError(&mut ctx));
    assert!(ctx.texture_pool.get_objects_mut().is_empty());
}

/// An upload handler whose backend refuses to materialize: it observes
/// whether the pipeline ran its finalize hook.
#[derive(Clone, Copy)]
struct FailingMaterializeHandler {
    finalize_ran: bool,
}

impl UploadHandler<Shader> for FailingMaterializeHandler {
    fn params_valid(self) -> bool {
        true
    }

    fn invalid_params_error(self) -> u32 {
        GL_INVALID_VALUE
    }

    fn check_params(&self, _latch: &mut Error) -> bool {
        true
    }

    fn prepared(self, object: Shader) -> Shader {
        object
    }

    fn proceeds(self, _object: Shader) -> bool {
        true
    }

    fn prepare(&self, _object: &mut Shader) -> bool {
        true
    }

    fn can_materialize(self, _object: Shader) -> bool {
        false
    }

    fn materialized(self, object: Shader) -> Shader {
        object
    }

    fn materialize(&self, _object: &mut Shader) -> bool {
        false
    }

    fn finalized(self) -> Self {
        self
    }

    fn finalize(&mut self) {
        self.finalize_ran = true;
    }
}

#[test]
fn failed_materialize_records_out_of_memory_and_skips_finalize() {
    let mut pool: ObjectPool<Shader> = ObjectPool::new();
    let handle = pool.allocate();
    pool.get_object_mut(handle);
    let slot = ActiveObject { name: handle };
    let mut latch = Error::default();
    let mut handler = FailingMaterializeHandler { finalize_ran: false };

    let outcome = object_upload_data(&mut handler, slot, &mut pool, &mut latch);
    assert_eq!(UploadOutcome::OutOfMemory, outcome);
    assert_eq!(GL_OUT_OF_MEMORY, latch.raw);
    assert!(!handler.finalize_ran);
    // the handle itself stays valid
    assert!(pool.is_object_exists(handle));
}

/// An upload handler that counts how often the pipeline finalized.
#[derive(Clone, Copy)]
struct CountingHandler {
    finalizes: u32,
}

impl UploadHandler<Shader> for CountingHandler {
    fn params_valid(self) -> bool {
        true
    }

    fn invalid_params_error(self) -> u32 {
        GL_INVALID_VALUE
    }

    fn check_params(&self, _latch: &mut Error) -> bool {
        true
    }

    fn prepared(self, object: Shader) -> Shader {
        object
    }

    fn proceeds(self, _object: Shader) -> bool {
        true
    }

    fn prepare(&self, _object: &mut Shader) -> bool {
        true
    }

    fn can_materialize(self, _object: Shader) -> bool {
        true
    }

    fn materialized(self, object: Shader) -> Shader {
        object
    }

    fn materialize(&self, _object: &mut Shader) -> bool {
        true
    }

    fn finalized(self) -> Self {
        self
    }

    fn finalize(&mut self) {
        self.finalizes += 1;
    }
}

#[test]
fn unbound_slot_runs_neither_prepare_nor_materialize() {
    let mut pool: ObjectPool<Shader> = ObjectPool::new();
    let mut latch = Error::default();
    let mut handler = CountingHandler { finalizes: 0 };

    let outcome = object_upload_data(
        &mut handler,
        ActiveObject { name: 0 },
        &mut pool,
        &mut latch,
    );
    assert_eq!(UploadOutcome::NoObjectBound, outcome);
    assert_eq!(GL_INVALID_OPERATION, latch.raw);
    assert_eq!(0, handler.finalizes);
}

/// An upload handler whose prepare step declines to proceed.
#[derive(Clone, Copy)]
struct DecliningPrepareHandler {
    finalize_ran: bool,
}

impl UploadHandler<Shader> for DecliningPrepareHandler {
    fn params_valid(self) -> bool {
        true
    }

    fn invalid_params_error(self) -> u32 {
        GL_INVALID_VALUE
    }

    fn check_params(&self, _latch: &mut Error) -> bool {
        true
    }

    fn prepared(self, object: Shader) -> Shader {
        object
    }

    fn proceeds(self, _object: Shader) -> bool {
        false
    }

    fn prepare(&self, _object: &mut Shader) -> bool {
        false
    }

    fn can_materialize(self, _object: Shader) -> bool {
        true
    }

    fn materialized(self, object: Shader) -> Shader {
        object
    }

    fn materialize(&self, _object: &mut Shader) -> bool {
        true
    }

    fn finalized(self) -> Self {
        self
    }

    fn finalize(&mut self) {
        self.finalize_ran = true;
    }
}

#[test]
fn declined_prepare_aborts_silently() {
    let mut pool: ObjectPool<Shader> = ObjectPool::new();
    let handle = pool.allocate();
    pool.get_object_mut(handle);
    let mut latch = Error::default();
    let mut handler = DecliningPrepareHandler { finalize_ran: false };

    let outcome = object_upload_data(
        &mut handler,
        ActiveObject { name: handle },
        &mut pool,
        &mut latch,
    );
    assert_eq!(UploadOutcome::Aborted, outcome);
    assert_eq!(GL_NO_ERROR, latch.raw);
    assert!(!handler.finalize_ran);
}

#[test]
fn out_of_memory_does_not_overwrite_an_earlier_error() {
    let mut pool: ObjectPool<Shader> = ObjectPool::new();
    let handle = pool.allocate();
    pool.get_object_mut(handle);
    let mut latch = Error::default();
    record_error(&mut latch, GL_INVALID_ENUM);
    let mut handler = FailingMaterializeHandler { finalize_ran: false };

    let outcome = object_upload_data(
        &mut handler,
        ActiveObject { name: handle },
        &mut pool,
        &mut latch,
    );
    assert_eq!(UploadOutcome::OutOfMemory, outcome);
    assert_eq!(GL_INVALID_ENUM, latch.raw);
}
