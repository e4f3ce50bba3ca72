use gles_native::buffer::glBindBuffer;
use gles_native::buffer::glDeleteBuffers;
use gles_native::buffer::glGenBuffers;
use gles_native::buffer::glIsBuffer;
use gles_native::context::get_active_buffer;
use gles_native::context::get_active_texture;
use gles_native::context::Context;
use gles_native::frame_buffer::glBindFramebuffer;
use gles_native::frame_buffer::glCheckFramebufferStatus;
use gles_native::frame_buffer::glIsFramebuffer;
use gles_native::gl_sys::GL_ARRAY_BUFFER;
use gles_native::gl_sys::GL_ELEMENT_ARRAY_BUFFER;
use gles_native::gl_sys::GL_FALSE;
use gles_native::gl_sys::GL_FRAMEBUFFER;
use gles_native::gl_sys::GL_FRAMEBUFFER_COMPLETE;
use gles_native::gl_sys::GL_INVALID_ENUM;
use gles_native::gl_sys::GL_INVALID_OPERATION;
use gles_native::gl_sys::GL_INVALID_VALUE;
use gles_native::gl_sys::GL_NO_ERROR;
use gles_native::gl_sys::GL_RENDERBUFFER;
use gles_native::gl_sys::GL_TEXTURE_2D;
use gles_native::gl_sys::GL_TEXTURE_CUBE_MAP;
use gles_native::gl_sys::GL_TRUE;
use gles_native::gl_sys::GL_ZERO;
use gles_native::render_buffer::glBindRenderbuffer;
use gles_native::texture::glBindTexture;
use gles_native::texture::glDeleteTextures;
use gles_native::texture::glGenTextures;
use gles_native::texture::glIsTexture;
use gles_native::utilities::glGetError;

#[test]
fn binding_zero_selects_default_and_allocates_nothing() {
    let mut ctx = Context::new();
    glBindBuffer(&mut ctx, GL_ARRAY_BUFFER, 0);
    assert_eq!(0, get_active_buffer(&ctx, GL_ARRAY_BUFFER).get());
    assert_eq!(GL_NO_ERROR, glGetError(&mut ctx));
    assert!(ctx.buffer_pool.get_objects_mut().is_empty());
    assert!(!ctx.buffer_pool.is_object_exists(0));
}

#[test]
fn binding_an_unknown_handle_creates_it_with_the_target_recorded() {
    let mut ctx = Context::new();
    assert_eq!(GL_FALSE, glIsBuffer(&ctx, 5));
    glBindBuffer(&mut ctx, GL_ARRAY_BUFFER, 5);
    assert_eq!(GL_TRUE, glIsBuffer(&ctx, 5));
    assert_eq!(GL_NO_ERROR, glGetError(&mut ctx));
    assert_eq!(GL_ARRAY_BUFFER, ctx.buffer_pool.get_object_mut(5).target);
    // the counter was raised past the lazily created handle
    let next = glGenBuffers(&mut ctx, 1, true);
    assert_eq!(vec![6], next);
}

#[test]
fn buffer_targets_have_independent_slots() {
    let mut ctx = Context::new();
    glBindBuffer(&mut ctx, GL_ARRAY_BUFFER, 1);
    glBindBuffer(&mut ctx, GL_ELEMENT_ARRAY_BUFFER, 2);
    assert_eq!(1, get_active_buffer(&ctx, GL_ARRAY_BUFFER).name);
    assert_eq!(2, get_active_buffer(&ctx, GL_ELEMENT_ARRAY_BUFFER).name);
    // a buffer accepts rebinding to the other target
    glBindBuffer(&mut ctx, GL_ELEMENT_ARRAY_BUFFER, 1);
    assert_eq!(GL_NO_ERROR, glGetError(&mut ctx));
    assert_eq!(1, get_active_buffer(&ctx, GL_ELEMENT_ARRAY_BUFFER).name);
}

#[test]
fn binding_an_invalid_target_records_invalid_enum() {
    let mut ctx = Context::new();
    glBindBuffer(&mut ctx, GL_TEXTURE_2D, 1);
    assert_eq!(GL_INVALID_ENUM, glGetError(&mut ctx));
    assert!(ctx.buffer_pool.get_objects_mut().is_empty());
}

#[test]
fn rebinding_a_texture_to_another_target_records_invalid_operation() {
    let mut ctx = Context::new();
    let textures = glGenTextures(&mut ctx, 1, true);
    glBindTexture(&mut ctx, GL_TEXTURE_2D, textures[0]);
    assert_eq!(GL_NO_ERROR, glGetError(&mut ctx));
    assert_eq!(textures[0], get_active_texture(&ctx, GL_TEXTURE_2D).name);

    glBindTexture(&mut ctx, GL_TEXTURE_CUBE_MAP, textures[0]);
    assert_eq!(GL_INVALID_OPERATION, glGetError(&mut ctx));
    // neither slot changed: the 2D binding stands, the cube-map slot is empty
    assert_eq!(textures[0], get_active_texture(&ctx, GL_TEXTURE_2D).name);
    assert_eq!(0, get_active_texture(&ctx, GL_TEXTURE_CUBE_MAP).name);
    assert_eq!(
        GL_TEXTURE_2D,
        ctx.texture_pool.get_object_mut(textures[0]).target
    );
}

#[test]
fn rebinding_a_texture_to_the_same_target_is_idempotent() {
    let mut ctx = Context::new();
    let textures = glGenTextures(&mut ctx, 1, true);
    glBindTexture(&mut ctx, GL_TEXTURE_2D, textures[0]);
    glBindTexture(&mut ctx, GL_TEXTURE_2D, textures[0]);
    assert_eq!(GL_NO_ERROR, glGetError(&mut ctx));
    assert_eq!(textures[0], get_active_texture(&ctx, GL_TEXTURE_2D).name);
}

#[test]
fn first_renderbuffer_bind_records_target_and_creates_backing_texture() {
    let mut ctx = Context::new();
    glBindRenderbuffer(&mut ctx, GL_RENDERBUFFER, 3);
    assert_eq!(GL_NO_ERROR, glGetError(&mut ctx));
    let object = ctx.render_buffer_pool.get_object_mut(3);
    assert_eq!(GL_RENDERBUFFER, object.target);
    assert!(object.texture.is_some());
}

#[test]
fn renderbuffer_bind_rejects_other_targets() {
    let mut ctx = Context::new();
    glBindRenderbuffer(&mut ctx, GL_FRAMEBUFFER, 3);
    assert_eq!(GL_INVALID_ENUM, glGetError(&mut ctx));
    assert!(ctx.render_buffer_pool.get_objects_mut().is_empty());
}

#[test]
fn framebuffer_bind_and_status_check() {
    let mut ctx = Context::new();
    // the default framebuffer always checks out complete
    assert_eq!(
        GL_FRAMEBUFFER_COMPLETE,
        glCheckFramebufferStatus(&mut ctx, GL_FRAMEBUFFER)
    );
    glBindFramebuffer(&mut ctx, GL_FRAMEBUFFER, 2);
    assert_eq!(GL_TRUE, glIsFramebuffer(&ctx, 2));
    assert_eq!(
        GL_FRAMEBUFFER_COMPLETE,
        glCheckFramebufferStatus(&mut ctx, GL_FRAMEBUFFER)
    );
    // a bad target yields zero and records the enum error
    assert_eq!(GL_ZERO, glCheckFramebufferStatus(&mut ctx, GL_RENDERBUFFER));
    assert_eq!(GL_INVALID_ENUM, glGetError(&mut ctx));
}

#[test]
fn deleting_a_bound_handle_clears_its_slot() {
    let mut ctx = Context::new();
    let buffers = glGenBuffers(&mut ctx, 1, true);
    glBindBuffer(&mut ctx, GL_ARRAY_BUFFER, buffers[0]);
    assert_eq!(buffers[0], get_active_buffer(&ctx, GL_ARRAY_BUFFER).name);

    glDeleteBuffers(&mut ctx, 1, Some(&buffers));
    assert_eq!(0, get_active_buffer(&ctx, GL_ARRAY_BUFFER).name);
    assert_eq!(GL_FALSE, glIsBuffer(&ctx, buffers[0]));
    assert_eq!(GL_NO_ERROR, glGetError(&mut ctx));
}

#[test]
fn deleting_an_unknown_handle_is_a_silent_no_op() {
    let mut ctx = Context::new();
    let names = vec![41, 0];
    glDeleteBuffers(&mut ctx, 2, Some(&names));
    assert_eq!(GL_NO_ERROR, glGetError(&mut ctx));
}

#[test]
fn deleting_with_negative_count_records_invalid_value() {
    let mut ctx = Context::new();
    let names = vec![1];
    glDeleteBuffers(&mut ctx, -1, Some(&names));
    assert_eq!(GL_INVALID_VALUE, glGetError(&mut ctx));
}

#[test]
fn deleting_with_absent_list_records_invalid_value() {
    let mut ctx = Context::new();
    glDeleteBuffers(&mut ctx, 1, None);
    assert_eq!(GL_INVALID_VALUE, glGetError(&mut ctx));
}

#[test]
fn deleting_only_the_named_texture_keeps_other_bindings() {
    let mut ctx = Context::new();
    let textures = glGenTextures(&mut ctx, 2, true);
    glBindTexture(&mut ctx, GL_TEXTURE_2D, textures[0]);
    glBindTexture(&mut ctx, GL_TEXTURE_CUBE_MAP, textures[1]);

    let doomed = vec![textures[1]];
    glDeleteTextures(&mut ctx, 1, Some(&doomed));
    assert_eq!(textures[0], get_active_texture(&ctx, GL_TEXTURE_2D).name);
    assert_eq!(0, get_active_texture(&ctx, GL_TEXTURE_CUBE_MAP).name);
    assert_eq!(GL_TRUE, glIsTexture(&ctx, textures[0]));
    assert_eq!(GL_FALSE, glIsTexture(&ctx, textures[1]));
    assert_eq!(GL_NO_ERROR, glGetError(&mut ctx));
}

#[test]
fn bind_lifecycle_scenario() {
    // allocate handle 1; bind succeeds and reports (1, target); binding the
    // same pair again is idempotent; a different target fails with
    // InvalidOperation leaving the slot; deleting clears the slot.
    let mut ctx = Context::new();
    let textures = glGenTextures(&mut ctx, 1, true);
    assert_eq!(vec![1], textures);

    glBindTexture(&mut ctx, GL_TEXTURE_2D, 1);
    assert_eq!(GL_NO_ERROR, glGetError(&mut ctx));
    assert_eq!(1, get_active_texture(&ctx, GL_TEXTURE_2D).name);
    assert_eq!(GL_TEXTURE_2D, ctx.texture_pool.get_object_mut(1).target);

    glBindTexture(&mut ctx, GL_TEXTURE_2D, 1);
    assert_eq!(GL_NO_ERROR, glGetError(&mut ctx));
    assert_eq!(1, get_active_texture(&ctx, GL_TEXTURE_2D).name);

    glBindTexture(&mut ctx, GL_TEXTURE_CUBE_MAP, 1);
    assert_eq!(GL_INVALID_OPERATION, glGetError(&mut ctx));
    assert_eq!(1, get_active_texture(&ctx, GL_TEXTURE_2D).name);
    assert_eq!(GL_TEXTURE_2D, ctx.texture_pool.get_object_mut(1).target);

    let names = vec![1];
    glDeleteTextures(&mut ctx, 1, Some(&names));
    assert_eq!(0, get_active_texture(&ctx, GL_TEXTURE_2D).name);
    assert_eq!(GL_FALSE, glIsTexture(&ctx, 1));
    assert_eq!(GL_NO_ERROR, glGetError(&mut ctx));
}
