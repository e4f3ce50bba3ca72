use gles_native::buffer::glBindBuffer;
use gles_native::buffer::glBufferData;
use gles_native::buffer::glGenBuffers;
use gles_native::context::get_active_buffer;
use gles_native::context::get_active_texture;
use gles_native::context::Context;
use gles_native::gl_sys::GLsizei;
use gles_native::gl_sys::GL_ARRAY_BUFFER;
use gles_native::gl_sys::GL_INVALID_FRAMEBUFFER_OPERATION;
use gles_native::gl_sys::GL_NO_ERROR;
use gles_native::gl_sys::GL_RGBA;
use gles_native::gl_sys::GL_STATIC_DRAW;
use gles_native::gl_sys::GL_TEXTURE;
use gles_native::gl_sys::GL_TEXTURE_2D;
use gles_native::gl_sys::GL_UNSIGNED_BYTE;
use gles_native::texture::glBindTexture;
use gles_native::texture::glGenTextures;
use gles_native::texture::glTexImage2D;
use gles_native::utilities::glGetError;
use gles_native::utilities::record_error;

#[test]
fn buffer_test_all_in_one() {
    let mut ctx = Context::new();

    let count = 1;
    let buffers = glGenBuffers(&mut ctx, count as GLsizei, true);
    assert_eq!(count, buffers.len());
    glBindBuffer(&mut ctx, GL_ARRAY_BUFFER, buffers[0]);
    glBindBuffer(&mut ctx, GL_ARRAY_BUFFER, 0);
    glBindBuffer(&mut ctx, GL_ARRAY_BUFFER, buffers[0]);
    glBindBuffer(&mut ctx, GL_ARRAY_BUFFER, 0);

    let count_2 = 2;
    let buffers_2 = glGenBuffers(&mut ctx, count_2 as GLsizei, true);
    assert_eq!(count_2, buffers_2.len());
    glBindBuffer(&mut ctx, GL_ARRAY_BUFFER, buffers_2[1]);

    glBindBuffer(&mut ctx, GL_ARRAY_BUFFER, buffers[0]);
    glBindBuffer(&mut ctx, GL_ARRAY_BUFFER, 0);
    glBindBuffer(&mut ctx, GL_ARRAY_BUFFER, 0);
    glBindBuffer(&mut ctx, GL_ARRAY_BUFFER, 0);
    glBindBuffer(&mut ctx, GL_ARRAY_BUFFER, 0);

    glBindBuffer(&mut ctx, GL_ARRAY_BUFFER, buffers_2[0]);

    {
        let guard = get_active_buffer(&ctx, GL_ARRAY_BUFFER);
        let buffer_object = ctx.buffer_pool.get_object_mut(guard.name);
        println!("test block 2-> {:?}", buffer_object);
    }

    glBindBuffer(&mut ctx, GL_ARRAY_BUFFER, buffers[0]);
    glBufferData(&mut ctx, GL_ARRAY_BUFFER, 100, None, GL_STATIC_DRAW);
}

#[test]
fn frame_buffer_test_all_in_one() {
    let ctx = Context::new();
    assert_eq!(GL_NO_ERROR, ctx.error.raw);
}

#[test]
fn render_buffer_test_all_in_one() {
    let ctx = Context::new();
    assert_eq!(GL_NO_ERROR, ctx.error.raw);
}

#[test]
fn texture_test_all_in_one() {
    let mut ctx = Context::new();

    let count = 1;
    let buffers = glGenTextures(&mut ctx, count as GLsizei, true);
    assert_eq!(1, buffers.len());

    glBindTexture(&mut ctx, GL_TEXTURE_2D, buffers[0]);

    assert_eq!(GL_NO_ERROR, glGetError(&mut ctx));

    record_error(&mut ctx.error, GL_INVALID_FRAMEBUFFER_OPERATION);
    println!(
        "GL_INVALID_FRAMEBUFFER_OPERATION = {}",
        GL_INVALID_FRAMEBUFFER_OPERATION
    );
    println!("glGetError = {}", glGetError(&mut ctx));

    glBindTexture(&mut ctx, GL_TEXTURE, buffers[0]);
    assert_ne!(GL_NO_ERROR, glGetError(&mut ctx));

    glBindTexture(&mut ctx, GL_TEXTURE_2D, buffers[0]);
    {
        println!("test block 1->");
        let texture = buffers[0];
        let texture_object = ctx.texture_pool.get_object_mut(texture);
        println!("test block 1-> {:?}", texture_object);
    }

    println!(
        "current active_texture = {:?}",
        get_active_texture(&ctx, GL_TEXTURE_2D)
    );

    glTexImage2D(
        &mut ctx,
        GL_TEXTURE_2D,
        0,
        GL_RGBA,
        16,
        16,
        0,
        GL_RGBA,
        GL_UNSIGNED_BYTE,
        None,
    );
}
