use gles_native::buffer::glGetBufferParameteriv;
use gles_native::context::find_value_in_slice;
use gles_native::context::validate_parameter;
use gles_native::context::validate_parameters;
use gles_native::context::Context;
use gles_native::gl_sys::GL_ARRAY_BUFFER;
use gles_native::gl_sys::GL_BUFFER_SIZE;
use gles_native::gl_sys::GL_BUFFER_USAGE;
use gles_native::gl_sys::GL_COLOR_BUFFER_BIT;
use gles_native::gl_sys::GL_DEPTH_BUFFER_BIT;
use gles_native::gl_sys::GL_EXTENSIONS;
use gles_native::gl_sys::GL_FRAGMENT_SHADER;
use gles_native::gl_sys::GL_INVALID_ENUM;
use gles_native::gl_sys::GL_INVALID_OPERATION;
use gles_native::gl_sys::GL_INVALID_VALUE;
use gles_native::gl_sys::GL_NO_ERROR;
use gles_native::gl_sys::GL_PACK_ALIGNMENT;
use gles_native::gl_sys::GL_RGB;
use gles_native::gl_sys::GL_RGBA;
use gles_native::gl_sys::GL_STENCIL_BUFFER_BIT;
use gles_native::gl_sys::GL_TEXTURE_2D;
use gles_native::gl_sys::GL_TEXTURE_MIN_FILTER;
use gles_native::gl_sys::GL_TRIANGLES;
use gles_native::gl_sys::GL_UNSIGNED_BYTE;
use gles_native::gl_sys::GL_UNSIGNED_SHORT;
use gles_native::gl_sys::GL_UNSIGNED_SHORT_5_5_5_1;
use gles_native::gl_sys::GL_UNSIGNED_SHORT_5_6_5;
use gles_native::gl_sys::GL_VENDOR;
use gles_native::gl_sys::GL_VERTEX_SHADER;
use gles_native::pixel_operations::glPixelStorei;
use gles_native::pixel_operations::glReadPixels;
use gles_native::rendering::glClear;
use gles_native::rendering::glDrawArrays;
use gles_native::rendering::glDrawElements;
use gles_native::rendering::glFinish;
use gles_native::rendering::glFlush;
use gles_native::rendering::is_draw_mode_triangle;
use gles_native::shader::glCreateShader;
use gles_native::shader::glGetShaderInfoLog;
use gles_native::shader::glGetShaderSource;
use gles_native::shader::glIsShader;
use gles_native::shader::glShaderSource;
use gles_native::texture::glGetTexParameteriv;
use gles_native::texture::validate_texture_parameter;
use gles_native::utilities::glGetError;
use gles_native::utilities::glGetString;
use gles_native::viewport_transformation::glViewport;

#[test]
fn get_string_reports_the_identification_strings() {
    let mut ctx = Context::new();
    assert_eq!(Some("Hood\0"), glGetString(&mut ctx, GL_VENDOR));
    assert_eq!(
        Some("GL_OES_get_program_binary\0"),
        glGetString(&mut ctx, GL_EXTENSIONS)
    );
    assert_eq!(GL_NO_ERROR, glGetError(&mut ctx));
    assert_eq!(None, glGetString(&mut ctx, GL_TEXTURE_2D));
    assert_eq!(GL_INVALID_ENUM, glGetError(&mut ctx));
}

#[test]
fn create_shader_issues_handles_and_rejects_unknown_stages() {
    let mut ctx = Context::new();
    let vertex = glCreateShader(&mut ctx, GL_VERTEX_SHADER);
    let fragment = glCreateShader(&mut ctx, GL_FRAGMENT_SHADER);
    assert_eq!(1, vertex);
    assert_eq!(2, fragment);
    assert_eq!(
        GL_VERTEX_SHADER,
        ctx.shader_pool.get_object_mut(vertex).type_
    );
    assert_ne!(0, glIsShader(&ctx, vertex));
    assert_eq!(GL_NO_ERROR, glGetError(&mut ctx));

    let bad = glCreateShader(&mut ctx, GL_TEXTURE_2D);
    assert_eq!(0, bad);
    assert_eq!(GL_INVALID_ENUM, glGetError(&mut ctx));
}

#[test]
fn shader_source_validates_count_and_string_list() {
    let mut ctx = Context::new();
    let shader = glCreateShader(&mut ctx, GL_VERTEX_SHADER);
    glShaderSource(&mut ctx, shader, -1, true);
    assert_eq!(GL_INVALID_VALUE, glGetError(&mut ctx));
    glShaderSource(&mut ctx, shader, 1, false);
    assert_eq!(GL_INVALID_VALUE, glGetError(&mut ctx));
    glShaderSource(&mut ctx, shader, 1, true);
    assert_eq!(GL_NO_ERROR, glGetError(&mut ctx));
}

#[test]
fn shader_query_buffers_are_validated() {
    let mut ctx = Context::new();
    let shader = glCreateShader(&mut ctx, GL_VERTEX_SHADER);
    glGetShaderInfoLog(&mut ctx, shader, -3, true);
    assert_eq!(GL_INVALID_VALUE, glGetError(&mut ctx));
    glGetShaderInfoLog(&mut ctx, shader, 8, false);
    assert_eq!(GL_INVALID_VALUE, glGetError(&mut ctx));
    glGetShaderSource(&mut ctx, shader, 8, false);
    assert_eq!(GL_INVALID_OPERATION, glGetError(&mut ctx));
    glGetShaderSource(&mut ctx, shader, 8, true);
    assert_eq!(GL_NO_ERROR, glGetError(&mut ctx));
}

#[test]
fn buffer_parameter_query_validates_target_then_name() {
    let mut ctx = Context::new();
    glGetBufferParameteriv(&mut ctx, GL_TEXTURE_2D, GL_BUFFER_SIZE);
    assert_eq!(GL_INVALID_ENUM, glGetError(&mut ctx));
    glGetBufferParameteriv(&mut ctx, GL_ARRAY_BUFFER, GL_TEXTURE_2D);
    assert_eq!(GL_INVALID_ENUM, glGetError(&mut ctx));
    glGetBufferParameteriv(&mut ctx, GL_ARRAY_BUFFER, GL_BUFFER_USAGE);
    assert_eq!(GL_NO_ERROR, glGetError(&mut ctx));
}

#[test]
fn texture_parameter_query_validates_target_and_name() {
    let mut ctx = Context::new();
    glGetTexParameteriv(&mut ctx, GL_ARRAY_BUFFER, GL_TEXTURE_MIN_FILTER, true);
    assert_eq!(GL_INVALID_ENUM, glGetError(&mut ctx));
    glGetTexParameteriv(&mut ctx, GL_TEXTURE_2D, GL_TEXTURE_MIN_FILTER, true);
    assert_eq!(GL_NO_ERROR, glGetError(&mut ctx));
    assert!(validate_texture_parameter(GL_TEXTURE_MIN_FILTER));
    assert!(!validate_texture_parameter(GL_BUFFER_SIZE));
}

#[test]
fn pixel_store_validates_name_and_alignment() {
    let mut ctx = Context::new();
    glPixelStorei(&mut ctx, GL_TEXTURE_2D, 4);
    assert_eq!(GL_INVALID_ENUM, glGetError(&mut ctx));
    glPixelStorei(&mut ctx, GL_PACK_ALIGNMENT, 3);
    assert_eq!(GL_INVALID_VALUE, glGetError(&mut ctx));
    glPixelStorei(&mut ctx, GL_PACK_ALIGNMENT, 8);
    assert_eq!(GL_NO_ERROR, glGetError(&mut ctx));
}

#[test]
fn read_pixels_validates_sizes_formats_and_combinations() {
    let mut ctx = Context::new();
    glReadPixels(&mut ctx, 0, 0, -1, 4, GL_RGBA, GL_UNSIGNED_BYTE);
    assert_eq!(GL_INVALID_VALUE, glGetError(&mut ctx));
    glReadPixels(&mut ctx, 0, 0, 4, 4, GL_TEXTURE_2D, GL_UNSIGNED_BYTE);
    assert_eq!(GL_INVALID_ENUM, glGetError(&mut ctx));
    glReadPixels(&mut ctx, 0, 0, 4, 4, GL_RGBA, GL_TEXTURE_2D);
    assert_eq!(GL_INVALID_ENUM, glGetError(&mut ctx));
    glReadPixels(&mut ctx, 0, 0, 4, 4, GL_RGBA, GL_UNSIGNED_SHORT_5_6_5);
    assert_eq!(GL_INVALID_OPERATION, glGetError(&mut ctx));
    glReadPixels(&mut ctx, 0, 0, 4, 4, GL_RGB, GL_UNSIGNED_SHORT_5_6_5);
    assert_eq!(GL_NO_ERROR, glGetError(&mut ctx));
    // the 5-5-5-1 type is rejected whatever the format is
    glReadPixels(&mut ctx, 0, 0, 4, 4, GL_RGBA, GL_UNSIGNED_SHORT_5_5_5_1);
    assert_eq!(GL_INVALID_OPERATION, glGetError(&mut ctx));
}

#[test]
fn draw_calls_validate_mode_count_and_type() {
    let mut ctx = Context::new();
    glDrawArrays(&mut ctx, 0x0007, 0, 3);
    assert_eq!(GL_INVALID_ENUM, glGetError(&mut ctx));
    glDrawArrays(&mut ctx, GL_TRIANGLES, 0, -3);
    assert_eq!(GL_INVALID_VALUE, glGetError(&mut ctx));
    glDrawArrays(&mut ctx, GL_TRIANGLES, 0, 3);
    assert_eq!(GL_NO_ERROR, glGetError(&mut ctx));

    glDrawElements(&mut ctx, GL_TRIANGLES, 3, GL_RGBA, true);
    assert_eq!(GL_INVALID_ENUM, glGetError(&mut ctx));
    glDrawElements(&mut ctx, GL_TRIANGLES, -1, GL_UNSIGNED_SHORT, true);
    assert_eq!(GL_INVALID_VALUE, glGetError(&mut ctx));
    glDrawElements(&mut ctx, GL_TRIANGLES, 3, GL_UNSIGNED_BYTE, true);
    assert_eq!(GL_NO_ERROR, glGetError(&mut ctx));

    assert!(is_draw_mode_triangle(GL_TRIANGLES));
    assert!(!is_draw_mode_triangle(GL_RGBA));
}

#[test]
fn clear_rejects_selecting_every_buffer_at_once() {
    let mut ctx = Context::new();
    glClear(
        &mut ctx,
        GL_COLOR_BUFFER_BIT | GL_DEPTH_BUFFER_BIT | GL_STENCIL_BUFFER_BIT,
    );
    assert_eq!(GL_INVALID_VALUE, glGetError(&mut ctx));
    glClear(&mut ctx, GL_COLOR_BUFFER_BIT);
    assert_eq!(GL_NO_ERROR, glGetError(&mut ctx));
    glFlush();
    glFinish();
}

#[test]
fn viewport_rejects_negative_sizes() {
    let mut ctx = Context::new();
    glViewport(&mut ctx, 0, 0, -1, 4);
    assert_eq!(GL_INVALID_VALUE, glGetError(&mut ctx));
    glViewport(&mut ctx, 0, 0, 4, 4);
    assert_eq!(GL_NO_ERROR, glGetError(&mut ctx));
}

#[test]
fn shared_validation_helpers_behave_as_documented() {
    let required = vec![GL_BUFFER_SIZE, GL_BUFFER_USAGE];
    assert!(find_value_in_slice(GL_BUFFER_SIZE, &required));
    assert!(!find_value_in_slice(GL_TEXTURE_2D, &required));

    // both parameter validators test membership and latch the enum error on
    // a name outside the list
    let mut ctx = Context::new();
    assert!(validate_parameters(
        GL_BUFFER_USAGE,
        &required,
        &mut ctx.error
    ));
    assert_eq!(GL_NO_ERROR, glGetError(&mut ctx));
    assert!(!validate_parameters(
        GL_TEXTURE_2D,
        &required,
        &mut ctx.error
    ));
    assert_eq!(GL_INVALID_ENUM, glGetError(&mut ctx));
    assert!(validate_parameter(GL_BUFFER_SIZE, &required, &mut ctx.error));
    assert_eq!(GL_NO_ERROR, glGetError(&mut ctx));
    assert!(!validate_parameter(GL_TEXTURE_2D, &required, &mut ctx.error));
    assert_eq!(GL_INVALID_ENUM, glGetError(&mut ctx));
}
