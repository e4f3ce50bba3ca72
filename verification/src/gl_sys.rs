//! OpenGL (ES) defined scalar types and enumerant values.

use vstd::prelude::*;

verus! {

pub type GLenum = u32;

pub type GLuint = u32;

pub type GLint = i32;

pub type GLsizei = i32;

pub type GLboolean = u8;

pub type GLbitfield = u32;

pub type GLsizeiptr = isize;

pub type GLintptr = isize;

pub const GL_FALSE: GLboolean = 0;

pub const GL_TRUE: GLboolean = 1;

pub const GL_NO_ERROR: GLenum = 0;

pub const GL_ZERO: GLenum = 0;

pub const GL_INVALID_ENUM: GLenum = 0x0500;

pub const GL_INVALID_VALUE: GLenum = 0x0501;

pub const GL_INVALID_OPERATION: GLenum = 0x0502;

pub const GL_OUT_OF_MEMORY: GLenum = 0x0505;

pub const GL_INVALID_FRAMEBUFFER_OPERATION: GLenum = 0x0506;

pub const GL_TRIANGLES: GLenum = 0x0004;

pub const GL_TRIANGLE_STRIP: GLenum = 0x0005;

pub const GL_TRIANGLE_FAN: GLenum = 0x0006;

pub const GL_DEPTH_BUFFER_BIT: GLbitfield = 0x0100;

pub const GL_STENCIL_BUFFER_BIT: GLbitfield = 0x0400;

pub const GL_COLOR_BUFFER_BIT: GLbitfield = 0x4000;

pub const GL_TEXTURE: GLenum = 0x1702;

pub const GL_TEXTURE_2D: GLenum = 0x0DE1;

pub const GL_TEXTURE_CUBE_MAP: GLenum = 0x8513;

pub const GL_TEXTURE0: GLenum = 0x84C0;

pub const GL_ARRAY_BUFFER: GLenum = 0x8892;

pub const GL_ELEMENT_ARRAY_BUFFER: GLenum = 0x8893;

pub const GL_BUFFER_SIZE: GLenum = 0x8764;

pub const GL_BUFFER_USAGE: GLenum = 0x8765;

pub const GL_STREAM_DRAW: GLenum = 0x88E0;

pub const GL_STATIC_DRAW: GLenum = 0x88E4;

pub const GL_DYNAMIC_DRAW: GLenum = 0x88E8;

pub const GL_FRAMEBUFFER: GLenum = 0x8D40;

pub const GL_RENDERBUFFER: GLenum = 0x8D41;

pub const GL_FRAMEBUFFER_COMPLETE: GLenum = 0x8CD5;

pub const GL_VERTEX_SHADER: GLenum = 0x8B31;

pub const GL_FRAGMENT_SHADER: GLenum = 0x8B30;

pub const GL_VENDOR: GLenum = 0x1F00;

pub const GL_RENDERER: GLenum = 0x1F01;

pub const GL_VERSION: GLenum = 0x1F02;

pub const GL_EXTENSIONS: GLenum = 0x1F03;

pub const GL_SHADING_LANGUAGE_VERSION: GLenum = 0x8B8C;

pub const GL_UNSIGNED_BYTE: GLenum = 0x1401;

pub const GL_UNSIGNED_SHORT: GLenum = 0x1403;

pub const GL_UNSIGNED_SHORT_4_4_4_4: GLenum = 0x8033;

pub const GL_UNSIGNED_SHORT_5_5_5_1: GLenum = 0x8034;

pub const GL_UNSIGNED_SHORT_5_6_5: GLenum = 0x8363;

pub const GL_ALPHA: GLenum = 0x1906;

pub const GL_RGB: GLenum = 0x1907;

pub const GL_RGBA: GLenum = 0x1908;

pub const GL_LUMINANCE: GLenum = 0x1909;

pub const GL_LUMINANCE_ALPHA: GLenum = 0x190A;

pub const GL_PACK_ALIGNMENT: GLenum = 0x0D05;

pub const GL_UNPACK_ALIGNMENT: GLenum = 0x0CF5;

pub const GL_TEXTURE_MAG_FILTER: GLenum = 0x2800;

pub const GL_TEXTURE_MIN_FILTER: GLenum = 0x2801;

pub const GL_TEXTURE_WRAP_S: GLenum = 0x2802;

pub const GL_TEXTURE_WRAP_T: GLenum = 0x2803;

} // verus!
