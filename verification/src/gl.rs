//! Types and enumerants of the OpenGL interface that the renderbuffer code names.

use vstd::prelude::*;

verus! {

pub type GLuint = u32;

pub type GLenum = u32;

pub type GLsizei = i32;

pub const DEPTH_COMPONENT24: GLenum = 0x81A6;

pub const DEPTH_STENCIL_ATTACHMENT: GLenum = 0x821A;

pub const DEPTH24_STENCIL8: GLenum = 0x88F0;

pub const DEPTH_ATTACHMENT: GLenum = 0x8D00;

pub const STENCIL_ATTACHMENT: GLenum = 0x8D20;

pub const FRAMEBUFFER: GLenum = 0x8D40;

pub const RENDERBUFFER: GLenum = 0x8D41;

pub const STENCIL_INDEX8: GLenum = 0x8D48;

} // verus!
