//! Handle types and enumerants of the EGL interface.

use vstd::prelude::*;

verus! {

pub type EGLint = i32;

pub type EGLBoolean = u32;

/// A display connection, as an address-sized opaque handle.
pub type EGLDisplay = usize;

/// A native rendering context, as an address-sized opaque handle.
pub type EGLContext = usize;

/// A native drawable, as an address-sized opaque handle.
pub type EGLSurface = usize;

pub const FALSE: EGLBoolean = 0;

pub const TRUE: EGLBoolean = 1;

pub const NO_DISPLAY: EGLDisplay = 0;

/// The sentinel that stands for "no context".
pub const NO_CONTEXT: EGLContext = 0;

/// The sentinel that stands for "no surface".
pub const NO_SURFACE: EGLSurface = 0;

pub const SUCCESS: EGLint = 0x3000;

pub const NOT_INITIALIZED: EGLint = 0x3001;

pub const BAD_ACCESS: EGLint = 0x3002;

pub const BAD_ALLOC: EGLint = 0x3003;

pub const BAD_ATTRIBUTE: EGLint = 0x3004;

pub const BAD_CONFIG: EGLint = 0x3005;

pub const BAD_CONTEXT: EGLint = 0x3006;

pub const BAD_CURRENT_SURFACE: EGLint = 0x3007;

pub const BAD_DISPLAY: EGLint = 0x3008;

pub const BAD_MATCH: EGLint = 0x3009;

pub const BAD_NATIVE_PIXMAP: EGLint = 0x300A;

pub const BAD_NATIVE_WINDOW: EGLint = 0x300B;

pub const BAD_PARAMETER: EGLint = 0x300C;

pub const BAD_SURFACE: EGLint = 0x300D;

pub const CONTEXT_LOST: EGLint = 0x300E;

pub const PBUFFER_BIT: EGLint = 0x0001;

pub const OPENGL_ES2_BIT: EGLint = 0x0004;

pub const ALPHA_SIZE: EGLint = 0x3021;

pub const BLUE_SIZE: EGLint = 0x3022;

pub const GREEN_SIZE: EGLint = 0x3023;

pub const RED_SIZE: EGLint = 0x3024;

pub const DEPTH_SIZE: EGLint = 0x3025;

pub const STENCIL_SIZE: EGLint = 0x3026;

pub const SURFACE_TYPE: EGLint = 0x3033;

pub const NONE: EGLint = 0x3038;

pub const BIND_TO_TEXTURE_RGBA: EGLint = 0x303A;

pub const RENDERABLE_TYPE: EGLint = 0x3040;

} // verus!
