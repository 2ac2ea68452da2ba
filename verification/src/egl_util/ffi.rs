//! Numeric values of the EGL enumerants this crate hands to, or receives from,
//! the driver. The values are those of the Khronos EGL registry.

use vstd::prelude::*;

verus! {

/// Terminator of every attribute list; also the "no caveat" value of
/// `CONFIG_CAVEAT`.
pub const NONE: i32 = 0x3038;

/// Bits of the alpha channel of a configuration.
pub const ALPHA_SIZE: i32 = 0x3021;

/// Bits of the blue channel of a configuration.
pub const BLUE_SIZE: i32 = 0x3022;

/// Bits of the green channel of a configuration.
pub const GREEN_SIZE: i32 = 0x3023;

/// Bits of the red channel of a configuration.
pub const RED_SIZE: i32 = 0x3024;

/// Bits of the depth buffer of a configuration.
pub const DEPTH_SIZE: i32 = 0x3025;

/// Bits of the stencil buffer of a configuration.
pub const STENCIL_SIZE: i32 = 0x3026;

/// Caveat of a configuration: none, slow, or not conformant.
pub const CONFIG_CAVEAT: i32 = 0x3027;

/// Samples per pixel of a configuration.
pub const SAMPLES: i32 = 0x3031;

/// Mask of the kinds of surface that a configuration supports.
pub const SURFACE_TYPE: i32 = 0x3033;

/// Kind of colour buffer of a configuration.
pub const COLOR_BUFFER_TYPE: i32 = 0x303F;

/// Mask of the client APIs that a configuration renders.
pub const RENDERABLE_TYPE: i32 = 0x3040;

/// Mask of the client APIs that a configuration conforms to.
pub const CONFORMANT: i32 = 0x3042;

/// Value of `CONFIG_CAVEAT`: the configuration is not hardware accelerated.
pub const SLOW_CONFIG: i32 = 0x3050;

/// Value of `RENDER_BUFFER`: render into the back buffer.
pub const BACK_BUFFER: i32 = 0x3084;

/// Value of `RENDER_BUFFER`: render into the only buffer.
pub const SINGLE_BUFFER: i32 = 0x3085;

/// Which buffer of a surface is rendered into.
pub const RENDER_BUFFER: i32 = 0x3086;

/// Value of `COLOR_BUFFER_TYPE`: an RGB colour buffer.
pub const RGB_BUFFER: i32 = 0x308E;

/// Major version of the client API of a context.
pub const CONTEXT_CLIENT_VERSION: i32 = 0x3098;

/// Major version of the client API of a context; another name of the same attribute.
pub const CONTEXT_MAJOR_VERSION: i32 = 0x3098;

/// Minor version of the client API of a context.
pub const CONTEXT_MINOR_VERSION: i32 = 0x30FB;

/// Flags of a context.
pub const CONTEXT_FLAGS_KHR: i32 = 0x30FC;

/// Bit of `SURFACE_TYPE`: window surfaces.
pub const WINDOW_BIT: i32 = 0x0004;

/// Bit of `RENDERABLE_TYPE` and `CONFORMANT`: OpenGL ES 2.
pub const OPENGL_ES2_BIT: i32 = 0x0004;

/// Bit of `RENDERABLE_TYPE` and `CONFORMANT`: OpenGL ES 3.
pub const OPENGL_ES3_BIT: i32 = 0x0040;

/// Name handed to `eglQueryString` for the extension list.
pub const EXTENSIONS: i32 = 0x3055;

/// Client API handed to `eglBindAPI`.
pub const OPENGL_ES_API: u32 = 0x30A0;

/// `eglGetError` value: an attribute or an attribute value was not recognised.
pub const BAD_ATTRIBUTE: u32 = 0x3004;

/// `eglGetError` value: a power management event destroyed the context.
pub const CONTEXT_LOST: u32 = 0x300E;

/// Selector of the draw surface for `eglGetCurrentSurface`.
pub const DRAW: i32 = 0x3059;

/// Selector of the read surface for `eglGetCurrentSurface`.
pub const READ: i32 = 0x305A;

} // verus!
