//! The OpenGL enumerant values this library hands to the GL.
//!
//! The values are those of the Khronos registry (`gl.xml`); the tests check
//! each of them against the `gl` crate's bindings where that crate has it.

use vstd::prelude::*;

verus! {

pub const FALSE: u8 = 0u8;
pub const TRUE: u8 = 1u8;

// Primitive modes
pub const POINTS: u32 = 0x0000u32;
pub const LINES: u32 = 0x0001u32;
pub const LINE_LOOP: u32 = 0x0002u32;
pub const LINE_STRIP: u32 = 0x0003u32;
pub const TRIANGLES: u32 = 0x0004u32;
pub const TRIANGLE_STRIP: u32 = 0x0005u32;
pub const TRIANGLE_FAN: u32 = 0x0006u32;
/// Not part of the core profile; vitaGL accepts it.
pub const QUADS: u32 = 0x0007u32;

// Data types
pub const BYTE: u32 = 0x1400u32;
pub const UNSIGNED_BYTE: u32 = 0x1401u32;
pub const SHORT: u32 = 0x1402u32;
pub const UNSIGNED_SHORT: u32 = 0x1403u32;
pub const UNSIGNED_INT: u32 = 0x1405u32;
pub const FLOAT: u32 = 0x1406u32;
pub const FIXED: u32 = 0x140Cu32;

// Error codes
pub const NO_ERROR: u32 = 0x0000u32;
pub const INVALID_ENUM: u32 = 0x0500u32;
pub const INVALID_VALUE: u32 = 0x0501u32;
pub const INVALID_OPERATION: u32 = 0x0502u32;
pub const STACK_OVERFLOW: u32 = 0x0503u32;
pub const STACK_UNDERFLOW: u32 = 0x0504u32;
pub const OUT_OF_MEMORY: u32 = 0x0505u32;
pub const INVALID_FRAMEBUFFER_OPERATION: u32 = 0x0506u32;

// Buffer targets
pub const ARRAY_BUFFER: u32 = 0x8892u32;
pub const ELEMENT_ARRAY_BUFFER: u32 = 0x8893u32;

// Shaders and programs
pub const FRAGMENT_SHADER: u32 = 0x8B30u32;
pub const VERTEX_SHADER: u32 = 0x8B31u32;
pub const COMPILE_STATUS: u32 = 0x8B81u32;
pub const LINK_STATUS: u32 = 0x8B82u32;
pub const INFO_LOG_LENGTH: u32 = 0x8B84u32;

// Textures
pub const TEXTURE0: u32 = 0x84C0u32;
pub const NEAREST: u32 = 0x2600u32;
pub const LINEAR: u32 = 0x2601u32;
pub const TEXTURE_MAG_FILTER: u32 = 0x2800u32;
pub const TEXTURE_MIN_FILTER: u32 = 0x2801u32;
pub const TEXTURE_WRAP_S: u32 = 0x2802u32;
pub const TEXTURE_WRAP_T: u32 = 0x2803u32;

} // verus!
