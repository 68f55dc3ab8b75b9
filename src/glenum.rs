//! The numeric values of the backend enumerants that the library issues,
//! as the OpenGL registry defines them.
use vstd::prelude::*;

verus! {

pub const SHADER_STORAGE_BUFFER: u32 = 0x90D2;
pub const DYNAMIC_COPY: u32 = 0x88EA;
pub const WRITE_ONLY: u32 = 0x88B9;

pub const FRAMEBUFFER: u32 = 0x8D40;
pub const FRAMEBUFFER_COMPLETE: u32 = 0x8CD5;
pub const COLOR_ATTACHMENT0: u32 = 0x8CE0;

pub const TEXTURE_2D: u32 = 0x0DE1;
pub const TEXTURE0: u32 = 0x84C0;
pub const TEXTURE_MAG_FILTER: u32 = 0x2800;
pub const TEXTURE_MIN_FILTER: u32 = 0x2801;
pub const NEAREST: u32 = 0x2600;

pub const RGBA: u32 = 0x1908;
pub const RED: u32 = 0x1903;
pub const RGBA32F: u32 = 0x8814;
pub const RGBA8: u32 = 0x8058;
pub const R8: u32 = 0x8229;
pub const R16: u32 = 0x822A;

pub const FLOAT: u32 = 0x1406;
pub const UNSIGNED_BYTE: u32 = 0x1401;
pub const UNSIGNED_SHORT: u32 = 0x1403;

pub const VERTEX_SHADER: u32 = 0x8B31;
pub const FRAGMENT_SHADER: u32 = 0x8B30;
pub const COMPUTE_SHADER: u32 = 0x91B9;
pub const GEOMETRY_SHADER: u32 = 0x8DD9;
pub const COMPILE_STATUS: u32 = 0x8B81;
pub const LINK_STATUS: u32 = 0x8B82;

pub const ATOMIC_COUNTER_BARRIER_BIT: u32 = 0x1000;
pub const SHADER_STORAGE_BARRIER_BIT: u32 = 0x2000;

pub const COLOR_BUFFER_BIT: u32 = 0x4000;
pub const DEPTH_BUFFER_BIT: u32 = 0x0100;

} // verus!
