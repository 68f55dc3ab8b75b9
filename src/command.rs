//! Backend calls as plain values.
//!
//! Each operation of the library yields the calls it needs, in order. Calls
//! that carry CPU data (`BufferData`, `CopyToMapped`, a `TexImage2D` with
//! pixels) take it from the value handed to the operation that produced them.
//! Query calls (`CheckFramebufferStatus`, `GetShaderiv`, `GetShaderInfoLog`,
//! `GetProgramiv`, `GetProgramInfoLog`, `GetUniformLocation`) produce answers
//! that the caller passes to the step that follows.
//! Floating-point arguments travel as their IEEE-754 bit patterns.
use vstd::prelude::*;

verus! {

#[derive(Clone, Debug, PartialEq, Eq)]
pub enum GlCall {
    BindBuffer { target: u32, buffer: u32 },
    BufferData { target: u32, size: usize, usage: u32 },
    MapBuffer { target: u32, access: u32 },
    CopyToMapped { bytes: usize },
    UnmapBuffer { target: u32 },
    BindBufferBase { target: u32, index: u32, buffer: u32 },
    DeleteBuffer { buffer: u32 },
    BindFramebuffer { target: u32, framebuffer: u32 },
    CheckFramebufferStatus { target: u32 },
    DeleteFramebuffer { framebuffer: u32 },
    BindTexture { target: u32, texture: u32 },
    TexParameteri { target: u32, pname: u32, param: i32 },
    FramebufferTexture { target: u32, attachment: u32, texture: u32, level: i32 },
    TexImage2D {
        target: u32,
        level: i32,
        internal_format: i32,
        width: i32,
        height: i32,
        border: i32,
        format: u32,
        ty: u32,
        with_pixels: bool,
    },
    BindImageTexture {
        unit: u32,
        texture: u32,
        level: i32,
        layered: bool,
        layer: i32,
        access: u32,
        format: u32,
    },
    ActiveTexture { unit: u32 },
    DeleteTexture { texture: u32 },
    ShaderSource { shader: u32, source: String },
    CompileShader { shader: u32 },
    GetShaderiv { shader: u32, pname: u32 },
    GetShaderInfoLog { shader: u32 },
    DeleteShader { shader: u32 },
    AttachShader { program: u32, shader: u32 },
    LinkProgram { program: u32 },
    GetProgramiv { program: u32, pname: u32 },
    GetProgramInfoLog { program: u32 },
    DeleteProgram { program: u32 },
    UseProgram { program: u32 },
    GetUniformLocation { program: u32, name: String },
    Uniform1f { location: i32, bits: u32 },
    Uniform1i { location: i32, value: i32 },
    Uniform2f { location: i32, x_bits: u32, y_bits: u32 },
    Viewport { x: i32, y: i32, width: i32, height: i32 },
    ClearColor { r: u8, g: u8, b: u8, a: u8 },
    Clear { mask: u32 },
    DispatchCompute { x: u32, y: u32, z: u32 },
    MemoryBarrier { barriers: u32 },
}

} // verus!
