//! GLW: a small verified layer over an immediate-mode graphics API.
//!
//! The library owns the bookkeeping of GPU resources (buffers, render targets,
//! shaders, pipelines) and decides, for every operation, the exact sequence of
//! backend calls to issue. Those calls are plain values (`GlCall`); the
//! program around the library hands them to the driver and feeds the answers
//! of queries (compile status, framebuffer status, uniform locations) back.
//!
//! Every resource type has one owner and is neither `Clone` nor `Copy`; its
//! `release` consumes it, so the calls that destroy it can be had once only.
pub mod glenum;
pub mod error;
pub mod color;
pub mod command;
pub mod shader;
pub mod rendertarget;
pub mod buffers;
pub mod program;
pub mod glcontext;

pub use self::buffers::StructuredBuffer;
pub use self::color::Color;
pub use self::command::GlCall;
pub use self::error::{BuildError, CommandError, CreationError, ShaderError, UploadError};
pub use self::glcontext::{GLContext, MemoryBarrier, RenderBackend};
pub use self::program::{GraphicsCommandList, GraphicsPipeline, PipelineBuilder, PipelineType};
pub use self::rendertarget::{PixelFormat, RenderTarget};
pub use self::shader::{Shader, ShaderType, Uniform};
