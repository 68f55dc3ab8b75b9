//! Errors that the library returns instead of aborting.
use vstd::prelude::*;

verus! {

/// Creating a render target failed; no GPU object stays with the caller.
#[derive(Clone, Copy, Debug, PartialEq, Eq, Structural)]
pub enum CreationError {
    /// A width or a height of zero.
    EmptySize { width: u32, height: u32 },
    /// A width or a height that the backend's signed sizes cannot hold.
    TooLarge { width: u32, height: u32 },
    /// The completeness check of a target of `width` by `height` answered
    /// with this status.
    IncompleteFramebuffer { status: u32, width: u32, height: u32 },
}

/// Uploading CPU data to an existing GPU resource was refused.
#[derive(Clone, Copy, Debug, PartialEq, Eq, Structural)]
pub enum UploadError {
    /// The data does not fit the resource: a buffer takes exactly as many
    /// elements as it holds, a texture at least one color per pixel.
    SizeMismatch { expected: u64, actual: u64 },
    /// Pixel uploads are 8 bits per channel RGBA; the target stores another format.
    FormatMismatch,
}

/// Compiling a shader failed.
#[derive(Clone, Debug, PartialEq, Eq)]
pub enum ShaderError {
    /// The source holds a NUL character, which the backend cannot take.
    NulInSource,
    /// The backend rejected the source; the message holds its log.
    CompileError { message: String },
    /// The source could not be read.
    IOError { message: String },
}

/// Building a pipeline failed.
#[derive(Clone, Debug, PartialEq, Eq)]
pub enum BuildError {
    /// A compute shader together with a vertex or a fragment shader.
    IncompatibleStages,
    /// No shader at all.
    NoStages,
    /// The backend could not link the program; `log` is its diagnostic.
    LinkFailed { log: String },
}

/// An operation that the command list's current state does not allow.
#[derive(Clone, Copy, Debug, PartialEq, Eq, Structural)]
pub enum CommandError {
    InvalidState,
}

} // verus!
