use vstd::prelude::*;
use vstd::string::*;

use crate::command::GlCall;
use crate::error::ShaderError;
use crate::glenum::{COMPILE_STATUS, COMPUTE_SHADER, FRAGMENT_SHADER, GEOMETRY_SHADER, VERTEX_SHADER};

verus! {

/// The stage a shader object belongs to.
#[derive(Clone, Copy, Debug, PartialEq, Eq, Structural)]
pub enum ShaderType {
    Vertex,
    Fragment,
    Compute,
    Geometry,
}

impl ShaderType {
    pub open spec fn spec_value(self) -> u32 {
        match self {
            ShaderType::Vertex => VERTEX_SHADER,
            ShaderType::Fragment => FRAGMENT_SHADER,
            ShaderType::Compute => COMPUTE_SHADER,
            ShaderType::Geometry => GEOMETRY_SHADER,
        }
    }

    /// The backend enumerant of this stage, to create a shader object with.
    pub fn value(&self) -> (r: u32)
        ensures
            r == self.spec_value(),
    {
        match self {
            ShaderType::Vertex => VERTEX_SHADER,
            ShaderType::Fragment => FRAGMENT_SHADER,
            ShaderType::Compute => COMPUTE_SHADER,
            ShaderType::Geometry => GEOMETRY_SHADER,
        }
    }
}

/// A value for a named shader input. Floating-point values are held as their
/// IEEE-754 bit patterns.
#[derive(Clone, Copy, Debug, PartialEq, Eq, Structural)]
pub enum Uniform {
    Float(u32),
    Int(i32),
    Vec2(u32, u32),
    Sampler2D(u32),
}

/// The prefix of the message of a failed compilation.
pub const COMPILE_FAILED: &'static str = "Failed to compile shader : ";

/// A shader object: a backend handle, its stage, and whether its last
/// compilation succeeded. Not `Clone`: the handle has a single owner.
#[derive(Debug)]
pub struct Shader {
    id: u32,
    shader_type: ShaderType,
    compiled: bool,
}

/// Whether `c` hands `text` to shader `shader` as its source.
pub open spec fn is_source_call(c: GlCall, shader: u32, text: Seq<char>) -> bool {
    match c {
        GlCall::ShaderSource { shader: s, source } => s == shader && source@ == text,
        _ => false,
    }
}

impl Shader {
    pub closed spec fn handle(&self) -> u32 {
        self.id
    }

    pub closed spec fn stage(&self) -> ShaderType {
        self.shader_type
    }

    pub closed spec fn is_compiled(&self) -> bool {
        self.compiled
    }

    pub fn get_id(&self) -> (r: u32)
        ensures
            r == self.handle(),
    {
        self.id
    }

    /// Wraps `id`, a shader object of stage `shader_type` that the backend has
    /// just created; it is not compiled yet.
    pub fn new(shader_type: ShaderType, id: u32) -> (s: Shader)
        requires
            id != 0,
        ensures
            s.handle() == id,
            s.stage() == shader_type,
            !s.is_compiled(),
    {
        Shader { id, shader_type, compiled: false }
    }

    pub fn shader_type(&self) -> (r: ShaderType)
        ensures
            r == self.stage(),
    {
        self.shader_type
    }

    pub fn compiled(&self) -> (r: bool)
        ensures
            r == self.is_compiled(),
    {
        self.compiled
    }

    /// The calls that compile `data` into this shader: submit the source,
    /// compile, then query the compile status and the log, in that order.
    /// A source holding a NUL character is refused.
    pub fn load_from_memory(&mut self, data: &str) -> (r: Result<Vec<GlCall>, ShaderError>)
        ensures
            *final(self) == *old(self),
            data@.contains('\0') <==> r == Err::<Vec<GlCall>, ShaderError>(ShaderError::NulInSource),
            !data@.contains('\0') ==> (r matches Ok(calls) && calls@.len() == 4
                && is_source_call(calls@[0], old(self).handle(), data@)
                && calls@[1] == (GlCall::CompileShader { shader: old(self).handle() })
                && calls@[2] == (GlCall::GetShaderiv { shader: old(self).handle(), pname: COMPILE_STATUS })
                && calls@[3] == (GlCall::GetShaderInfoLog { shader: old(self).handle() })),
    {
        if contains_nul(data) {
            return Err(ShaderError::NulInSource);
        }
        let source = String::from_str(data);
        Ok(vec![
            GlCall::ShaderSource { shader: self.id, source },
            GlCall::CompileShader { shader: self.id },
            GlCall::GetShaderiv { shader: self.id, pname: COMPILE_STATUS },
            GlCall::GetShaderInfoLog { shader: self.id },
        ])
    }

    /// Takes the answers to the queries of `load_from_memory`: a zero status
    /// is a failed compilation, reported with the backend's log.
    pub fn finish_compile(&mut self, status: i32, log: &str) -> (r: Result<(), ShaderError>)
        ensures
            final(self).handle() == old(self).handle(),
            final(self).stage() == old(self).stage(),
            final(self).is_compiled() == (status != 0),
            status != 0 ==> r is Ok,
            status == 0 ==> (r matches Err(ShaderError::CompileError { message })
                && message@ == COMPILE_FAILED@ + log@),
    {
        if status == 0 {
            self.compiled = false;
            let message = String::from_str(COMPILE_FAILED).concat(log);
            Err(ShaderError::CompileError { message })
        } else {
            self.compiled = true;
            Ok(())
        }
    }

    /// The call that deletes this shader object. Consuming the shader, it can
    /// be issued once only.
    pub fn release(self) -> (r: Vec<GlCall>)
        ensures
            r@ == seq![GlCall::DeleteShader { shader: self.handle() }],
    {
        vec![GlCall::DeleteShader { shader: self.id }]
    }
}

/// Whether `s` holds a NUL character, which no name or source handed to the
/// backend may hold.
pub fn contains_nul(s: &str) -> (r: bool)
    ensures
        r == s@.contains('\0'),
{
    let n = s.unicode_len();
    let mut i: usize = 0;
    while i < n
        invariant
            n == s@.len(),
            i <= n,
            forall|k: int| 0 <= k < i ==> s@[k] != '\0',
        decreases n - i,
    {
        if s.get_char(i) == '\0' {
            return true;
        }
        i = i + 1;
    }
    false
}

/// The prefix of the message of a source that could not be read.
pub const LOAD_FAILED: &'static str = "Failed to load shader for path \"";

/// The error for a shader file at `path` that could not be read, for `reason`.
pub fn file_error(path: &str, reason: &str) -> (e: ShaderError)
    ensures
        e matches ShaderError::IOError { message }
            && message@ == LOAD_FAILED@ + path@ + "\": \n"@ + reason@,
{
    let message = String::from_str(LOAD_FAILED).concat(path).concat("\": \n").concat(reason);
    ShaderError::IOError { message }
}

/// `err`, from compiling the file at `path`, with the path put in front of a
/// compile message; other errors already say what failed.
pub fn in_file(path: &str, err: ShaderError) -> (e: ShaderError)
    ensures
        match err {
            ShaderError::CompileError { message } => (e matches ShaderError::CompileError {
                message: m,
            } && m@ == path@ + ": "@ + message@),
            _ => e == err,
        },
{
    match err {
        ShaderError::CompileError { message } => {
            let m = String::from_str(path).concat(": ").concat(message.as_str());
            ShaderError::CompileError { message: m }
        },
        other => other,
    }
}

} // verus!
