use vstd::prelude::*;
use vstd::string::*;

use crate::buffers::StructuredBuffer;
use crate::color::Color;
use crate::command::GlCall;
use crate::error::{BuildError, CommandError};
use crate::glcontext::MemoryBarrier;
use crate::glenum::{
    COLOR_BUFFER_BIT, DEPTH_BUFFER_BIT, FRAMEBUFFER, LINK_STATUS, RGBA8, SHADER_STORAGE_BUFFER,
    TEXTURE0, TEXTURE_2D, WRITE_ONLY,
};
use crate::rendertarget::RenderTarget;
use crate::shader::{contains_nul, Shader, Uniform};

verus! {

/// What a pipeline runs: the graphics stages, or a compute shader.
#[derive(Clone, Copy, Debug, PartialEq, Eq, Structural)]
pub enum PipelineType {
    Graphics,
    Compute,
}

/// A linked program. It is built once and never relinked. Not `Clone`: the
/// handle has a single owner.
#[derive(Debug)]
pub struct GraphicsPipeline {
    id: u32,
    kind: PipelineType,
}

impl GraphicsPipeline {
    pub closed spec fn handle(&self) -> u32 {
        self.id
    }

    pub closed spec fn kind(&self) -> PipelineType {
        self.kind
    }

    pub fn get_type(&self) -> (r: PipelineType)
        ensures
            r == self.kind(),
    {
        self.kind
    }

    /// The backend handle of the program.
    pub fn get(&self) -> (r: u32)
        ensures
            r == self.handle(),
    {
        self.id
    }

    /// Takes the answers to the link queries that `PipelineBuilder::build`
    /// issued: a zero status is a failed link, reported with the backend's
    /// log, and the program is then deleted.
    pub fn link_result(self, status: i32, log: &str) -> (r: Result<GraphicsPipeline, (BuildError, Vec<GlCall>)>)
        ensures
            status != 0 ==> r == Ok::<GraphicsPipeline, (BuildError, Vec<GlCall>)>(self),
            status == 0 ==> (r matches Err(e) && (e.0 matches BuildError::LinkFailed { log: l } && l@ == log@)
                && e.1@ == seq![GlCall::DeleteProgram { program: self.handle() }]),
    {
        if status != 0 {
            Ok(self)
        } else {
            let l = String::from_str(log);
            Err((BuildError::LinkFailed { log: l }, self.release()))
        }
    }

    /// The call that deletes the program. Consuming the pipeline, it can be
    /// issued once only.
    pub fn release(self) -> (r: Vec<GlCall>)
        ensures
            r@ == seq![GlCall::DeleteProgram { program: self.handle() }],
    {
        vec![GlCall::DeleteProgram { program: self.id }]
    }
}

/// Why shaders in the slots `v`, `f`, `c` (vertex, fragment, compute) cannot
/// make a pipeline, if they cannot.
pub open spec fn stage_error(v: Option<u32>, f: Option<u32>, c: Option<u32>) -> Option<BuildError> {
    if c is Some && (v is Some || f is Some) {
        Some(BuildError::IncompatibleStages)
    } else if v is None && f is None && c is None {
        Some(BuildError::NoStages)
    } else {
        None
    }
}

/// The kind of a pipeline built from the slots `c` (compute) and the others.
pub open spec fn kind_of(c: Option<u32>) -> PipelineType {
    if c is Some {
        PipelineType::Compute
    } else {
        PipelineType::Graphics
    }
}

/// The call that attaches the shader of a slot, if the slot is filled.
pub open spec fn attach_seq(program: u32, s: Option<u32>) -> Seq<GlCall> {
    match s {
        Some(h) => seq![GlCall::AttachShader { program, shader: h }],
        None => seq![],
    }
}

/// The calls that attach the shaders of the filled slots to `program`, in
/// the order vertex, fragment, compute, link it, and query the link status
/// and log.
pub open spec fn link_seq(program: u32, v: Option<u32>, f: Option<u32>, c: Option<u32>) -> Seq<GlCall> {
    attach_seq(program, v) + attach_seq(program, f) + attach_seq(program, c) + seq![
        GlCall::LinkProgram { program },
        GlCall::GetProgramiv { program, pname: LINK_STATUS },
        GlCall::GetProgramInfoLog { program },
    ]
}

pub open spec fn slot_handle(s: Option<Shader>) -> Option<u32> {
    match s {
        Some(sh) => Some(sh.handle()),
        None => None,
    }
}

/// The handle of a slot, as a sequence of none or one.
pub open spec fn slot_seq(s: Option<u32>) -> Seq<u32> {
    match s {
        Some(h) => seq![h],
        None => seq![],
    }
}

/// The calls that delete the shaders of `handles`, in order.
pub open spec fn delete_seq(handles: Seq<u32>) -> Seq<GlCall> {
    handles.map_values(|h: u32| GlCall::DeleteShader { shader: h })
}

/// Gathers at most one shader per stage. The builder owns the shaders it is
/// given; one that a later call replaces is kept until `release`, so every
/// shader handed in is deleted once.
#[derive(Debug)]
pub struct PipelineBuilder {
    vshader: Option<Shader>,
    fshader: Option<Shader>,
    cshader: Option<Shader>,
    replaced: Vec<u32>,
}

impl PipelineBuilder {
    /// The handle of the vertex shader, if one is set.
    pub closed spec fn vertex(&self) -> Option<u32> {
        slot_handle(self.vshader)
    }

    /// The handle of the fragment shader, if one is set.
    pub closed spec fn fragment(&self) -> Option<u32> {
        slot_handle(self.fshader)
    }

    /// The handle of the compute shader, if one is set.
    pub closed spec fn compute(&self) -> Option<u32> {
        slot_handle(self.cshader)
    }

    /// The handles of the shaders that later ones replaced, in order.
    pub closed spec fn replaced(&self) -> Seq<u32> {
        self.replaced@
    }

    pub fn new() -> (b: PipelineBuilder)
        ensures
            b.vertex() is None,
            b.fragment() is None,
            b.compute() is None,
            b.replaced() == Seq::<u32>::empty(),
    {
        PipelineBuilder { vshader: None, fshader: None, cshader: None, replaced: Vec::new() }
    }

    /// Sets the vertex shader, replacing any earlier one.
    pub fn with_vertex_shader(&mut self, shader: Shader) -> (r: &mut Self)
        ensures
            r.vertex() == Some(shader.handle()),
            r.fragment() == old(self).fragment(),
            r.compute() == old(self).compute(),
            r.replaced() == old(self).replaced() + slot_seq(old(self).vertex()),
            *final(self) == *final(r),
    {
        if let Some(s) = &self.vshader {
            let h = s.get_id();
            self.replaced.push(h);
        }
        self.vshader = Some(shader);
        assert(self.replaced@ =~= old(self).replaced() + slot_seq(old(self).vertex()));
        self
    }

    /// Sets the fragment shader, replacing any earlier one.
    pub fn with_fragment_shader(&mut self, shader: Shader) -> (r: &mut Self)
        ensures
            r.vertex() == old(self).vertex(),
            r.fragment() == Some(shader.handle()),
            r.compute() == old(self).compute(),
            r.replaced() == old(self).replaced() + slot_seq(old(self).fragment()),
            *final(self) == *final(r),
    {
        if let Some(s) = &self.fshader {
            let h = s.get_id();
            self.replaced.push(h);
        }
        self.fshader = Some(shader);
        assert(self.replaced@ =~= old(self).replaced() + slot_seq(old(self).fragment()));
        self
    }

    /// Sets the compute shader, replacing any earlier one.
    pub fn with_compute_shader(&mut self, shader: Shader) -> (r: &mut Self)
        ensures
            r.vertex() == old(self).vertex(),
            r.fragment() == old(self).fragment(),
            r.compute() == Some(shader.handle()),
            r.replaced() == old(self).replaced() + slot_seq(old(self).compute()),
            *final(self) == *final(r),
    {
        if let Some(s) = &self.cshader {
            let h = s.get_id();
            self.replaced.push(h);
        }
        self.cshader = Some(shader);
        assert(self.replaced@ =~= old(self).replaced() + slot_seq(old(self).compute()));
        self
    }

    /// Why the shaders set so far cannot make a pipeline, if they cannot: a
    /// compute shader excludes the graphics stages, and at least one shader
    /// is needed.
    pub fn check(&self) -> (r: Option<BuildError>)
        ensures
            r == stage_error(self.vertex(), self.fragment(), self.compute()),
    {
        if self.cshader.is_some() && (self.vshader.is_some() || self.fshader.is_some()) {
            Some(BuildError::IncompatibleStages)
        } else if self.vshader.is_none() && self.fshader.is_none() && self.cshader.is_none() {
            Some(BuildError::NoStages)
        } else {
            None
        }
    }

    /// The calls that delete every shader this builder was given: first the
    /// replaced ones, then those of the vertex, fragment and compute slots.
    pub fn release(self) -> (r: Vec<GlCall>)
        ensures
            r@ == delete_seq(
                self.replaced() + slot_seq(self.vertex()) + slot_seq(self.fragment()) + slot_seq(
                    self.compute(),
                ),
            ),
    {
        let mut handles: Vec<u32> = Vec::new();
        let n = self.replaced.len();
        let mut i: usize = 0;
        while i < n
            invariant
                n == self.replaced@.len(),
                i <= n,
                handles@ == self.replaced@.subrange(0, i as int),
            decreases n - i,
        {
            handles.push(self.replaced[i]);
            i = i + 1;
            assert(handles@ =~= self.replaced@.subrange(0, i as int));
        }
        assert(handles@ =~= self.replaced@);
        let ghost all = self.replaced() + slot_seq(self.vertex()) + slot_seq(self.fragment())
            + slot_seq(self.compute());
        if let Some(s) = &self.vshader {
            handles.push(s.get_id());
        }
        assert(handles@ =~= self.replaced() + slot_seq(self.vertex()));
        if let Some(s) = &self.fshader {
            handles.push(s.get_id());
        }
        assert(handles@ =~= self.replaced() + slot_seq(self.vertex()) + slot_seq(self.fragment()));
        if let Some(s) = &self.cshader {
            handles.push(s.get_id());
        }
        assert(handles@ =~= all);
        let mut calls: Vec<GlCall> = Vec::new();
        let m = handles.len();
        let mut k: usize = 0;
        while k < m
            invariant
                m == handles@.len(),
                handles@ == all,
                k <= m,
                calls@ == delete_seq(all.subrange(0, k as int)),
            decreases m - k,
        {
            calls.push(GlCall::DeleteShader { shader: handles[k] });
            k = k + 1;
            assert(calls@ =~= delete_seq(all.subrange(0, k as int)));
        }
        assert(all.subrange(0, m as int) =~= all);
        calls
    }

    /// Builds a pipeline on `program`, a program object that the backend has
    /// just created: the pipeline, and the calls that attach the shaders and
    /// link. `GraphicsPipeline::link_result` takes the answers of the link
    /// queries among them. Shaders that cannot make a pipeline give the error
    /// with the call that deletes `program`.
    pub fn build(&self, program: u32) -> (r: Result<(GraphicsPipeline, Vec<GlCall>), (BuildError, Vec<GlCall>)>)
        requires
            program != 0,
        ensures
            stage_error(self.vertex(), self.fragment(), self.compute()) matches Some(e) ==> (r matches Err(
                x,
            ) && x.0 == e && x.1@ == seq![GlCall::DeleteProgram { program }]),
            stage_error(self.vertex(), self.fragment(), self.compute()) is None ==> (r matches Ok(
                res,
            ) && res.0.handle() == program && res.0.kind() == kind_of(self.compute()) && res.1@
                == link_seq(program, self.vertex(), self.fragment(), self.compute())),
    {
        if let Some(e) = self.check() {
            return Err((e, vec![GlCall::DeleteProgram { program }]));
        }
        let mut calls: Vec<GlCall> = Vec::new();
        if let Some(s) = &self.vshader {
            calls.push(GlCall::AttachShader { program, shader: s.get_id() });
        }
        let ghost after_v = calls@;
        if let Some(s) = &self.fshader {
            calls.push(GlCall::AttachShader { program, shader: s.get_id() });
        }
        let ghost after_f = calls@;
        if let Some(s) = &self.cshader {
            calls.push(GlCall::AttachShader { program, shader: s.get_id() });
        }
        let ghost after_c = calls@;
        calls.push(GlCall::LinkProgram { program });
        calls.push(GlCall::GetProgramiv { program, pname: LINK_STATUS });
        calls.push(GlCall::GetProgramInfoLog { program });
        proof {
            assert(after_v =~= attach_seq(program, self.vertex()));
            assert(after_f =~= attach_seq(program, self.vertex()) + attach_seq(program, self.fragment()));
            assert(after_c =~= attach_seq(program, self.vertex()) + attach_seq(program, self.fragment())
                + attach_seq(program, self.compute()));
            assert(calls@ =~= link_seq(program, self.vertex(), self.fragment(), self.compute()));
        }
        let kind = if self.cshader.is_some() {
            PipelineType::Compute
        } else {
            PipelineType::Graphics
        };
        Ok((GraphicsPipeline { id: program, kind }, calls))
    }
}

/// The calls that make texture unit `unit` active and bind texture `unit`
/// to it.
pub open spec fn sampler_seq(unit: u32) -> Seq<GlCall> {
    seq![
        GlCall::ActiveTexture { unit: (TEXTURE0 + unit) as u32 },
        GlCall::BindTexture { target: TEXTURE_2D, texture: unit },
    ]
}

/// Whether `uni` can be handed to the backend: a sampler's unit must leave
/// room for its enumerant.
pub open spec fn uniform_ok(uni: Uniform) -> bool {
    uni matches Uniform::Sampler2D(v) ==> v <= u32::MAX - TEXTURE0
}

/// The calls that set the uniform at `location` to `uni`. The location `-1`
/// names no uniform: nothing is issued for it.
pub open spec fn uniform_seq(location: i32, uni: Uniform) -> Seq<GlCall> {
    if location == -1 {
        seq![]
    } else {
        match uni {
            Uniform::Float(bits) => seq![GlCall::Uniform1f { location, bits }],
            Uniform::Int(value) => seq![GlCall::Uniform1i { location, value }],
            Uniform::Vec2(x_bits, y_bits) => seq![GlCall::Uniform2f { location, x_bits, y_bits }],
            Uniform::Sampler2D(v) => sampler_seq(v) + seq![GlCall::Uniform1i { location, value: v as i32 }],
        }
    }
}

/// The mask of a clear: color and depth.
pub open spec fn clear_mask() -> u32 {
    COLOR_BUFFER_BIT | DEPTH_BUFFER_BIT
}

/// The calls that clear color and depth, after setting the clear color to
/// `color` if one is given.
pub open spec fn clear_seq(color: Option<Color>) -> Seq<GlCall> {
    match color {
        Some(c) => seq![
            GlCall::ClearColor { r: c.r, g: c.g, b: c.b, a: c.a },
            GlCall::Clear { mask: clear_mask() },
        ],
        None => seq![GlCall::Clear { mask: clear_mask() }],
    }
}

/// Records and issues bindings and dispatches. The one state it keeps is the
/// pipeline bound last, and its kind: no pipeline, graphics, or compute.
#[derive(Debug)]
pub struct GraphicsCommandList {
    current_pipeline: u32,
    current_kind: Option<PipelineType>,
}

impl GraphicsCommandList {
    /// The handle of the bound pipeline; 0 when none is.
    pub closed spec fn current(&self) -> u32 {
        self.current_pipeline
    }

    /// The kind of the bound pipeline, if one is bound.
    pub closed spec fn bound(&self) -> Option<PipelineType> {
        self.current_kind
    }

    /// A list with no pipeline bound.
    pub fn new() -> (l: GraphicsCommandList)
        ensures
            l.current() == 0,
            l.bound() is None,
    {
        GraphicsCommandList { current_pipeline: 0, current_kind: None }
    }

    /// The handle of the bound pipeline; 0 when none is.
    pub fn get(&self) -> (r: u32)
        ensures
            r == self.current(),
    {
        self.current_pipeline
    }

    /// The kind of the bound pipeline, if one is bound.
    pub fn bound_kind(&self) -> (r: Option<PipelineType>)
        ensures
            r == self.bound(),
    {
        self.current_kind
    }

    /// Binds `buffer` to storage slot `slot`.
    pub fn bind_buffer<T>(&mut self, buffer: &StructuredBuffer<T>, slot: u32) -> (r: Vec<GlCall>)
        ensures
            *final(self) == *old(self),
            r@ == seq![GlCall::BindBufferBase { target: SHADER_STORAGE_BUFFER, index: slot, buffer: buffer.handle() }],
    {
        vec![GlCall::BindBufferBase { target: SHADER_STORAGE_BUFFER, index: slot, buffer: buffer.get_id() }]
    }

    /// Binds the texture of `rt` to image unit 0 for writing.
    pub fn bind_texture(&mut self, rt: &RenderTarget) -> (r: Vec<GlCall>)
        ensures
            *final(self) == *old(self),
            r@ == seq![
                GlCall::BindImageTexture {
                    unit: 0,
                    texture: rt.texture(),
                    level: 0,
                    layered: false,
                    layer: 0,
                    access: WRITE_ONLY,
                    format: RGBA8,
                },
            ],
    {
        vec![
            GlCall::BindImageTexture {
                unit: 0,
                texture: rt.get_texture(),
                level: 0,
                layered: false,
                layer: 0,
                access: WRITE_ONLY,
                format: RGBA8,
            },
        ]
    }

    /// The query for the location of the uniform `uniform_name` in the bound
    /// pipeline; its answer goes to `set_uniform`. A name holding a NUL
    /// character names no uniform: there is nothing to ask, and the caller
    /// takes the location as `-1`.
    pub fn uniform_location(&self, uniform_name: &str) -> (r: Option<GlCall>)
        ensures
            uniform_name@.contains('\0') <==> r is None,
            r matches Some(c) ==> (c matches GlCall::GetUniformLocation { program, name }
                && program == self.current() && name@ == uniform_name@),
    {
        if contains_nul(uniform_name) {
            None
        } else {
            Some(GlCall::GetUniformLocation { program: self.current_pipeline, name: String::from_str(uniform_name) })
        }
    }

    /// Sets the uniform at `location` of the bound pipeline to `uni`. A
    /// location of `-1`, the answer for a name that no uniform has, is no
    /// error: nothing is issued and nothing changes.
    pub fn set_uniform(&mut self, location: i32, uni: Uniform) -> (r: Vec<GlCall>)
        requires
            location != -1 ==> uniform_ok(uni),
        ensures
            *final(self) == *old(self),
            r@ == uniform_seq(location, uni),
            location == -1 ==> r@.len() == 0,
    {
        if location == -1 {
            return Vec::new();
        }
        match uni {
            Uniform::Float(bits) => vec![GlCall::Uniform1f { location, bits }],
            Uniform::Int(value) => vec![GlCall::Uniform1i { location, value }],
            Uniform::Vec2(x_bits, y_bits) => vec![GlCall::Uniform2f { location, x_bits, y_bits }],
            Uniform::Sampler2D(v) => {
                let mut calls = self.set_sampler(v);
                calls.push(GlCall::Uniform1i { location, value: v as i32 });
                assert(calls@ =~= uniform_seq(location, uni));
                calls
            },
        }
    }

    /// Makes texture unit `sampler` active and binds texture `sampler` to it.
    pub fn set_sampler(&mut self, sampler: u32) -> (r: Vec<GlCall>)
        requires
            sampler <= u32::MAX - TEXTURE0,
        ensures
            *final(self) == *old(self),
            r@ == sampler_seq(sampler),
    {
        vec![
            GlCall::ActiveTexture { unit: TEXTURE0 + sampler },
            GlCall::BindTexture { target: TEXTURE_2D, texture: sampler },
        ]
    }

    /// Binds `pipeline`; it becomes the current one, of its kind.
    pub fn bind_pipeline(&mut self, pipeline: &GraphicsPipeline) -> (r: Vec<GlCall>)
        ensures
            final(self).current() == pipeline.handle(),
            final(self).bound() == Some(pipeline.kind()),
            r@ == seq![GlCall::UseProgram { program: pipeline.handle() }],
    {
        self.current_pipeline = pipeline.get();
        self.current_kind = Some(pipeline.get_type());
        vec![GlCall::UseProgram { program: pipeline.get() }]
    }

    /// Sets the active viewport.
    pub fn set_viewport(&mut self, x: i32, y: i32, width: i32, height: i32) -> (r: Vec<GlCall>)
        ensures
            *final(self) == *old(self),
            r@ == seq![GlCall::Viewport { x, y, width, height }],
    {
        vec![GlCall::Viewport { x, y, width, height }]
    }

    /// Clears color and depth of the bound render target, with `color` as
    /// the clear color if one is given, else with the clear color set last.
    pub fn clear(&mut self, color: Option<Color>) -> (r: Vec<GlCall>)
        ensures
            *final(self) == *old(self),
            r@ == clear_seq(color),
    {
        let mask = COLOR_BUFFER_BIT | DEPTH_BUFFER_BIT;
        match color {
            Some(c) => vec![GlCall::ClearColor { r: c.r, g: c.g, b: c.b, a: c.a }, GlCall::Clear { mask }],
            None => vec![GlCall::Clear { mask }],
        }
    }

    /// Binds `rt` as the target of drawing.
    pub fn bind_rt(&mut self, rt: &RenderTarget) -> (r: Vec<GlCall>)
        ensures
            *final(self) == *old(self),
            r@ == seq![GlCall::BindFramebuffer { target: FRAMEBUFFER, framebuffer: rt.framebuffer() }],
    {
        vec![GlCall::BindFramebuffer { target: FRAMEBUFFER, framebuffer: rt.get_fb() }]
    }

    /// Runs the bound compute pipeline on a grid of work groups. Only a
    /// compute pipeline can be dispatched.
    pub fn dispatch(&mut self, groups_x: u32, groups_y: u32, groups_z: u32) -> (r: Result<Vec<GlCall>, CommandError>)
        ensures
            *final(self) == *old(self),
            old(self).bound() == Some(PipelineType::Compute) <==> r is Ok,
            r matches Ok(calls) ==> calls@ == seq![GlCall::DispatchCompute { x: groups_x, y: groups_y, z: groups_z }],
            r matches Err(e) ==> e == CommandError::InvalidState,
    {
        match self.current_kind {
            Some(PipelineType::Compute) => Ok(vec![GlCall::DispatchCompute { x: groups_x, y: groups_y, z: groups_z }]),
            _ => Err(CommandError::InvalidState),
        }
    }

    /// Issues `barrier`.
    pub fn memory_barrier(&mut self, barrier: MemoryBarrier) -> (r: Vec<GlCall>)
        ensures
            *final(self) == *old(self),
            r@ == seq![GlCall::MemoryBarrier { barriers: barrier.bits() }],
    {
        vec![GlCall::MemoryBarrier { barriers: barrier.get() }]
    }
}

} // verus!
