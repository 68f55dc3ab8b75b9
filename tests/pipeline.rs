use glw::color::Color;
use glw::command::GlCall;
use glw::error::{BuildError, CommandError, ShaderError};
use glw::glcontext::{GLContext, MemoryBarrier};
use glw::program::{PipelineBuilder, PipelineType};
use glw::rendertarget::{PixelFormat, RenderTarget};
use glw::shader::{file_error, in_file, Shader, ShaderType, Uniform};
use glw::buffers::StructuredBuffer;

fn compute_pipeline(id: u32) -> glw::program::GraphicsPipeline {
    let mut b = PipelineBuilder::new();
    b.with_compute_shader(Shader::new(ShaderType::Compute, 11));
    b.build(id).unwrap().0
}

#[test]
fn shader_type_values() {
    assert_eq!(ShaderType::Vertex.value(), 0x8B31);
    assert_eq!(ShaderType::Fragment.value(), 0x8B30);
    assert_eq!(ShaderType::Compute.value(), 0x91B9);
    assert_eq!(ShaderType::Geometry.value(), 0x8DD9);
}

#[test]
fn shader_compile_calls() {
    let mut s = Shader::new(ShaderType::Vertex, 4);
    assert_eq!(s.get_id(), 4);
    assert!(!s.compiled());
    let calls = s.load_from_memory("void main() {}").unwrap();
    assert_eq!(
        calls,
        vec![
            GlCall::ShaderSource { shader: 4, source: "void main() {}".to_string() },
            GlCall::CompileShader { shader: 4 },
            GlCall::GetShaderiv { shader: 4, pname: 0x8B81 },
            GlCall::GetShaderInfoLog { shader: 4 },
        ]
    );
    assert_eq!(s.finish_compile(1, ""), Ok(()));
    assert!(s.compiled());
    assert_eq!(s.release(), vec![GlCall::DeleteShader { shader: 4 }]);
}

#[test]
fn shader_source_with_nul_is_refused() {
    let mut s = Shader::new(ShaderType::Fragment, 2);
    assert_eq!(s.load_from_memory("void\0main"), Err(ShaderError::NulInSource));
}

#[test]
fn shader_compile_failure_carries_the_log() {
    let mut s = Shader::new(ShaderType::Fragment, 2);
    let e = s.finish_compile(0, "0:1: syntax error").unwrap_err();
    assert_eq!(
        e,
        ShaderError::CompileError { message: "Failed to compile shader : 0:1: syntax error".to_string() }
    );
    assert!(!s.compiled());
}

#[test]
fn shader_file_error_names_the_path() {
    assert_eq!(
        file_error("a.glsl", "not found"),
        ShaderError::IOError { message: "Failed to load shader for path \"a.glsl\": \nnot found".to_string() }
    );
}

#[test]
fn compile_errors_name_the_file() {
    let e = ShaderError::CompileError { message: "bad".to_string() };
    assert_eq!(
        in_file("a.glsl", e),
        ShaderError::CompileError { message: "a.glsl: bad".to_string() }
    );
    assert_eq!(in_file("a.glsl", ShaderError::NulInSource), ShaderError::NulInSource);
}

#[test]
fn compute_only_builds_compute() {
    let mut b = PipelineBuilder::new();
    b.with_compute_shader(Shader::new(ShaderType::Compute, 11));
    assert_eq!(b.check(), None);
    let (p, calls) = b.build(20).unwrap();
    assert_eq!(p.get_type(), PipelineType::Compute);
    assert_eq!(p.get(), 20);
    assert_eq!(
        calls,
        vec![
            GlCall::AttachShader { program: 20, shader: 11 },
            GlCall::LinkProgram { program: 20 },
            GlCall::GetProgramiv { program: 20, pname: 0x8B82 },
            GlCall::GetProgramInfoLog { program: 20 },
        ]
    );
}

#[test]
fn vertex_fragment_builds_graphics() {
    let mut b = PipelineBuilder::new();
    b.with_vertex_shader(Shader::new(ShaderType::Vertex, 1))
        .with_fragment_shader(Shader::new(ShaderType::Fragment, 2));
    let (p, calls) = b.build(30).unwrap();
    assert_eq!(p.get_type(), PipelineType::Graphics);
    assert_eq!(
        calls,
        vec![
            GlCall::AttachShader { program: 30, shader: 1 },
            GlCall::AttachShader { program: 30, shader: 2 },
            GlCall::LinkProgram { program: 30 },
            GlCall::GetProgramiv { program: 30, pname: 0x8B82 },
            GlCall::GetProgramInfoLog { program: 30 },
        ]
    );
}

#[test]
fn vertex_compute_is_incompatible() {
    let mut b = PipelineBuilder::new();
    b.with_vertex_shader(Shader::new(ShaderType::Vertex, 1))
        .with_compute_shader(Shader::new(ShaderType::Compute, 3));
    assert_eq!(b.check(), Some(BuildError::IncompatibleStages));
    let (e, cleanup) = b.build(40).unwrap_err();
    assert_eq!(e, BuildError::IncompatibleStages);
    assert_eq!(cleanup, vec![GlCall::DeleteProgram { program: 40 }]);
}

#[test]
fn empty_builder_is_rejected() {
    let b = PipelineBuilder::new();
    let (e, cleanup) = b.build(40).unwrap_err();
    assert_eq!(e, BuildError::NoStages);
    assert_eq!(cleanup, vec![GlCall::DeleteProgram { program: 40 }]);
}

#[test]
fn replacing_a_slot_keeps_the_last_shader() {
    let mut b = PipelineBuilder::new();
    b.with_vertex_shader(Shader::new(ShaderType::Vertex, 1))
        .with_vertex_shader(Shader::new(ShaderType::Vertex, 5));
    let (_, calls) = b.build(9).unwrap();
    assert_eq!(calls[0], GlCall::AttachShader { program: 9, shader: 5 });
    assert_eq!(calls.len(), 4);
    assert_eq!(
        b.release(),
        vec![GlCall::DeleteShader { shader: 1 }, GlCall::DeleteShader { shader: 5 }]
    );
}

#[test]
fn link_failure_deletes_the_program() {
    let p = compute_pipeline(20);
    let (e, cleanup) = p.link_result(0, "no main").unwrap_err();
    assert_eq!(e, BuildError::LinkFailed { log: "no main".to_string() });
    assert_eq!(cleanup, vec![GlCall::DeleteProgram { program: 20 }]);
    let ok = compute_pipeline(21).link_result(1, "").unwrap();
    assert_eq!(ok.get(), 21);
}

#[test]
fn dispatch_needs_a_compute_pipeline() {
    let ctx = GLContext;
    let mut list = ctx.create_command_list();
    assert_eq!(list.get(), 0);
    assert_eq!(list.bound_kind(), None);
    assert_eq!(list.dispatch(1, 1, 1), Err(CommandError::InvalidState));

    let mut b = PipelineBuilder::new();
    b.with_vertex_shader(Shader::new(ShaderType::Vertex, 1));
    let (g, _) = b.build(50).unwrap();
    assert_eq!(list.bind_pipeline(&g), vec![GlCall::UseProgram { program: 50 }]);
    assert_eq!(list.bound_kind(), Some(PipelineType::Graphics));
    assert_eq!(list.dispatch(1, 1, 1), Err(CommandError::InvalidState));

    let c = compute_pipeline(60);
    list.bind_pipeline(&c);
    assert_eq!(list.get(), 60);
    assert_eq!(list.dispatch(8, 4, 2), Ok(vec![GlCall::DispatchCompute { x: 8, y: 4, z: 2 }]));
    ctx.execute_command_list(&list);
}

#[test]
fn unknown_uniform_is_a_silent_no_op() {
    let mut list = GLContext.create_command_list();
    let c = compute_pipeline(60);
    list.bind_pipeline(&c);
    assert_eq!(list.set_uniform(-1, Uniform::Int(3)), vec![]);
    assert_eq!(list.set_uniform(-1, Uniform::Sampler2D(2)), vec![]);
    assert_eq!(list.set_uniform(-1, Uniform::Sampler2D(u32::MAX)), vec![]);
    assert_eq!(list.get(), 60);
    assert_eq!(list.uniform_location("bad\0name"), None);
    assert_eq!(
        list.uniform_location("time"),
        Some(GlCall::GetUniformLocation { program: 60, name: "time".to_string() })
    );
}

#[test]
fn uniform_values_are_issued() {
    let mut list = GLContext.create_command_list();
    assert_eq!(
        list.set_uniform(2, Uniform::Float(1.5f32.to_bits())),
        vec![GlCall::Uniform1f { location: 2, bits: 0x3FC0_0000 }]
    );
    assert_eq!(list.set_uniform(3, Uniform::Int(-7)), vec![GlCall::Uniform1i { location: 3, value: -7 }]);
    assert_eq!(
        list.set_uniform(4, Uniform::Vec2(1.0f32.to_bits(), 2.0f32.to_bits())),
        vec![GlCall::Uniform2f { location: 4, x_bits: 0x3F80_0000, y_bits: 0x4000_0000 }]
    );
    assert_eq!(
        list.set_uniform(5, Uniform::Sampler2D(3)),
        vec![
            GlCall::ActiveTexture { unit: 0x84C3 },
            GlCall::BindTexture { target: 0x0DE1, texture: 3 },
            GlCall::Uniform1i { location: 5, value: 3 },
        ]
    );
}

#[test]
fn all_barrier_combines_the_bits() {
    assert_eq!(MemoryBarrier::AtomicCounter.get(), 0x1000);
    assert_eq!(MemoryBarrier::ShaderStorage.get(), 0x2000);
    assert_eq!(MemoryBarrier::All.get(), 0x3000);
    let mut list = GLContext.create_command_list();
    assert_eq!(list.memory_barrier(MemoryBarrier::All), vec![GlCall::MemoryBarrier { barriers: 0x3000 }]);
}

#[test]
fn clear_and_state_calls() {
    let mut list = GLContext.create_command_list();
    assert_eq!(
        list.clear(Some(Color::new(255, 0, 128, 255))),
        vec![GlCall::ClearColor { r: 255, g: 0, b: 128, a: 255 }, GlCall::Clear { mask: 0x4100 }]
    );
    assert_eq!(list.clear(None), vec![GlCall::Clear { mask: 0x4100 }]);
    assert_eq!(
        list.set_viewport(0, 0, 800, 600),
        vec![GlCall::Viewport { x: 0, y: 0, width: 800, height: 600 }]
    );
    assert_eq!(
        list.set_sampler(1),
        vec![GlCall::ActiveTexture { unit: 0x84C1 }, GlCall::BindTexture { target: 0x0DE1, texture: 1 }]
    );
}

#[test]
fn binding_resources() {
    let mut list = GLContext.create_command_list();
    let rt = RenderTarget::new(7, 8, 4, 4, PixelFormat::RGBA8, 0x8CD5).unwrap();
    assert_eq!(list.bind_rt(&rt), vec![GlCall::BindFramebuffer { target: 0x8D40, framebuffer: 7 }]);
    assert_eq!(
        list.bind_texture(&rt),
        vec![GlCall::BindImageTexture {
            unit: 0,
            texture: 8,
            level: 0,
            layered: false,
            layer: 0,
            access: 0x88B9,
            format: 0x8058,
        }]
    );
    let buf: StructuredBuffer<u32> = StructuredBuffer::new(12, 4);
    assert_eq!(
        list.bind_buffer(&buf, 2),
        vec![GlCall::BindBufferBase { target: 0x90D2, index: 2, buffer: 12 }]
    );
}

#[test]
fn builder_release_deletes_its_shaders() {
    let mut b = PipelineBuilder::new();
    b.with_vertex_shader(Shader::new(ShaderType::Vertex, 1))
        .with_fragment_shader(Shader::new(ShaderType::Fragment, 2));
    assert_eq!(
        b.release(),
        vec![GlCall::DeleteShader { shader: 1 }, GlCall::DeleteShader { shader: 2 }]
    );
    assert_eq!(PipelineBuilder::new().release(), vec![]);
}
