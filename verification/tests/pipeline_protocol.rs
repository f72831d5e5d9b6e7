//! Compile, link and upload protocol tests against the pipeline model.

use tri_pipeline::error::RenderError;
use tri_pipeline::geometry::encode_indices;
use tri_pipeline::geometry::read_back;
use tri_pipeline::geometry::upload;
use tri_pipeline::linker::link;
use tri_pipeline::pipeline::AttributeBinding;
use tri_pipeline::pipeline::AttributeDescriptor;
use tri_pipeline::pipeline::Diagnostic;
use tri_pipeline::pipeline::PipelineContext;
use tri_pipeline::shader::compile;
use tri_pipeline::shader::CompiledShader;
use tri_pipeline::shader::ShaderStage;

const VS_SRC: &[u8] = b"
#version 100
attribute vec3 vPosition;
void main() {
    gl_Position = vec4(vPosition, 1.0);
}
";

const FS_SRC: &[u8] = b"
#version 100
precision mediump float;
void main() {
    gl_FragColor = vec4(1.0, 1.0, 1.0, 1.0);
}
";

const FS_BROKEN: &[u8] = b"
#version 100
precision mediump float;
void moin() {
    gl_FragColor = vec4(1.0);
}
";

fn position_binding() -> Vec<AttributeBinding> {
    vec![AttributeBinding { name: b"vPosition".to_vec(), slot: 0 }]
}

#[test]
fn compile_accepts_valid_source() {
    let mut ctx = PipelineContext::new(8);
    let shader = compile(&mut ctx, ShaderStage::Vertex, &VS_SRC.to_vec()).unwrap();
    assert_eq!(shader.handle, 1);
    assert_eq!(shader.stage, ShaderStage::Vertex);
    assert_eq!(ctx.get_shader_compile_status(shader.handle), 1);
    assert!(ctx.diagnostics.is_empty());
}

#[test]
fn compile_rejects_missing_entry_point() {
    let mut ctx = PipelineContext::new(8);
    let r = compile(&mut ctx, ShaderStage::Fragment, &FS_BROKEN.to_vec());
    match r {
        Err(RenderError::CompileError { stage, log }) => {
            assert_eq!(stage, ShaderStage::Fragment);
            // The pipeline reported a log longer than the bare terminator
            // (the text plus its terminator), so the surfaced log must be
            // non-empty.
            assert!(ctx.get_shader_info_log_length(1) > 1);
            assert_eq!(ctx.get_shader_info_log_length(1), "no entry point".len() + 1);
            assert!(!log.is_empty());
            assert_eq!(log, b"no entry point".to_vec());
        },
        _ => panic!("expected a compile error"),
    }
    // The failed shader object was released, and the log reached the sink.
    assert!(ctx.shaders[0].deleted);
    assert!(matches!(
        &ctx.diagnostics[0],
        Diagnostic::CompileLog { stage: ShaderStage::Fragment, log } if !log.is_empty()
    ));
}

#[test]
fn compile_rejects_empty_source() {
    let mut ctx = PipelineContext::new(8);
    let r = compile(&mut ctx, ShaderStage::Vertex, &Vec::new());
    assert!(matches!(r, Err(RenderError::CompileError { stage: ShaderStage::Vertex, .. })));
}

#[test]
fn compile_reports_allocation_failure() {
    let mut ctx = PipelineContext::new(0);
    let r = compile(&mut ctx, ShaderStage::Vertex, &VS_SRC.to_vec());
    assert!(matches!(r, Err(RenderError::AllocationFailure)));
    assert!(ctx.shaders.is_empty());
}

#[test]
fn link_reports_status_and_releases_shaders() {
    let mut ctx = PipelineContext::new(8);
    let vs = compile(&mut ctx, ShaderStage::Vertex, &VS_SRC.to_vec()).unwrap();
    let fs = compile(&mut ctx, ShaderStage::Fragment, &FS_SRC.to_vec()).unwrap();
    let program = link(&mut ctx, vs, fs, &position_binding()).unwrap();
    assert_eq!(program.handle, 1);
    assert_eq!(ctx.get_program_link_status(program.handle), 1);
    // The raw status is reported even on success.
    assert!(matches!(ctx.diagnostics.last(), Some(Diagnostic::LinkStatus { status: 1 })));
    // Ownership of both stages ended at the link.
    assert!(ctx.shaders[0].deleted);
    assert!(ctx.shaders[1].deleted);
    // The pre-link binding took effect.
    assert_eq!(ctx.programs[0].linked_bindings.len(), 1);
    assert_eq!(ctx.programs[0].linked_bindings[0].name, b"vPosition".to_vec());
    assert_eq!(ctx.programs[0].linked_bindings[0].slot, 0);
}

#[test]
fn link_fails_on_uncompiled_stage() {
    let mut ctx = PipelineContext::new(8);
    // A vertex shader whose compilation failed, kept alive by hand.
    let vh = ctx.create_shader(ShaderStage::Vertex);
    ctx.shader_source(vh, &FS_BROKEN.to_vec());
    ctx.compile_shader(vh);
    assert_eq!(ctx.get_shader_compile_status(vh), 0);
    let vs = CompiledShader { handle: vh, stage: ShaderStage::Vertex };
    let fs = compile(&mut ctx, ShaderStage::Fragment, &FS_SRC.to_vec()).unwrap();
    let r = link(&mut ctx, vs, fs, &position_binding());
    assert!(matches!(r, Err(RenderError::LinkError)));
    assert!(matches!(ctx.diagnostics.last(), Some(Diagnostic::LinkStatus { status: 0 })));
}

#[test]
fn link_reports_allocation_failure() {
    let mut ctx = PipelineContext::new(2);
    let vs = compile(&mut ctx, ShaderStage::Vertex, &VS_SRC.to_vec()).unwrap();
    let fs = compile(&mut ctx, ShaderStage::Fragment, &FS_SRC.to_vec()).unwrap();
    let r = link(&mut ctx, vs, fs, &position_binding());
    assert!(matches!(r, Err(RenderError::AllocationFailure)));
}

#[test]
fn encode_indices_little_endian() {
    let encoded = encode_indices(&vec![0x1234u16, 0xABCD]);
    assert_eq!(encoded, vec![0x34u8, 0x12, 0xCD, 0xAB]);
}

/// Interleaved position-and-color records: 3 + 4 floats, stride 28 bytes.
fn interleaved_vertex_bytes() -> Vec<u8> {
    let vertices: [f32; 21] = [
        0.0, 0.5, 0.0, 1.0, 0.0, 0.0, 1.0, //
        -0.5, -0.5, 0.0, 0.0, 1.0, 0.0, 1.0, //
        0.5, -0.5, 0.0, 0.0, 0.0, 1.0, 1.0,
    ];
    let mut bytes = Vec::new();
    for v in vertices.iter() {
        bytes.extend_from_slice(&v.to_le_bytes());
    }
    bytes
}

fn interleaved_layout() -> Vec<AttributeDescriptor> {
    vec![
        AttributeDescriptor { slot: 0, component_count: 3, stride_bytes: 28, offset_bytes: 0 },
        AttributeDescriptor { slot: 1, component_count: 4, stride_bytes: 28, offset_bytes: 12 },
    ]
}

#[test]
fn upload_round_trip_interleaved_layout() {
    let mut ctx = PipelineContext::new(0);
    let bytes = interleaved_vertex_bytes();
    let indices = Some(vec![0u16, 1, 2]);
    let g = upload(&mut ctx, &bytes, &indices, &interleaved_layout(), true, 3);
    assert_eq!(read_back(&ctx, &g), bytes);
    // The index bytes went in as 16-bit little-endian values.
    assert_eq!(ctx.buffers[(g.index_buffer - 1) as usize].data, vec![0u8, 0, 1, 0, 2, 0]);
    assert_eq!(g.vertex_count, 3);
    assert_eq!(g.index_count, 3);
    // The layout object binds both buffers and both slots.
    let va = &ctx.vertex_arrays[(g.vertex_array - 1) as usize];
    assert_eq!(va.vertex_buffer, g.vertex_buffer);
    assert_eq!(va.index_buffer, g.index_buffer);
    assert_eq!(va.enabled_slots, vec![0u32, 1]);
}

#[test]
fn upload_round_trip_position_only_layout() {
    let mut ctx = PipelineContext::new(0);
    let vertices: [f32; 9] = [0.0, 0.5, 0.0, -0.5, -0.5, 0.0, 0.5, -0.5, 0.0];
    let mut bytes = Vec::new();
    for v in vertices.iter() {
        bytes.extend_from_slice(&v.to_le_bytes());
    }
    let layout = vec![AttributeDescriptor {
        slot: 0,
        component_count: 3,
        stride_bytes: 0,
        offset_bytes: 0,
    }];
    let g = upload(&mut ctx, &bytes, &None, &layout, false, 3);
    assert_eq!(read_back(&ctx, &g), bytes);
    assert_eq!(g.index_buffer, 0);
    assert_eq!(g.vertex_array, 0);
}

#[test]
fn bind_after_link_leaves_link_result_unchanged() {
    let mut ctx = PipelineContext::new(8);
    let vs = compile(&mut ctx, ShaderStage::Vertex, &VS_SRC.to_vec()).unwrap();
    let fs = compile(&mut ctx, ShaderStage::Fragment, &FS_SRC.to_vec()).unwrap();
    let program = link(&mut ctx, vs, fs, &position_binding()).unwrap();
    let status_before = ctx.get_program_link_status(program.handle);
    let bindings_before: Vec<(Vec<u8>, u32)> = ctx.programs[0]
        .linked_bindings
        .iter()
        .map(|b| (b.name.clone(), b.slot))
        .collect();
    // Bind another attribute after the link: it must not change the link
    // result already obtained.
    ctx.bind_attrib_location(program.handle, 7, &b"vLate".to_vec());
    assert_eq!(ctx.get_program_link_status(program.handle), status_before);
    let bindings_after: Vec<(Vec<u8>, u32)> = ctx.programs[0]
        .linked_bindings
        .iter()
        .map(|b| (b.name.clone(), b.slot))
        .collect();
    assert_eq!(bindings_after, bindings_before);
}
