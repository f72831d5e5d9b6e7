//! End-to-end scenarios: initialize, draw frames, and the frame loop's
//! decision.

use tri_pipeline::context::initialize;
use tri_pipeline::context::RenderConfig;
use tri_pipeline::context::RenderMode;
use tri_pipeline::error::RenderError;
use tri_pipeline::frame_loop::next_action;
use tri_pipeline::frame_loop::FrameAction;
use tri_pipeline::frame_loop::SurfaceEvent;
use tri_pipeline::pipeline::AttributeBinding;
use tri_pipeline::pipeline::AttributeDescriptor;
use tri_pipeline::pipeline::ClearColor;
use tri_pipeline::pipeline::DrawPrimitive;
use tri_pipeline::pipeline::IndexKind;
use tri_pipeline::pipeline::PipelineContext;
use tri_pipeline::pipeline::Transition;

const VS_SRC: &[u8] = b"
#version 300 es
layout(location = 0) in vec4 a_position;
void main() {
    gl_Position = a_position;
}
";

const FS_SRC: &[u8] = b"
#version 300 es
precision mediump float;
out vec4 o_fragColor;
void main() {
    o_fragColor = vec4(1.0, 0.0, 0.0, 1.0);
}
";

const FS_BROKEN: &[u8] = b"
#version 300 es
precision mediump float;
out vec4 o_fragColor;
void ma in() {
    o_fragColor = vec4(1.0);
}
";

fn triangle_bytes() -> Vec<u8> {
    let vertices: [f32; 9] = [0.0, 0.5, 0.0, -0.5, -0.5, 0.0, 0.5, -0.5, 0.0];
    let mut bytes = Vec::new();
    for v in vertices.iter() {
        bytes.extend_from_slice(&v.to_le_bytes());
    }
    bytes
}

fn position_layout() -> Vec<AttributeDescriptor> {
    vec![AttributeDescriptor { slot: 0, component_count: 3, stride_bytes: 0, offset_bytes: 0 }]
}

fn black() -> ClearColor {
    ClearColor { red: 0, green: 0, blue: 0, alpha: 255 }
}

fn raw_triangle_config() -> RenderConfig {
    RenderConfig {
        mode: RenderMode::RawPositionTriangle,
        vertex_source: VS_SRC.to_vec(),
        fragment_source: FS_SRC.to_vec(),
        attribute_bindings: vec![AttributeBinding { name: b"a_position".to_vec(), slot: 0 }],
        vertex_data: triangle_bytes(),
        index_data: None,
        layout: position_layout(),
        vertex_count: 3,
        clear_color: black(),
        point_size: 1,
    }
}

fn indexed_triangle_config() -> RenderConfig {
    RenderConfig {
        mode: RenderMode::IndexedTriangles,
        index_data: Some(vec![0u16, 1, 2]),
        ..raw_triangle_config()
    }
}

fn is_draw(t: &Transition) -> bool {
    matches!(t, Transition::DrawArrays { .. } | Transition::DrawElements { .. })
}

#[test]
fn initialize_yields_ready_context() {
    let mut ctx = PipelineContext::new(8);
    let rc = initialize(&mut ctx, &raw_triangle_config()).unwrap();
    assert_ne!(rc.program.handle, 0);
    // The owned program really is linked with a true status flag.
    let program = &ctx.programs[(rc.program.handle - 1) as usize];
    assert!(program.linked);
    assert!(program.link_status);
    // Construction issues no frame transition.
    assert!(ctx.trace.is_empty());
    // The fixed clear color was set.
    assert_eq!(ctx.clear_color, black());
}

#[test]
fn scenario_raw_triangle_draws_three_vertices() {
    let mut ctx = PipelineContext::new(8);
    let rc = initialize(&mut ctx, &raw_triangle_config()).unwrap();
    rc.draw_frame(&mut ctx, 500, 500);
    // Exactly one draw call, over vertex count 3, as a filled triangle.
    let draws: Vec<&Transition> = ctx.trace.iter().filter(|t| is_draw(t)).collect();
    assert_eq!(draws.len(), 1);
    assert_eq!(
        *draws[0],
        Transition::DrawArrays { mode: DrawPrimitive::Triangles, vertex_count: 3 }
    );
    // The frame protocol ran in order on the bound slot.
    assert_eq!(ctx.trace[0], Transition::Viewport { width: 500, height: 500 });
    assert_eq!(ctx.trace[1], Transition::ClearColorBuffer);
    assert_eq!(ctx.trace[2], Transition::BindProgram { program: rc.program.handle });
    assert!(ctx.trace.contains(&Transition::EnableAttribute { slot: 0 }));
}

#[test]
fn scenario_indexed_triangle_draws_three_indices() {
    let mut ctx = PipelineContext::new(8);
    let rc = initialize(&mut ctx, &indexed_triangle_config()).unwrap();
    rc.draw_frame(&mut ctx, 640, 480);
    let draws: Vec<&Transition> = ctx.trace.iter().filter(|t| is_draw(t)).collect();
    assert_eq!(draws.len(), 1);
    assert_eq!(
        *draws[0],
        Transition::DrawElements {
            mode: DrawPrimitive::Triangles,
            index_count: 3,
            index_kind: IndexKind::UnsignedShort,
        }
    );
    // The persistent layout object is bound for the draw and unbound after.
    assert_eq!(ctx.trace[3], Transition::BindLayout { vertex_array: rc.geometry.vertex_array });
    assert_eq!(*ctx.trace.last().unwrap(), Transition::UnbindLayout);
}

#[test]
fn scenario_malformed_fragment_shader_fails_initialize() {
    let mut ctx = PipelineContext::new(8);
    let cfg = RenderConfig { fragment_source: FS_BROKEN.to_vec(), ..raw_triangle_config() };
    let r = initialize(&mut ctx, &cfg);
    match r {
        Err(RenderError::CompileError { stage, log }) => {
            assert!(!log.is_empty());
            assert!(matches!(stage, tri_pipeline::shader::ShaderStage::Fragment));
        },
        _ => panic!("expected the fragment stage to be rejected"),
    }
    // No render context exists and the frame loop is never entered: not a
    // single frame transition was issued.
    assert!(ctx.trace.is_empty());
    // The rejection log reached the diagnostics sink.
    assert_eq!(ctx.diagnostics.len(), 1);
}

#[test]
fn draw_frame_is_idempotent() {
    let mut ctx = PipelineContext::new(8);
    let rc = initialize(&mut ctx, &indexed_triangle_config()).unwrap();
    rc.draw_frame(&mut ctx, 500, 500);
    let first_len = ctx.trace.len();
    rc.draw_frame(&mut ctx, 500, 500);
    // The two frames appended identical transition sequences.
    assert_eq!(ctx.trace[..first_len], ctx.trace[first_len..]);
}

#[test]
fn draw_frame_uses_the_bound_slot() {
    let mut ctx = PipelineContext::new(8);
    let rc = initialize(&mut ctx, &raw_triangle_config()).unwrap();
    // The binding requested before the link is in force...
    let program = &ctx.programs[(rc.program.handle - 1) as usize];
    assert_eq!(program.linked_bindings[0].name, b"a_position".to_vec());
    assert_eq!(program.linked_bindings[0].slot, 0);
    // ...and the draw feeds exactly that slot.
    rc.draw_frame(&mut ctx, 500, 500);
    assert!(ctx.trace.iter().any(|t| matches!(
        t,
        Transition::SetAttributePointer { attribute } if attribute.slot == 0
    )));
}

#[test]
fn scenario_points_variant_draws_points() {
    let cfg = RenderConfig {
        mode: RenderMode::Points,
        index_data: None,
        point_size: 10,
        ..raw_triangle_config()
    };
    let mut ctx = PipelineContext::new(8);
    let rc = initialize(&mut ctx, &cfg).unwrap();
    assert_eq!(rc.geometry.vertex_buffer, 0);
    rc.draw_frame(&mut ctx, 500, 500);
    assert!(ctx.trace.contains(&Transition::SetPointSize { pixels: 10 }));
    assert!(ctx.trace.contains(&Transition::EnableAttribute { slot: 0 }));
    assert_eq!(
        *ctx.trace.last().unwrap(),
        Transition::DrawArrays { mode: DrawPrimitive::Points, vertex_count: 3 }
    );
}

#[test]
fn initialize_fails_when_allocations_run_out() {
    let mut ctx = PipelineContext::new(2);
    let r = initialize(&mut ctx, &raw_triangle_config());
    assert!(matches!(r, Err(RenderError::AllocationFailure)));
}

#[test]
fn draw_frame_accepts_the_largest_viewport() {
    let mut ctx = PipelineContext::new(8);
    let rc = initialize(&mut ctx, &raw_triangle_config()).unwrap();
    rc.draw_frame(&mut ctx, u32::MAX, u32::MAX);
    assert_eq!(ctx.trace[0], Transition::Viewport { width: u32::MAX, height: u32::MAX });
}

#[test]
fn frame_loop_renders_until_closed() {
    assert_eq!(next_action(SurfaceEvent::Tick), FrameAction::RenderAndSwap);
    assert_eq!(next_action(SurfaceEvent::Closed), FrameAction::Stop);
}
