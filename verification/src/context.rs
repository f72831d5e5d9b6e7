//! The render context: one linked program, one immutable geometry, and the
//! `initialize` / `draw_frame` protocol over the pipeline model.

use vstd::prelude::*;
use crate::error::RenderError;
use crate::geometry::GeometryHandle;
use crate::geometry::geometry_consistent;
use crate::geometry::le_bytes;
use crate::geometry::upload;
use crate::linker::LinkedProgram;
use crate::linker::link;
use crate::pipeline::AttributeBinding;
use crate::pipeline::AttributeDescriptor;
use crate::pipeline::ClearColor;
use crate::pipeline::Diagnostic;
use crate::pipeline::DrawPrimitive;
use crate::pipeline::IndexKind;
use crate::pipeline::PipelineContext;
use crate::pipeline::Transition;
use crate::pipeline::bindings_match;
use crate::shader::ShaderStage;
use crate::shader::compile;
use crate::shader::compile_failure_log;
use crate::shader::source_accepted;

verus! {

/// Which draw call and which geometry path one demo variant uses.
#[derive(Clone, Copy, PartialEq, Eq, Structural, Debug)]
pub enum RenderMode {
    /// Indexed triangles through a persistent layout object.
    IndexedTriangles,
    /// A raw triangle from a plain vertex buffer, re-specifying the
    /// attribute pointers each frame (the slower, legacy path).
    RawPositionTriangle,
    /// Points from client-side per-frame vertex data, with no persistent
    /// geometry at all.
    Points,
}

/// Everything `initialize` needs: the two stage sources, the attribute
/// bindings to request before linking, the geometry and its layout, and the
/// fixed render settings.
pub struct RenderConfig {
    pub mode: RenderMode,
    pub vertex_source: Vec<u8>,
    pub fragment_source: Vec<u8>,
    pub attribute_bindings: Vec<AttributeBinding>,
    pub vertex_data: Vec<u8>,
    pub index_data: Option<Vec<u16>>,
    pub layout: Vec<AttributeDescriptor>,
    pub vertex_count: u32,
    pub clear_color: ClearColor,
    pub point_size: u32,
}

impl RenderConfig {
    /// The caller-supplied consistency contract: the layout describes the
    /// vertex bytes, and an index list is given exactly in indexed mode
    /// (within machine limits).
    pub open spec fn wf(self) -> bool {
        &&& geometry_consistent(self.layout@, self.vertex_data@.len() as int, self.vertex_count)
        &&& match self.mode {
            RenderMode::IndexedTriangles => match self.index_data {
                Some(ix) => ix@.len() <= u32::MAX && ix@.len() * 2 <= usize::MAX,
                None => false,
            },
            RenderMode::RawPositionTriangle => self.index_data is None,
            RenderMode::Points => self.index_data is None,
        }
    }
}

/// A ready render context: owns exactly one linked program and one
/// geometry.  Created only by [`initialize`]; read-only during the frame
/// loop.  In `Points` mode the geometry handles are all zero: the vertex
/// data stays client-side and only the vertex count is kept.
pub struct RenderContext {
    pub mode: RenderMode,
    pub program: LinkedProgram,
    pub geometry: GeometryHandle,
    pub layout: Vec<AttributeDescriptor>,
    pub point_size: u32,
}

impl RenderContext {
    /// The `Ready` state: the program is linked with a true status flag and
    /// the geometry this mode draws from exists in the pipeline.
    pub open spec fn ready(self, d: PipelineContext) -> bool {
        &&& self.program.handle != 0
        &&& d.valid_program(self.program.handle)
        &&& d.program_at(self.program.handle).linked
        &&& d.program_at(self.program.handle).link_status
        &&& match self.mode {
            RenderMode::IndexedTriangles => {
                &&& d.valid_buffer(self.geometry.vertex_buffer)
                &&& d.valid_buffer(self.geometry.index_buffer)
                &&& d.valid_vertex_array(self.geometry.vertex_array)
            },
            RenderMode::RawPositionTriangle => {
                &&& d.valid_buffer(self.geometry.vertex_buffer)
                &&& self.geometry.vertex_array == 0
            },
            RenderMode::Points => {
                &&& self.geometry.vertex_buffer == 0
                &&& self.geometry.vertex_array == 0
            },
        }
    }
}

/// The transitions that setting one attribute pointer contributes, with the
/// enable call on the client-side path.
pub open spec fn pointer_unit(a: AttributeDescriptor, enable: bool) -> Seq<Transition> {
    if enable {
        seq![
            Transition::SetAttributePointer { attribute: a },
            Transition::EnableAttribute { slot: a.slot },
        ]
    } else {
        seq![Transition::SetAttributePointer { attribute: a }]
    }
}

/// The transitions that re-specifying a whole layout contributes, in slot
/// order.
pub open spec fn pointer_setup(layout: Seq<AttributeDescriptor>, enable: bool) -> Seq<Transition>
    decreases layout.len(),
{
    if layout.len() == 0 {
        Seq::empty()
    } else {
        pointer_unit(layout[0], enable) + pointer_setup(layout.skip(1), enable)
    }
}

proof fn lemma_pointer_setup_push(layout: Seq<AttributeDescriptor>, a: AttributeDescriptor, enable: bool)
    ensures
        pointer_setup(layout.push(a), enable) == pointer_setup(layout, enable) + pointer_unit(
            a,
            enable,
        ),
    decreases layout.len(),
{
    if layout.len() == 0 {
        assert(layout.push(a)[0] == a);
        assert(layout.push(a).skip(1) =~= Seq::<AttributeDescriptor>::empty());
        assert(pointer_setup(layout.push(a), enable) == pointer_unit(a, enable) + pointer_setup(
            Seq::<AttributeDescriptor>::empty(),
            enable,
        ));
        assert(pointer_unit(a, enable) + Seq::<Transition>::empty() =~= pointer_unit(a, enable));
        assert(pointer_setup(layout, enable) + pointer_unit(a, enable) =~= pointer_unit(a, enable));
    } else {
        assert(layout.push(a)[0] == layout[0]);
        assert(layout.push(a).skip(1) =~= layout.skip(1).push(a));
        lemma_pointer_setup_push(layout.skip(1), a, enable);
        assert(pointer_setup(layout.push(a), enable) == pointer_unit(layout[0], enable) + (
        pointer_setup(layout.skip(1), enable) + pointer_unit(a, enable)));
        assert(pointer_unit(layout[0], enable) + (pointer_setup(layout.skip(1), enable)
            + pointer_unit(a, enable)) =~= (pointer_unit(layout[0], enable) + pointer_setup(
            layout.skip(1),
            enable,
        )) + pointer_unit(a, enable));
    }
}

/// Enabling one slot in the set of enabled attributes: idempotent.
pub open spec fn enable_one(e: Seq<u32>, slot: u32) -> Seq<u32> {
    if e.contains(slot) {
        e
    } else {
        e.push(slot)
    }
}

/// The enabled attributes after enabling every slot of `layout` in order.
pub open spec fn enable_fold(e: Seq<u32>, layout: Seq<AttributeDescriptor>) -> Seq<u32>
    decreases layout.len(),
{
    if layout.len() == 0 {
        e
    } else {
        enable_fold(enable_one(e, layout[0].slot), layout.skip(1))
    }
}

proof fn lemma_enable_fold_push(e: Seq<u32>, layout: Seq<AttributeDescriptor>, a: AttributeDescriptor)
    ensures
        enable_fold(e, layout.push(a)) == enable_one(enable_fold(e, layout), a.slot),
    decreases layout.len(),
{
    if layout.len() == 0 {
        assert(layout.push(a)[0] == a);
        assert(layout.push(a).skip(1) =~= Seq::<AttributeDescriptor>::empty());
        assert(enable_fold(e, layout.push(a)) == enable_fold(
            enable_one(e, a.slot),
            Seq::<AttributeDescriptor>::empty(),
        ));
        assert(enable_fold(enable_one(e, a.slot), Seq::<AttributeDescriptor>::empty())
            == enable_one(e, a.slot));
        assert(enable_fold(e, layout) == e);
    } else {
        assert(layout.push(a)[0] == layout[0]);
        assert(layout.push(a).skip(1) =~= layout.skip(1).push(a));
        lemma_enable_fold_push(enable_one(e, layout[0].slot), layout.skip(1), a);
        assert(enable_fold(e, layout.push(a)) == enable_fold(
            enable_one(e, layout[0].slot),
            layout.skip(1).push(a),
        ));
        assert(enable_fold(e, layout) == enable_fold(enable_one(e, layout[0].slot), layout.skip(1)));
    }
}

proof fn lemma_enable_fold_superset(e: Seq<u32>, layout: Seq<AttributeDescriptor>)
    ensures
        forall|s: u32| e.contains(s) ==> #[trigger] enable_fold(e, layout).contains(s),
        forall|i: int|
            0 <= i < layout.len() ==> enable_fold(e, layout).contains(#[trigger] layout[i].slot),
    decreases layout.len(),
{
    if layout.len() > 0 {
        let e1 = enable_one(e, layout[0].slot);
        assert forall|s: u32| e.contains(s) implies e1.contains(s) by {
            let i = choose|i: int| 0 <= i < e.len() && e[i] == s;
            assert(e1[i] == s);
        }
        if !e.contains(layout[0].slot) {
            assert(e1[e.len() as int] == layout[0].slot);
        }
        assert(e1.contains(layout[0].slot));
        lemma_enable_fold_superset(e1, layout.skip(1));
        assert(enable_fold(e, layout) == enable_fold(e1, layout.skip(1)));
        assert forall|s: u32| e.contains(s) implies #[trigger] enable_fold(e, layout).contains(
            s,
        ) by {
            assert(e1.contains(s));
            assert(enable_fold(e1, layout.skip(1)).contains(s));
        }
        assert forall|i: int|
            0 <= i < layout.len() implies enable_fold(e, layout).contains(
            #[trigger] layout[i].slot,
        ) by {
            if i == 0 {
                assert(enable_fold(e1, layout.skip(1)).contains(layout[0].slot));
            } else {
                assert(layout.skip(1)[i - 1] == layout[i]);
                assert(enable_fold(e1, layout.skip(1)).contains(layout.skip(1)[i - 1].slot));
            }
        }
    }
}

proof fn lemma_enable_fold_noop(e: Seq<u32>, layout: Seq<AttributeDescriptor>)
    requires
        forall|i: int| 0 <= i < layout.len() ==> e.contains(#[trigger] layout[i].slot),
    ensures
        enable_fold(e, layout) == e,
    decreases layout.len(),
{
    if layout.len() > 0 {
        assert(enable_one(e, layout[0].slot) == e);
        assert(forall|i: int|
            0 <= i < layout.skip(1).len() ==> e.contains(#[trigger] layout.skip(1)[i].slot)) by {
            assert(forall|i: int|
                0 <= i < layout.skip(1).len() ==> layout.skip(1)[i] == #[trigger] layout[i + 1]);
        }
        lemma_enable_fold_noop(e, layout.skip(1));
    }
}

/// The exact transition sequence one frame appends to the trace: viewport,
/// clear, program bind, then the mode's geometry path and its single draw
/// call.
pub open spec fn frame_trace(rc: RenderContext, width: u32, height: u32) -> Seq<Transition> {
    let head = seq![
        Transition::Viewport { width, height },
        Transition::ClearColorBuffer,
        Transition::BindProgram { program: rc.program.handle },
    ];
    match rc.mode {
        RenderMode::IndexedTriangles => head + seq![
            Transition::BindLayout { vertex_array: rc.geometry.vertex_array },
            Transition::DrawElements {
                mode: DrawPrimitive::Triangles,
                index_count: rc.geometry.index_count,
                index_kind: IndexKind::UnsignedShort,
            },
            Transition::UnbindLayout,
        ],
        RenderMode::RawPositionTriangle => head + seq![
            Transition::BindArrayBuffer { buffer: rc.geometry.vertex_buffer },
        ] + pointer_setup(rc.layout@, true) + seq![
            Transition::DrawArrays {
                mode: DrawPrimitive::Triangles,
                vertex_count: rc.geometry.vertex_count,
            },
        ],
        RenderMode::Points => head + pointer_setup(rc.layout@, true) + seq![
            Transition::SetPointSize { pixels: rc.point_size },
            Transition::DrawArrays {
                mode: DrawPrimitive::Points,
                vertex_count: rc.geometry.vertex_count,
            },
        ],
    }
}

/// Whether a transition is a draw call.
pub open spec fn is_draw_call(t: Transition) -> bool {
    match t {
        Transition::DrawArrays { .. } => true,
        Transition::DrawElements { .. } => true,
        _ => false,
    }
}

/// The draw calls among a transition sequence, in order.
pub open spec fn draw_calls(s: Seq<Transition>) -> Seq<Transition> {
    s.filter(|t: Transition| is_draw_call(t))
}

/// The single draw call a context's mode issues each frame.
pub open spec fn frame_draw_call(rc: RenderContext) -> Transition {
    match rc.mode {
        RenderMode::IndexedTriangles => Transition::DrawElements {
            mode: DrawPrimitive::Triangles,
            index_count: rc.geometry.index_count,
            index_kind: IndexKind::UnsignedShort,
        },
        RenderMode::RawPositionTriangle => Transition::DrawArrays {
            mode: DrawPrimitive::Triangles,
            vertex_count: rc.geometry.vertex_count,
        },
        RenderMode::Points => Transition::DrawArrays {
            mode: DrawPrimitive::Points,
            vertex_count: rc.geometry.vertex_count,
        },
    }
}

proof fn lemma_pointer_setup_no_draws(layout: Seq<AttributeDescriptor>, enable: bool)
    ensures
        draw_calls(pointer_setup(layout, enable)) =~= Seq::<Transition>::empty(),
    decreases layout.len(),
{
    reveal_with_fuel(Seq::<Transition>::filter, 4);
    if layout.len() == 0 {
    } else {
        lemma_pointer_setup_no_draws(layout.skip(1), enable);
        Seq::<Transition>::filter_distributes_over_add(
            pointer_unit(layout[0], enable),
            pointer_setup(layout.skip(1), enable),
            |t: Transition| is_draw_call(t),
        );
        assert(draw_calls(pointer_unit(layout[0], enable)) =~= Seq::<Transition>::empty());
    }
}

/// Law: every frame issues exactly one draw call — `drawElements` over the
/// fixed index count where an index buffer exists, `drawArrays` over the
/// vertex count otherwise, in the mode's primitive.
pub proof fn lemma_one_draw_call_per_frame(rc: RenderContext, width: u32, height: u32)
    ensures
        draw_calls(frame_trace(rc, width, height)) == seq![frame_draw_call(rc)],
{
    reveal_with_fuel(Seq::<Transition>::filter, 7);
    let pred = |t: Transition| is_draw_call(t);
    let head = seq![
        Transition::Viewport { width, height },
        Transition::ClearColorBuffer,
        Transition::BindProgram { program: rc.program.handle },
    ];
    assert(head.filter(pred) =~= Seq::<Transition>::empty());
    match rc.mode {
        RenderMode::IndexedTriangles => {
            let tail = seq![
                Transition::BindLayout { vertex_array: rc.geometry.vertex_array },
                frame_draw_call(rc),
                Transition::UnbindLayout,
            ];
            Seq::<Transition>::filter_distributes_over_add(head, tail, pred);
            assert(tail.filter(pred) =~= seq![frame_draw_call(rc)]);
            assert(draw_calls(frame_trace(rc, width, height)) =~= seq![frame_draw_call(rc)]);
        },
        RenderMode::RawPositionTriangle => {
            let bind = seq![Transition::BindArrayBuffer { buffer: rc.geometry.vertex_buffer }];
            let setup = pointer_setup(rc.layout@, true);
            let tail = seq![frame_draw_call(rc)];
            Seq::<Transition>::filter_distributes_over_add(head + bind + setup, tail, pred);
            Seq::<Transition>::filter_distributes_over_add(head + bind, setup, pred);
            Seq::<Transition>::filter_distributes_over_add(head, bind, pred);
            lemma_pointer_setup_no_draws(rc.layout@, true);
            assert(bind.filter(pred) =~= Seq::<Transition>::empty());
            assert(tail.filter(pred) =~= seq![frame_draw_call(rc)]);
            assert(draw_calls(frame_trace(rc, width, height)) =~= seq![frame_draw_call(rc)]);
        },
        RenderMode::Points => {
            let setup = pointer_setup(rc.layout@, true);
            let tail = seq![
                Transition::SetPointSize { pixels: rc.point_size },
                frame_draw_call(rc),
            ];
            Seq::<Transition>::filter_distributes_over_add(head + setup, tail, pred);
            Seq::<Transition>::filter_distributes_over_add(head, setup, pred);
            lemma_pointer_setup_no_draws(rc.layout@, true);
            assert(tail.filter(pred) =~= seq![frame_draw_call(rc)]);
            assert(draw_calls(frame_trace(rc, width, height)) =~= seq![frame_draw_call(rc)]);
        },
    }
}

/// Exactly what one `draw_frame` call does to the pipeline: it appends the
/// frame's transitions to the trace, leaves the ambient state where the
/// frame protocol puts it, and touches nothing else — no object store, no
/// allocation, no diagnostic.
pub open spec fn draw_frame_post(
    pre: PipelineContext,
    post: PipelineContext,
    rc: RenderContext,
    width: u32,
    height: u32,
) -> bool {
    &&& post.trace@ == pre.trace@ + frame_trace(rc, width, height)
    &&& post.viewport_width == width
    &&& post.viewport_height == height
    &&& post.current_program == rc.program.handle
    &&& post.bound_vertex_array == match rc.mode {
        RenderMode::IndexedTriangles => 0u32,
        _ => pre.bound_vertex_array,
    }
    &&& post.bound_array_buffer == match rc.mode {
        RenderMode::RawPositionTriangle => rc.geometry.vertex_buffer,
        _ => pre.bound_array_buffer,
    }
    &&& post.point_size == match rc.mode {
        RenderMode::Points => rc.point_size,
        _ => pre.point_size,
    }
    &&& post.enabled_attributes@ == match rc.mode {
        RenderMode::IndexedTriangles => pre.enabled_attributes@,
        _ => enable_fold(pre.enabled_attributes@, rc.layout@),
    }
    &&& post.clear_color == pre.clear_color
    &&& PipelineContext::same_objects(pre, post)
    &&& post.diagnostics@ == pre.diagnostics@
}

impl RenderContext {
    /// Renders one frame: sets the viewport to `(0, 0, width, height)`,
    /// clears the color buffer, binds the program, feeds the geometry
    /// through the mode's path, and issues exactly one draw call.  Requires
    /// `Ready`; has no return value, cannot fail, and never mutates owned
    /// state, so it is safely repeatable.
    pub fn draw_frame(&self, ctx: &mut PipelineContext, width: u32, height: u32)
        requires
            old(ctx).wf(),
            self.ready(*old(ctx)),
        ensures
            final(ctx).wf(),
            self.ready(*final(ctx)),
            draw_frame_post(*old(ctx), *final(ctx), *self, width, height),
    {
        ctx.set_viewport(width, height);
        ctx.clear();
        ctx.use_program(self.program.handle);
        match self.mode {
            RenderMode::IndexedTriangles => {
                ctx.bind_vertex_array(self.geometry.vertex_array);
                ctx.draw_elements(DrawPrimitive::Triangles, self.geometry.index_count);
                ctx.unbind_vertex_array();
                proof {
                    assert(ctx.trace@ =~= old(ctx).trace@ + frame_trace(*self, width, height));
                }
            },
            RenderMode::RawPositionTriangle => {
                ctx.bind_array_buffer(self.geometry.vertex_buffer);
                let ghost base = ctx.trace@;
                let mut i: usize = 0;
                while i < self.layout.len()
                    invariant
                        ctx.wf(),
                        i <= self.layout@.len(),
                        ctx.trace@ == base + pointer_setup(self.layout@.take(i as int), true),
                        PipelineContext::same_objects(*old(ctx), *ctx),
                        ctx.diagnostics@ == old(ctx).diagnostics@,
                        ctx.clear_color == old(ctx).clear_color,
                        ctx.viewport_width == width,
                        ctx.viewport_height == height,
                        ctx.point_size == old(ctx).point_size,
                        ctx.current_program == self.program.handle,
                        ctx.bound_vertex_array == old(ctx).bound_vertex_array,
                        ctx.bound_array_buffer == self.geometry.vertex_buffer,
                        ctx.enabled_attributes@ == enable_fold(
                            old(ctx).enabled_attributes@,
                            self.layout@.take(i as int),
                        ),
                    decreases self.layout@.len() - i,
                {
                    ctx.set_attribute_pointer(self.layout[i]);
                    ctx.enable_attribute(self.layout[i].slot);
                    proof {
                        lemma_pointer_setup_push(
                            self.layout@.take(i as int),
                            self.layout@[i as int],
                            true,
                        );
                        lemma_enable_fold_push(
                            old(ctx).enabled_attributes@,
                            self.layout@.take(i as int),
                            self.layout@[i as int],
                        );
                        assert(self.layout@.take(i as int).push(self.layout@[i as int])
                            =~= self.layout@.take(i as int + 1));
                        assert(ctx.trace@ =~= base + pointer_setup(
                            self.layout@.take(i as int + 1),
                            true,
                        ));
                    }
                    i = i + 1;
                }
                ctx.draw_arrays(DrawPrimitive::Triangles, self.geometry.vertex_count);
                proof {
                    assert(self.layout@.take(self.layout@.len() as int) =~= self.layout@);
                    assert(ctx.trace@ =~= old(ctx).trace@ + frame_trace(*self, width, height));
                }
            },
            RenderMode::Points => {
                let ghost base = ctx.trace@;
                let mut i: usize = 0;
                while i < self.layout.len()
                    invariant
                        ctx.wf(),
                        i <= self.layout@.len(),
                        ctx.trace@ == base + pointer_setup(self.layout@.take(i as int), true),
                        PipelineContext::same_objects(*old(ctx), *ctx),
                        ctx.diagnostics@ == old(ctx).diagnostics@,
                        ctx.clear_color == old(ctx).clear_color,
                        ctx.viewport_width == width,
                        ctx.viewport_height == height,
                        ctx.point_size == old(ctx).point_size,
                        ctx.current_program == self.program.handle,
                        ctx.bound_vertex_array == old(ctx).bound_vertex_array,
                        ctx.bound_array_buffer == old(ctx).bound_array_buffer,
                        ctx.enabled_attributes@ == enable_fold(
                            old(ctx).enabled_attributes@,
                            self.layout@.take(i as int),
                        ),
                    decreases self.layout@.len() - i,
                {
                    ctx.set_attribute_pointer(self.layout[i]);
                    ctx.enable_attribute(self.layout[i].slot);
                    proof {
                        lemma_pointer_setup_push(
                            self.layout@.take(i as int),
                            self.layout@[i as int],
                            true,
                        );
                        lemma_enable_fold_push(
                            old(ctx).enabled_attributes@,
                            self.layout@.take(i as int),
                            self.layout@[i as int],
                        );
                        assert(self.layout@.take(i as int).push(self.layout@[i as int])
                            =~= self.layout@.take(i as int + 1));
                        assert(ctx.trace@ =~= base + pointer_setup(
                            self.layout@.take(i as int + 1),
                            true,
                        ));
                    }
                    i = i + 1;
                }
                ctx.set_point_size(self.point_size);
                ctx.draw_arrays(DrawPrimitive::Points, self.geometry.vertex_count);
                proof {
                    assert(self.layout@.take(self.layout@.len() as int) =~= self.layout@);
                    assert(ctx.trace@ =~= old(ctx).trace@ + frame_trace(*self, width, height));
                }
            },
        }
    }
}

/// A copy of an attribute layout.
fn clone_layout(v: &Vec<AttributeDescriptor>) -> (r: Vec<AttributeDescriptor>)
    ensures
        r@ == v@,
{
    let mut out: Vec<AttributeDescriptor> = Vec::new();
    let mut i: usize = 0;
    while i < v.len()
        invariant
            i <= v@.len(),
            out@ == v@.take(i as int),
        decreases v@.len() - i,
    {
        out.push(v[i]);
        proof {
            assert(out@ =~= v@.take(i as int + 1));
        }
        i = i + 1;
    }
    proof {
        assert(v@.take(v@.len() as int) =~= v@);
    }
    out
}

/// When construction succeeds: three object allocations are granted and
/// both stage sources are accepted by the compilation rule.
pub open spec fn initialize_succeeds(pre: PipelineContext, cfg: RenderConfig) -> bool {
    &&& pre.alloc_budget >= 3
    &&& source_accepted(cfg.vertex_source@)
    &&& source_accepted(cfg.fragment_source@)
}

/// What a successful [`initialize`] leaves behind: a ready context whose
/// program carries the requested bindings, whose geometry holds exactly the
/// caller's bytes, the fixed clear color set, one link-status diagnostic
/// emitted, and not a single frame transition in the trace.
pub open spec fn initialize_ok_post(
    pre: PipelineContext,
    post: PipelineContext,
    cfg: RenderConfig,
    rc: RenderContext,
) -> bool {
    &&& rc.ready(post)
    &&& rc.program.handle != 0
    &&& rc.mode == cfg.mode
    &&& rc.layout@ == cfg.layout@
    &&& rc.point_size == cfg.point_size
    &&& rc.geometry.vertex_count == cfg.vertex_count
    &&& bindings_match(
        post.program_at(rc.program.handle).linked_bindings@,
        cfg.attribute_bindings@,
    )
    &&& post.clear_color == cfg.clear_color
    &&& match cfg.mode {
        RenderMode::IndexedTriangles => {
            &&& post.buffer_at(rc.geometry.vertex_buffer).data@ == cfg.vertex_data@
            &&& match cfg.index_data {
                Some(ix) => post.buffer_at(rc.geometry.index_buffer).data@ == le_bytes(ix@)
                    && rc.geometry.index_count as int == ix@.len(),
                None => false,
            }
            &&& post.vertex_array_at(rc.geometry.vertex_array).vertex_buffer
                == rc.geometry.vertex_buffer
            &&& post.vertex_array_at(rc.geometry.vertex_array).index_buffer
                == rc.geometry.index_buffer
            &&& post.vertex_array_at(rc.geometry.vertex_array).attributes@ == cfg.layout@
        },
        RenderMode::RawPositionTriangle => {
            &&& post.buffer_at(rc.geometry.vertex_buffer).data@ == cfg.vertex_data@
            &&& rc.geometry.index_buffer == 0
            &&& rc.geometry.index_count == 0
        },
        RenderMode::Points => rc.geometry == (GeometryHandle {
            vertex_buffer: 0,
            index_buffer: 0,
            vertex_array: 0,
            vertex_count: cfg.vertex_count,
            index_count: 0,
        }),
    }
    &&& post.trace@ == pre.trace@
    &&& post.diagnostics@.len() == pre.diagnostics@.len() + 1
    &&& match post.diagnostics@.last() {
        Diagnostic::LinkStatus { status } => status == 1,
        _ => false,
    }
    &&& post.alloc_budget == pre.alloc_budget - 3
}

/// Which error [`initialize`] returns, for every input on which it fails:
/// the first step to go wrong decides, in protocol order — vertex shader
/// allocation, vertex compile, fragment shader allocation, fragment
/// compile, program allocation.
pub open spec fn initialize_error(pre: PipelineContext, cfg: RenderConfig, e: RenderError) -> bool {
    let b = pre.alloc_budget;
    let vertex_ok = source_accepted(cfg.vertex_source@);
    let fragment_ok = source_accepted(cfg.fragment_source@);
    if b == 0 {
        e is AllocationFailure
    } else if !vertex_ok {
        match e {
            RenderError::CompileError { stage, log } => stage == ShaderStage::Vertex && log@
                == compile_failure_log(),
            _ => false,
        }
    } else if b == 1 {
        e is AllocationFailure
    } else if !fragment_ok {
        match e {
            RenderError::CompileError { stage, log } => stage == ShaderStage::Fragment && log@
                == compile_failure_log(),
            _ => false,
        }
    } else {
        b == 2 && e is AllocationFailure
    }
}

/// Builds the one render context: compiles the vertex stage, then the
/// fragment stage (a vertex failure short-circuits), links the program with
/// the requested attribute bindings bound before the link, uploads the
/// geometry of the chosen mode, and sets the fixed clear color.
///
/// The whole construction fails — returning the first step's error, with no
/// partial object observable — unless every step succeeds; it succeeds
/// exactly when three allocations are granted and both sources are
/// accepted.  No frame transition is issued either way: entering the frame
/// loop is the caller's decision.
pub fn initialize(ctx: &mut PipelineContext, cfg: &RenderConfig) -> (r: Result<
    RenderContext,
    RenderError,
>)
    requires
        old(ctx).wf(),
        cfg.wf(),
        old(ctx).buffers@.len() + 2 <= u32::MAX,
        old(ctx).vertex_arrays@.len() + 1 <= u32::MAX,
    ensures
        final(ctx).wf(),
        r is Ok <==> initialize_succeeds(*old(ctx), *cfg),
        match r {
            Ok(rc) => initialize_ok_post(*old(ctx), *final(ctx), *cfg, rc),
            Err(e) => {
                &&& initialize_error(*old(ctx), *cfg, e)
                &&& final(ctx).trace@ == old(ctx).trace@
                &&& match e {
                    // A rejected stage surfaces its log to the sink.
                    RenderError::CompileError { stage, .. } => {
                        &&& final(ctx).diagnostics@.len() == old(ctx).diagnostics@.len() + 1
                        &&& match final(ctx).diagnostics@.last() {
                            Diagnostic::CompileLog { stage: st, log } => st == stage && log@
                                == compile_failure_log(),
                            _ => false,
                        }
                    },
                    // Exhaustion is detected before anything is reported.
                    _ => final(ctx).diagnostics@ == old(ctx).diagnostics@,
                }
            },
        },
{
    let vertex = match compile(ctx, ShaderStage::Vertex, &cfg.vertex_source) {
        Ok(s) => s,
        Err(e) => {
            return Err(e);
        },
    };
    let fragment = match compile(ctx, ShaderStage::Fragment, &cfg.fragment_source) {
        Ok(s) => s,
        Err(e) => {
            return Err(e);
        },
    };
    let program = match link(ctx, vertex, fragment, &cfg.attribute_bindings) {
        Ok(p) => p,
        Err(e) => {
            return Err(e);
        },
    };
    let geometry = match cfg.mode {
        RenderMode::IndexedTriangles => upload(
            ctx,
            &cfg.vertex_data,
            &cfg.index_data,
            &cfg.layout,
            true,
            cfg.vertex_count,
        ),
        RenderMode::RawPositionTriangle => upload(
            ctx,
            &cfg.vertex_data,
            &cfg.index_data,
            &cfg.layout,
            false,
            cfg.vertex_count,
        ),
        RenderMode::Points => GeometryHandle {
            vertex_buffer: 0,
            index_buffer: 0,
            vertex_array: 0,
            vertex_count: cfg.vertex_count,
            index_count: 0,
        },
    };
    ctx.set_clear_color(cfg.clear_color);
    Ok(
        RenderContext {
            mode: cfg.mode,
            program,
            geometry,
            layout: clone_layout(&cfg.layout),
            point_size: cfg.point_size,
        },
    )
}

/// Law: `draw_frame` is idempotent.  Two calls with identical dimensions
/// append identical transition sequences — the same viewport, clear, bind,
/// draw and unbind steps — and the second call leaves every piece of
/// pipeline state exactly where the first left it (only the trace log
/// grows).
pub proof fn lemma_draw_frame_idempotent(
    d0: PipelineContext,
    d1: PipelineContext,
    d2: PipelineContext,
    rc: RenderContext,
    width: u32,
    height: u32,
)
    requires
        draw_frame_post(d0, d1, rc, width, height),
        draw_frame_post(d1, d2, rc, width, height),
    ensures
        d2.trace@.skip(d1.trace@.len() as int) == d1.trace@.skip(d0.trace@.len() as int),
        d2.trace@ == d0.trace@ + frame_trace(rc, width, height) + frame_trace(rc, width, height),
        PipelineContext::same_objects(d1, d2),
        PipelineContext::same_render_state(d1, d2),
        d2.diagnostics@ == d1.diagnostics@,
{
    let ft = frame_trace(rc, width, height);
    assert(d2.trace@ =~= d0.trace@ + ft + ft);
    assert(d1.trace@.skip(d0.trace@.len() as int) =~= ft);
    assert(d2.trace@.skip(d1.trace@.len() as int) =~= ft);
    match rc.mode {
        RenderMode::IndexedTriangles => {},
        _ => {
            lemma_enable_fold_superset(d0.enabled_attributes@, rc.layout@);
            lemma_enable_fold_noop(d1.enabled_attributes@, rc.layout@);
        },
    }
}

} // verus!
