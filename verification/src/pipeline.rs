//! An explicit model of the graphics pipeline's mutable state.
//!
//! The underlying graphics API is a shared mutable state machine bound to the
//! current thread.  [`PipelineContext`] models that state machine as a plain
//! value: object stores for shaders, programs, buffers and vertex-array
//! objects, the ambient bind state, and a log of the observable per-frame
//! transitions (`trace`) and diagnostic emissions (`diagnostics`).
//!
//! Shader and program allocation can be refused (a zero handle) once the
//! device's allocation budget is exhausted; buffer and vertex-array names are
//! always granted, as the underlying API does.

use vstd::prelude::*;
use crate::shader::ShaderStage;

verus! {

/// One binding of a semantic attribute name to a fixed attribute slot.
pub struct AttributeBinding {
    pub name: Vec<u8>,
    pub slot: u32,
}

/// How one attribute slot reads the interleaved vertex records:
/// `component_count` floats per vertex, `stride_bytes` between records
/// (0 means tightly packed), starting at `offset_bytes`.
#[derive(Clone, Copy, PartialEq, Eq, Structural, Debug)]
pub struct AttributeDescriptor {
    pub slot: u32,
    pub component_count: u32,
    pub stride_bytes: u32,
    pub offset_bytes: u32,
}

/// The fixed clear color, one byte per channel.
#[derive(Clone, Copy, PartialEq, Eq, Structural, Debug)]
pub struct ClearColor {
    pub red: u8,
    pub green: u8,
    pub blue: u8,
    pub alpha: u8,
}

/// The primitive a draw call assembles.
#[derive(Clone, Copy, PartialEq, Eq, Structural, Debug)]
pub enum DrawPrimitive {
    Triangles,
    Points,
}

/// The element type of an index buffer.  The core only ever uploads
/// 16-bit indices.
#[derive(Clone, Copy, PartialEq, Eq, Structural, Debug)]
pub enum IndexKind {
    UnsignedShort,
}

/// One observable pipeline state transition.  A frame is the exact sequence
/// of these that `draw_frame` appends to the trace.
#[derive(Clone, Copy, PartialEq, Eq, Structural, Debug)]
pub enum Transition {
    Viewport { width: u32, height: u32 },
    ClearColorBuffer,
    BindProgram { program: u32 },
    BindLayout { vertex_array: u32 },
    UnbindLayout,
    BindArrayBuffer { buffer: u32 },
    SetAttributePointer { attribute: AttributeDescriptor },
    EnableAttribute { slot: u32 },
    SetPointSize { pixels: u32 },
    DrawArrays { mode: DrawPrimitive, vertex_count: u32 },
    DrawElements { mode: DrawPrimitive, index_count: u32, index_kind: IndexKind },
}

/// One entry written to the diagnostics sink.
#[derive(Debug)]
pub enum Diagnostic {
    /// The info log of a failed shader compilation.
    CompileLog { stage: ShaderStage, log: Vec<u8> },
    /// The raw link-status value, reported on every link for observability.
    LinkStatus { status: i32 },
}

/// A shader object as the pipeline holds it.
pub struct ShaderObject {
    pub stage: ShaderStage,
    pub source: Vec<u8>,
    pub compiled: bool,
    pub info_log: Vec<u8>,
    pub deleted: bool,
}

/// A program object: attached stages (0 = none), the attribute bindings
/// requested so far, and the outcome of the most recent link.
/// `linked_bindings` is the snapshot of `pending_bindings` taken when the
/// program was last linked: bindings requested later have no effect on it.
pub struct ProgramObject {
    pub vertex_shader: u32,
    pub fragment_shader: u32,
    pub pending_bindings: Vec<AttributeBinding>,
    pub linked: bool,
    pub link_status: bool,
    pub linked_bindings: Vec<AttributeBinding>,
}

/// A GPU-resident data buffer.
pub struct BufferObject {
    pub data: Vec<u8>,
}

/// A persistent layout object: which buffers feed the pipeline and how each
/// enabled attribute slot reads them.
pub struct VertexArrayObject {
    pub vertex_buffer: u32,
    pub index_buffer: u32,
    pub enabled_slots: Vec<u32>,
    pub attributes: Vec<AttributeDescriptor>,
}

/// The whole pipeline state, as one explicit value.
pub struct PipelineContext {
    /// How many more shader/program allocations the device will grant.
    pub alloc_budget: u32,
    pub shaders: Vec<ShaderObject>,
    pub programs: Vec<ProgramObject>,
    pub buffers: Vec<BufferObject>,
    pub vertex_arrays: Vec<VertexArrayObject>,
    pub clear_color: ClearColor,
    pub viewport_width: u32,
    pub viewport_height: u32,
    pub point_size: u32,
    pub current_program: u32,
    pub bound_vertex_array: u32,
    pub bound_array_buffer: u32,
    /// Attribute slots enabled outside any vertex-array object (the legacy
    /// per-frame path).  Kept without duplicates: enabling is idempotent.
    pub enabled_attributes: Vec<u32>,
    /// The observable per-frame transitions, in order.
    pub trace: Vec<Transition>,
    /// Everything written to the diagnostics sink, in order.
    pub diagnostics: Vec<Diagnostic>,
}

/// Two attribute-binding lists carry the same bindings in the same order.
pub open spec fn bindings_match(a: Seq<AttributeBinding>, b: Seq<AttributeBinding>) -> bool {
    a.len() == b.len() && forall|i: int|
        0 <= i < a.len() ==> a[i].name@ == b[i].name@ && a[i].slot == b[i].slot
}

impl PipelineContext {
    /// Handle arithmetic stays in range: every handle the device will ever
    /// grant from the remaining budget fits in a `u32`.
    pub open spec fn wf(self) -> bool {
        &&& self.shaders@.len() + self.alloc_budget <= u32::MAX
        &&& self.programs@.len() + self.alloc_budget <= u32::MAX
    }

    pub open spec fn valid_shader(self, h: u32) -> bool {
        1 <= h && h as int <= self.shaders@.len()
    }

    pub open spec fn shader_at(self, h: u32) -> ShaderObject {
        self.shaders@[h as int - 1]
    }

    pub open spec fn valid_program(self, h: u32) -> bool {
        1 <= h && h as int <= self.programs@.len()
    }

    pub open spec fn program_at(self, h: u32) -> ProgramObject {
        self.programs@[h as int - 1]
    }

    pub open spec fn valid_buffer(self, h: u32) -> bool {
        1 <= h && h as int <= self.buffers@.len()
    }

    pub open spec fn buffer_at(self, h: u32) -> BufferObject {
        self.buffers@[h as int - 1]
    }

    pub open spec fn valid_vertex_array(self, h: u32) -> bool {
        1 <= h && h as int <= self.vertex_arrays@.len()
    }

    pub open spec fn vertex_array_at(self, h: u32) -> VertexArrayObject {
        self.vertex_arrays@[h as int - 1]
    }

    /// `h` names a shader that is compiled and still alive, so that a link
    /// that attaches it can succeed.
    pub open spec fn shader_ready(self, h: u32) -> bool {
        &&& self.valid_shader(h)
        &&& self.shader_at(h).compiled
        &&& !self.shader_at(h).deleted
    }

    /// The ambient render state (everything outside the object stores and
    /// the two logs) is the same in `a` and `b`.
    pub open spec fn same_render_state(a: Self, b: Self) -> bool {
        &&& a.clear_color == b.clear_color
        &&& a.viewport_width == b.viewport_width
        &&& a.viewport_height == b.viewport_height
        &&& a.point_size == b.point_size
        &&& a.current_program == b.current_program
        &&& a.bound_vertex_array == b.bound_vertex_array
        &&& a.bound_array_buffer == b.bound_array_buffer
        &&& a.enabled_attributes@ == b.enabled_attributes@
    }

    /// Neither the trace nor the diagnostics sink grew between `a` and `b`.
    pub open spec fn same_log(a: Self, b: Self) -> bool {
        a.trace@ == b.trace@ && a.diagnostics@ == b.diagnostics@
    }

    /// All four object stores and the allocation budget are the same.
    pub open spec fn same_objects(a: Self, b: Self) -> bool {
        &&& a.alloc_budget == b.alloc_budget
        &&& a.shaders@ == b.shaders@
        &&& a.programs@ == b.programs@
        &&& a.buffers@ == b.buffers@
        &&& a.vertex_arrays@ == b.vertex_arrays@
    }

    /// `a` and `b` are the same pipeline state.
    pub open spec fn same_state(a: Self, b: Self) -> bool {
        Self::same_objects(a, b) && Self::same_render_state(a, b) && Self::same_log(a, b)
    }

    /// A fresh pipeline that will grant `alloc_budget` shader/program
    /// allocations and holds no objects yet.
    pub fn new(alloc_budget: u32) -> (r: Self)
        ensures
            r.wf(),
            r.alloc_budget == alloc_budget,
            r.shaders@.len() == 0,
            r.programs@.len() == 0,
            r.buffers@.len() == 0,
            r.vertex_arrays@.len() == 0,
            r.clear_color == (ClearColor { red: 0, green: 0, blue: 0, alpha: 0 }),
            r.viewport_width == 0,
            r.viewport_height == 0,
            r.point_size == 1,
            r.current_program == 0,
            r.bound_vertex_array == 0,
            r.bound_array_buffer == 0,
            r.enabled_attributes@.len() == 0,
            r.trace@.len() == 0,
            r.diagnostics@.len() == 0,
    {
        PipelineContext {
            alloc_budget,
            shaders: Vec::new(),
            programs: Vec::new(),
            buffers: Vec::new(),
            vertex_arrays: Vec::new(),
            clear_color: ClearColor { red: 0, green: 0, blue: 0, alpha: 0 },
            viewport_width: 0,
            viewport_height: 0,
            point_size: 1,
            current_program: 0,
            bound_vertex_array: 0,
            bound_array_buffer: 0,
            enabled_attributes: Vec::new(),
            trace: Vec::new(),
            diagnostics: Vec::new(),
        }
    }

    /// Allocates a shader object for `stage`.  Returns 0 (and changes
    /// nothing) once the allocation budget is exhausted.
    pub fn create_shader(&mut self, stage: ShaderStage) -> (h: u32)
        requires
            old(self).wf(),
        ensures
            final(self).wf(),
            h == 0 <==> old(self).alloc_budget == 0,
            old(self).alloc_budget == 0 ==> Self::same_state(*old(self), *final(self)),
            old(self).alloc_budget > 0 ==> {
                &&& h as int == old(self).shaders@.len() + 1
                &&& final(self).valid_shader(h)
                &&& final(self).shaders@ == old(self).shaders@.push(final(self).shader_at(h))
                &&& final(self).shader_at(h).stage == stage
                &&& final(self).shader_at(h).source@.len() == 0
                &&& !final(self).shader_at(h).compiled
                &&& final(self).shader_at(h).info_log@.len() == 0
                &&& !final(self).shader_at(h).deleted
                &&& final(self).alloc_budget == old(self).alloc_budget - 1
                &&& final(self).programs@ == old(self).programs@
                &&& final(self).buffers@ == old(self).buffers@
                &&& final(self).vertex_arrays@ == old(self).vertex_arrays@
                &&& Self::same_render_state(*old(self), *final(self))
                &&& Self::same_log(*old(self), *final(self))
            },
    {
        if self.alloc_budget == 0 {
            return 0;
        }
        self.alloc_budget = self.alloc_budget - 1;
        let obj = ShaderObject {
            stage,
            source: Vec::new(),
            compiled: false,
            info_log: Vec::new(),
            deleted: false,
        };
        self.shaders.push(obj);
        self.shaders.len() as u32
    }

    /// Replaces the source text of shader `h` with `source`, submitted as
    /// exactly one source string.
    pub fn shader_source(&mut self, h: u32, source: &Vec<u8>)
        requires
            old(self).wf(),
            old(self).valid_shader(h),
        ensures
            final(self).wf(),
            final(self).shaders@ == old(self).shaders@.update(
                h as int - 1,
                final(self).shader_at(h),
            ),
            final(self).shader_at(h) == (ShaderObject {
                source: final(self).shader_at(h).source,
                ..old(self).shader_at(h)
            }),
            final(self).shader_at(h).source@ == source@,
            final(self).alloc_budget == old(self).alloc_budget,
            final(self).programs@ == old(self).programs@,
            final(self).buffers@ == old(self).buffers@,
            final(self).vertex_arrays@ == old(self).vertex_arrays@,
            Self::same_render_state(*old(self), *final(self)),
            Self::same_log(*old(self), *final(self)),
    {
        let i = (h - 1) as usize;
        self.shaders[i].source = clone_bytes(source);
    }

    /// Compiles shader `h`: the compiled flag is set exactly when the model
    /// accepts the submitted source, and the info log holds the diagnostic
    /// text on rejection (and is empty on success).
    pub fn compile_shader(&mut self, h: u32)
        requires
            old(self).wf(),
            old(self).valid_shader(h),
        ensures
            final(self).wf(),
            final(self).shaders@ == old(self).shaders@.update(
                h as int - 1,
                final(self).shader_at(h),
            ),
            final(self).shader_at(h) == (ShaderObject {
                compiled: crate::shader::source_accepted(old(self).shader_at(h).source@),
                info_log: final(self).shader_at(h).info_log,
                ..old(self).shader_at(h)
            }),
            final(self).shader_at(h).info_log@ == if crate::shader::source_accepted(
                old(self).shader_at(h).source@,
            ) {
                Seq::<u8>::empty()
            } else {
                crate::shader::compile_failure_log()
            },
            final(self).alloc_budget == old(self).alloc_budget,
            final(self).programs@ == old(self).programs@,
            final(self).buffers@ == old(self).buffers@,
            final(self).vertex_arrays@ == old(self).vertex_arrays@,
            Self::same_render_state(*old(self), *final(self)),
            Self::same_log(*old(self), *final(self)),
    {
        let i = (h - 1) as usize;
        let ok = crate::shader::source_has_entry_point(&self.shaders[i].source);
        self.shaders[i].compiled = ok;
        if ok {
            self.shaders[i].info_log = Vec::new();
        } else {
            self.shaders[i].info_log = crate::shader::compile_failure_message();
        }
    }

    /// The compile-status flag of shader `h`: 1 when compiled, 0 otherwise.
    pub fn get_shader_compile_status(&self, h: u32) -> (r: i32)
        requires
            self.valid_shader(h),
        ensures
            r == if self.shader_at(h).compiled { 1int } else { 0int },
    {
        let i = (h - 1) as usize;
        if self.shaders[i].compiled {
            1
        } else {
            0
        }
    }

    /// The info-log length of shader `h`, counting the text's terminator:
    /// 0 for an empty log, one more than the text's length otherwise.
    pub fn get_shader_info_log_length(&self, h: u32) -> (r: usize)
        requires
            self.valid_shader(h),
            self.shader_at(h).info_log@.len() < usize::MAX,
        ensures
            r as int == if self.shader_at(h).info_log@.len() == 0 {
                0int
            } else {
                self.shader_at(h).info_log@.len() + 1int
            },
    {
        let i = (h - 1) as usize;
        let len = self.shaders[i].info_log.len();
        if len == 0 {
            0
        } else {
            len + 1
        }
    }

    /// A copy of the info-log text of shader `h`.
    pub fn get_shader_info_log(&self, h: u32) -> (r: Vec<u8>)
        requires
            self.valid_shader(h),
        ensures
            r@ == self.shader_at(h).info_log@,
    {
        let i = (h - 1) as usize;
        clone_bytes(&self.shaders[i].info_log)
    }

    /// Releases shader `h`.  The object stays in the store, marked deleted,
    /// so stale handles remain distinguishable from live ones.
    pub fn delete_shader(&mut self, h: u32)
        requires
            old(self).wf(),
            old(self).valid_shader(h),
        ensures
            final(self).wf(),
            final(self).shaders@ == old(self).shaders@.update(
                h as int - 1,
                final(self).shader_at(h),
            ),
            final(self).shader_at(h) == (ShaderObject { deleted: true, ..old(self).shader_at(h) }),
            final(self).alloc_budget == old(self).alloc_budget,
            final(self).programs@ == old(self).programs@,
            final(self).buffers@ == old(self).buffers@,
            final(self).vertex_arrays@ == old(self).vertex_arrays@,
            Self::same_render_state(*old(self), *final(self)),
            Self::same_log(*old(self), *final(self)),
    {
        let i = (h - 1) as usize;
        self.shaders[i].deleted = true;
    }

    /// Allocates a program object.  Returns 0 (and changes nothing) once the
    /// allocation budget is exhausted.
    pub fn create_program(&mut self) -> (h: u32)
        requires
            old(self).wf(),
        ensures
            final(self).wf(),
            h == 0 <==> old(self).alloc_budget == 0,
            old(self).alloc_budget == 0 ==> Self::same_state(*old(self), *final(self)),
            old(self).alloc_budget > 0 ==> {
                &&& h as int == old(self).programs@.len() + 1
                &&& final(self).valid_program(h)
                &&& final(self).programs@ == old(self).programs@.push(final(self).program_at(h))
                &&& final(self).program_at(h).vertex_shader == 0
                &&& final(self).program_at(h).fragment_shader == 0
                &&& final(self).program_at(h).pending_bindings@.len() == 0
                &&& !final(self).program_at(h).linked
                &&& !final(self).program_at(h).link_status
                &&& final(self).program_at(h).linked_bindings@.len() == 0
                &&& final(self).alloc_budget == old(self).alloc_budget - 1
                &&& final(self).shaders@ == old(self).shaders@
                &&& final(self).buffers@ == old(self).buffers@
                &&& final(self).vertex_arrays@ == old(self).vertex_arrays@
                &&& Self::same_render_state(*old(self), *final(self))
                &&& Self::same_log(*old(self), *final(self))
            },
    {
        if self.alloc_budget == 0 {
            return 0;
        }
        self.alloc_budget = self.alloc_budget - 1;
        let obj = ProgramObject {
            vertex_shader: 0,
            fragment_shader: 0,
            pending_bindings: Vec::new(),
            linked: false,
            link_status: false,
            linked_bindings: Vec::new(),
        };
        self.programs.push(obj);
        self.programs.len() as u32
    }

    /// Attaches shader `s` to program `p`, in the slot of its stage.
    pub fn attach_shader(&mut self, p: u32, s: u32)
        requires
            old(self).wf(),
            old(self).valid_program(p),
            old(self).valid_shader(s),
        ensures
            final(self).wf(),
            final(self).programs@ == old(self).programs@.update(
                p as int - 1,
                final(self).program_at(p),
            ),
            final(self).program_at(p) == if old(self).shader_at(s).stage == ShaderStage::Vertex {
                ProgramObject { vertex_shader: s, ..old(self).program_at(p) }
            } else {
                ProgramObject { fragment_shader: s, ..old(self).program_at(p) }
            },
            final(self).alloc_budget == old(self).alloc_budget,
            final(self).shaders@ == old(self).shaders@,
            final(self).buffers@ == old(self).buffers@,
            final(self).vertex_arrays@ == old(self).vertex_arrays@,
            Self::same_render_state(*old(self), *final(self)),
            Self::same_log(*old(self), *final(self)),
    {
        let pi = (p - 1) as usize;
        let si = (s - 1) as usize;
        match self.shaders[si].stage {
            ShaderStage::Vertex => {
                self.programs[pi].vertex_shader = s;
            },
            ShaderStage::Fragment => {
                self.programs[pi].fragment_shader = s;
            },
        }
    }

    /// Exactly what `bind_attrib_location` does: one binding request is
    /// appended to the program's pending list, and nothing else changes —
    /// in particular the result of a link already performed
    /// (`linked`, `link_status`, `linked_bindings`) is untouched.
    pub open spec fn bind_attrib_post(
        pre: Self,
        post: Self,
        p: u32,
        slot: u32,
        name: Seq<u8>,
    ) -> bool {
        &&& post.programs@ == pre.programs@.update(p as int - 1, post.program_at(p))
        &&& post.program_at(p) == (ProgramObject {
            pending_bindings: post.program_at(p).pending_bindings,
            ..pre.program_at(p)
        })
        &&& post.program_at(p).pending_bindings@.len() == pre.program_at(
            p,
        ).pending_bindings@.len() + 1
        &&& post.program_at(p).pending_bindings@.drop_last() == pre.program_at(
            p,
        ).pending_bindings@
        &&& post.program_at(p).pending_bindings@.last().name@ == name
        &&& post.program_at(p).pending_bindings@.last().slot == slot
        &&& post.alloc_budget == pre.alloc_budget
        &&& post.shaders@ == pre.shaders@
        &&& post.buffers@ == pre.buffers@
        &&& post.vertex_arrays@ == pre.vertex_arrays@
        &&& Self::same_render_state(pre, post)
        &&& Self::same_log(pre, post)
    }

    /// Requests that attribute `name` feed slot `slot` of program `p`.  The
    /// request only takes effect at the next link: the bindings of a link
    /// already performed (`linked_bindings`, `link_status`) are untouched.
    pub fn bind_attrib_location(&mut self, p: u32, slot: u32, name: &Vec<u8>)
        requires
            old(self).wf(),
            old(self).valid_program(p),
        ensures
            final(self).wf(),
            Self::bind_attrib_post(*old(self), *final(self), p, slot, name@),
    {
        let pi = (p - 1) as usize;
        let binding = AttributeBinding { name: clone_bytes(name), slot };
        self.programs[pi].pending_bindings.push(binding);
        proof {
            assert(self.programs@ =~= old(self).programs@.update(
                p as int - 1,
                self.programs@[p as int - 1],
            ));
            assert(self.programs@[p as int - 1].pending_bindings@.drop_last() =~= old(
                self,
            ).programs@[p as int - 1].pending_bindings@);
        }
    }

    /// Whether a link of `prog` performed against the shader store of `self`
    /// succeeds: both stages attached, compiled and still alive.
    pub open spec fn program_links(self, prog: ProgramObject) -> bool {
        &&& self.shader_ready(prog.vertex_shader)
        &&& self.shader_at(prog.vertex_shader).stage == ShaderStage::Vertex
        &&& self.shader_ready(prog.fragment_shader)
        &&& self.shader_at(prog.fragment_shader).stage == ShaderStage::Fragment
    }

    /// Exactly what `link_program` does: the link-status flag is set to the
    /// link rule's verdict, and the pending attribute bindings are
    /// snapshotted as the bindings the linked program uses.
    pub open spec fn link_program_post(pre: Self, post: Self, p: u32) -> bool {
        &&& post.programs@ == pre.programs@.update(p as int - 1, post.program_at(p))
        &&& post.program_at(p) == (ProgramObject {
            linked: true,
            link_status: pre.program_links(pre.program_at(p)),
            linked_bindings: post.program_at(p).linked_bindings,
            ..pre.program_at(p)
        })
        &&& bindings_match(
            post.program_at(p).linked_bindings@,
            pre.program_at(p).pending_bindings@,
        )
        &&& post.alloc_budget == pre.alloc_budget
        &&& post.shaders@ == pre.shaders@
        &&& post.buffers@ == pre.buffers@
        &&& post.vertex_arrays@ == pre.vertex_arrays@
        &&& Self::same_render_state(pre, post)
        &&& Self::same_log(pre, post)
    }

    /// Links program `p`.  The link-status flag is set exactly when both
    /// attached stages are compiled and alive, and the pending attribute
    /// bindings are snapshotted as the bindings the linked program uses.
    pub fn link_program(&mut self, p: u32)
        requires
            old(self).wf(),
            old(self).valid_program(p),
        ensures
            final(self).wf(),
            Self::link_program_post(*old(self), *final(self), p),
    {
        let pi = (p - 1) as usize;
        let vs = self.programs[pi].vertex_shader;
        let fs = self.programs[pi].fragment_shader;
        let status = self.stage_ready(vs, ShaderStage::Vertex) && self.stage_ready(
            fs,
            ShaderStage::Fragment,
        );
        let snapshot = clone_bindings(&self.programs[pi].pending_bindings);
        self.programs[pi].linked = true;
        self.programs[pi].link_status = status;
        self.programs[pi].linked_bindings = snapshot;
        proof {
            assert(self.programs@ =~= old(self).programs@.update(
                p as int - 1,
                self.programs@[p as int - 1],
            ));
        }
    }

    /// Whether `h` names a live compiled shader of stage `stage`.
    fn stage_ready(&self, h: u32, stage: ShaderStage) -> (r: bool)
        ensures
            r == (self.shader_ready(h) && self.shader_at(h).stage == stage),
    {
        if h == 0 {
            return false;
        }
        let i = (h - 1) as usize;
        if i >= self.shaders.len() {
            return false;
        }
        let matches_stage = match (self.shaders[i].stage, stage) {
            (ShaderStage::Vertex, ShaderStage::Vertex) => true,
            (ShaderStage::Fragment, ShaderStage::Fragment) => true,
            _ => false,
        };
        self.shaders[i].compiled && !self.shaders[i].deleted && matches_stage
    }

    /// The link-status flag of program `p`: 1 when the last link succeeded,
    /// 0 otherwise.
    pub fn get_program_link_status(&self, p: u32) -> (r: i32)
        requires
            self.valid_program(p),
        ensures
            r == if self.program_at(p).link_status { 1int } else { 0int },
    {
        let i = (p - 1) as usize;
        if self.programs[i].link_status {
            1
        } else {
            0
        }
    }

    /// Allocates a data buffer.  Buffer names are always granted.
    pub fn gen_buffer(&mut self) -> (h: u32)
        requires
            old(self).wf(),
            old(self).buffers@.len() < u32::MAX,
        ensures
            final(self).wf(),
            h as int == old(self).buffers@.len() + 1,
            final(self).valid_buffer(h),
            final(self).buffers@ == old(self).buffers@.push(final(self).buffer_at(h)),
            final(self).buffer_at(h).data@.len() == 0,
            final(self).shaders@ == old(self).shaders@,
            final(self).programs@ == old(self).programs@,
            final(self).vertex_arrays@ == old(self).vertex_arrays@,
            final(self).alloc_budget == old(self).alloc_budget,
            Self::same_render_state(*old(self), *final(self)),
            Self::same_log(*old(self), *final(self)),
    {
        self.buffers.push(BufferObject { data: Vec::new() });
        self.buffers.len() as u32
    }

    /// Copies `data` into buffer `h`, replacing its contents ("static,
    /// will not change after upload").
    pub fn buffer_data(&mut self, h: u32, data: &Vec<u8>)
        requires
            old(self).wf(),
            old(self).valid_buffer(h),
        ensures
            final(self).wf(),
            final(self).buffers@ == old(self).buffers@.update(
                h as int - 1,
                final(self).buffer_at(h),
            ),
            final(self).buffer_at(h).data@ == data@,
            final(self).shaders@ == old(self).shaders@,
            final(self).programs@ == old(self).programs@,
            final(self).vertex_arrays@ == old(self).vertex_arrays@,
            final(self).alloc_budget == old(self).alloc_budget,
            Self::same_render_state(*old(self), *final(self)),
            Self::same_log(*old(self), *final(self)),
    {
        let i = (h - 1) as usize;
        self.buffers[i].data = clone_bytes(data);
        proof {
            assert(self.buffers@ =~= old(self).buffers@.update(
                h as int - 1,
                self.buffers@[h as int - 1],
            ));
        }
    }

    /// A copy of the contents of buffer `h`: the readback path.
    pub fn read_buffer(&self, h: u32) -> (r: Vec<u8>)
        requires
            self.valid_buffer(h),
        ensures
            r@ == self.buffer_at(h).data@,
    {
        let i = (h - 1) as usize;
        clone_bytes(&self.buffers[i].data)
    }

    /// Allocates a persistent layout object.  Names are always granted.
    pub fn gen_vertex_array(&mut self) -> (h: u32)
        requires
            old(self).wf(),
            old(self).vertex_arrays@.len() < u32::MAX,
        ensures
            final(self).wf(),
            h as int == old(self).vertex_arrays@.len() + 1,
            final(self).valid_vertex_array(h),
            final(self).vertex_arrays@ == old(self).vertex_arrays@.push(
                final(self).vertex_array_at(h),
            ),
            final(self).vertex_array_at(h).vertex_buffer == 0,
            final(self).vertex_array_at(h).index_buffer == 0,
            final(self).vertex_array_at(h).enabled_slots@.len() == 0,
            final(self).vertex_array_at(h).attributes@.len() == 0,
            final(self).shaders@ == old(self).shaders@,
            final(self).programs@ == old(self).programs@,
            final(self).buffers@ == old(self).buffers@,
            final(self).alloc_budget == old(self).alloc_budget,
            Self::same_render_state(*old(self), *final(self)),
            Self::same_log(*old(self), *final(self)),
    {
        self.vertex_arrays.push(
            VertexArrayObject {
                vertex_buffer: 0,
                index_buffer: 0,
                enabled_slots: Vec::new(),
                attributes: Vec::new(),
            },
        );
        self.vertex_arrays.len() as u32
    }

    /// Records in layout object `va` which buffers feed the pipeline:
    /// vertex buffer `vbo` and index buffer `ibo` (0 = none).
    pub fn vertex_array_attach(&mut self, va: u32, vbo: u32, ibo: u32)
        requires
            old(self).wf(),
            old(self).valid_vertex_array(va),
        ensures
            final(self).wf(),
            final(self).vertex_arrays@ == old(self).vertex_arrays@.update(
                va as int - 1,
                final(self).vertex_array_at(va),
            ),
            final(self).vertex_array_at(va) == (VertexArrayObject {
                vertex_buffer: vbo,
                index_buffer: ibo,
                ..old(self).vertex_array_at(va)
            }),
            final(self).shaders@ == old(self).shaders@,
            final(self).programs@ == old(self).programs@,
            final(self).buffers@ == old(self).buffers@,
            final(self).alloc_budget == old(self).alloc_budget,
            Self::same_render_state(*old(self), *final(self)),
            Self::same_log(*old(self), *final(self)),
    {
        let i = (va - 1) as usize;
        self.vertex_arrays[i].vertex_buffer = vbo;
        self.vertex_arrays[i].index_buffer = ibo;
        proof {
            assert(self.vertex_arrays@ =~= old(self).vertex_arrays@.update(
                va as int - 1,
                self.vertex_arrays@[va as int - 1],
            ));
        }
    }

    /// Enables attribute slot `attr.slot` in layout object `va` and records
    /// how the slot reads the vertex records.
    pub fn vertex_array_attribute(&mut self, va: u32, attr: AttributeDescriptor)
        requires
            old(self).wf(),
            old(self).valid_vertex_array(va),
        ensures
            final(self).wf(),
            final(self).vertex_arrays@ == old(self).vertex_arrays@.update(
                va as int - 1,
                final(self).vertex_array_at(va),
            ),
            final(self).vertex_array_at(va).vertex_buffer == old(self).vertex_array_at(
                va,
            ).vertex_buffer,
            final(self).vertex_array_at(va).index_buffer == old(self).vertex_array_at(
                va,
            ).index_buffer,
            final(self).vertex_array_at(va).enabled_slots@ == old(self).vertex_array_at(
                va,
            ).enabled_slots@.push(attr.slot),
            final(self).vertex_array_at(va).attributes@ == old(self).vertex_array_at(
                va,
            ).attributes@.push(attr),
            final(self).shaders@ == old(self).shaders@,
            final(self).programs@ == old(self).programs@,
            final(self).buffers@ == old(self).buffers@,
            final(self).alloc_budget == old(self).alloc_budget,
            Self::same_render_state(*old(self), *final(self)),
            Self::same_log(*old(self), *final(self)),
    {
        let i = (va - 1) as usize;
        self.vertex_arrays[i].enabled_slots.push(attr.slot);
        self.vertex_arrays[i].attributes.push(attr);
        proof {
            assert(self.vertex_arrays@ =~= old(self).vertex_arrays@.update(
                va as int - 1,
                self.vertex_arrays@[va as int - 1],
            ));
        }
    }

    /// Sets the fixed clear color.
    pub fn set_clear_color(&mut self, color: ClearColor)
        requires
            old(self).wf(),
        ensures
            final(self).wf(),
            final(self).clear_color == color,
            final(self).viewport_width == old(self).viewport_width,
            final(self).viewport_height == old(self).viewport_height,
            final(self).point_size == old(self).point_size,
            final(self).current_program == old(self).current_program,
            final(self).bound_vertex_array == old(self).bound_vertex_array,
            final(self).bound_array_buffer == old(self).bound_array_buffer,
            final(self).enabled_attributes@ == old(self).enabled_attributes@,
            Self::same_objects(*old(self), *final(self)),
            Self::same_log(*old(self), *final(self)),
    {
        self.clear_color = color;
    }

    /// Sets the viewport to `(0, 0, width, height)`.
    pub fn set_viewport(&mut self, width: u32, height: u32)
        requires
            old(self).wf(),
        ensures
            final(self).wf(),
            final(self).trace@ == old(self).trace@.push(Transition::Viewport { width, height }),
            final(self).viewport_width == width,
            final(self).viewport_height == height,
            final(self).clear_color == old(self).clear_color,
            final(self).point_size == old(self).point_size,
            final(self).current_program == old(self).current_program,
            final(self).bound_vertex_array == old(self).bound_vertex_array,
            final(self).bound_array_buffer == old(self).bound_array_buffer,
            final(self).enabled_attributes@ == old(self).enabled_attributes@,
            Self::same_objects(*old(self), *final(self)),
            final(self).diagnostics@ == old(self).diagnostics@,
    {
        self.viewport_width = width;
        self.viewport_height = height;
        self.trace.push(Transition::Viewport { width, height });
    }

    /// Clears the color buffer to the clear color.
    pub fn clear(&mut self)
        requires
            old(self).wf(),
        ensures
            final(self).wf(),
            final(self).trace@ == old(self).trace@.push(Transition::ClearColorBuffer),
            Self::same_objects(*old(self), *final(self)),
            Self::same_render_state(*old(self), *final(self)),
            final(self).diagnostics@ == old(self).diagnostics@,
    {
        self.trace.push(Transition::ClearColorBuffer);
    }

    /// Makes program `p` current.
    pub fn use_program(&mut self, p: u32)
        requires
            old(self).wf(),
        ensures
            final(self).wf(),
            final(self).trace@ == old(self).trace@.push(Transition::BindProgram { program: p }),
            final(self).current_program == p,
            final(self).clear_color == old(self).clear_color,
            final(self).viewport_width == old(self).viewport_width,
            final(self).viewport_height == old(self).viewport_height,
            final(self).point_size == old(self).point_size,
            final(self).bound_vertex_array == old(self).bound_vertex_array,
            final(self).bound_array_buffer == old(self).bound_array_buffer,
            final(self).enabled_attributes@ == old(self).enabled_attributes@,
            Self::same_objects(*old(self), *final(self)),
            final(self).diagnostics@ == old(self).diagnostics@,
    {
        self.current_program = p;
        self.trace.push(Transition::BindProgram { program: p });
    }

    /// Binds layout object `va`.
    pub fn bind_vertex_array(&mut self, va: u32)
        requires
            old(self).wf(),
        ensures
            final(self).wf(),
            final(self).trace@ == old(self).trace@.push(
                Transition::BindLayout { vertex_array: va },
            ),
            final(self).bound_vertex_array == va,
            final(self).clear_color == old(self).clear_color,
            final(self).viewport_width == old(self).viewport_width,
            final(self).viewport_height == old(self).viewport_height,
            final(self).point_size == old(self).point_size,
            final(self).current_program == old(self).current_program,
            final(self).bound_array_buffer == old(self).bound_array_buffer,
            final(self).enabled_attributes@ == old(self).enabled_attributes@,
            Self::same_objects(*old(self), *final(self)),
            final(self).diagnostics@ == old(self).diagnostics@,
    {
        self.bound_vertex_array = va;
        self.trace.push(Transition::BindLayout { vertex_array: va });
    }

    /// Unbinds the current layout object.
    pub fn unbind_vertex_array(&mut self)
        requires
            old(self).wf(),
        ensures
            final(self).wf(),
            final(self).trace@ == old(self).trace@.push(Transition::UnbindLayout),
            final(self).bound_vertex_array == 0,
            final(self).clear_color == old(self).clear_color,
            final(self).viewport_width == old(self).viewport_width,
            final(self).viewport_height == old(self).viewport_height,
            final(self).point_size == old(self).point_size,
            final(self).current_program == old(self).current_program,
            final(self).bound_array_buffer == old(self).bound_array_buffer,
            final(self).enabled_attributes@ == old(self).enabled_attributes@,
            Self::same_objects(*old(self), *final(self)),
            final(self).diagnostics@ == old(self).diagnostics@,
    {
        self.bound_vertex_array = 0;
        self.trace.push(Transition::UnbindLayout);
    }

    /// Binds buffer `b` as the source of vertex data.
    pub fn bind_array_buffer(&mut self, b: u32)
        requires
            old(self).wf(),
        ensures
            final(self).wf(),
            final(self).trace@ == old(self).trace@.push(
                Transition::BindArrayBuffer { buffer: b },
            ),
            final(self).bound_array_buffer == b,
            final(self).clear_color == old(self).clear_color,
            final(self).viewport_width == old(self).viewport_width,
            final(self).viewport_height == old(self).viewport_height,
            final(self).point_size == old(self).point_size,
            final(self).current_program == old(self).current_program,
            final(self).bound_vertex_array == old(self).bound_vertex_array,
            final(self).enabled_attributes@ == old(self).enabled_attributes@,
            Self::same_objects(*old(self), *final(self)),
            final(self).diagnostics@ == old(self).diagnostics@,
    {
        self.bound_array_buffer = b;
        self.trace.push(Transition::BindArrayBuffer { buffer: b });
    }

    /// Re-specifies how slot `attr.slot` reads the bound vertex data (the
    /// legacy per-frame path that avoids a persistent layout object).
    pub fn set_attribute_pointer(&mut self, attr: AttributeDescriptor)
        requires
            old(self).wf(),
        ensures
            final(self).wf(),
            final(self).trace@ == old(self).trace@.push(
                Transition::SetAttributePointer { attribute: attr },
            ),
            Self::same_objects(*old(self), *final(self)),
            Self::same_render_state(*old(self), *final(self)),
            final(self).diagnostics@ == old(self).diagnostics@,
    {
        self.trace.push(Transition::SetAttributePointer { attribute: attr });
    }

    /// Enables attribute slot `slot` outside any layout object.  The call is
    /// idempotent: the set of enabled slots gains `slot` at most once.
    pub fn enable_attribute(&mut self, slot: u32)
        requires
            old(self).wf(),
        ensures
            final(self).wf(),
            final(self).trace@ == old(self).trace@.push(Transition::EnableAttribute { slot }),
            final(self).enabled_attributes@ == if old(self).enabled_attributes@.contains(slot) {
                old(self).enabled_attributes@
            } else {
                old(self).enabled_attributes@.push(slot)
            },
            final(self).clear_color == old(self).clear_color,
            final(self).viewport_width == old(self).viewport_width,
            final(self).viewport_height == old(self).viewport_height,
            final(self).point_size == old(self).point_size,
            final(self).current_program == old(self).current_program,
            final(self).bound_vertex_array == old(self).bound_vertex_array,
            final(self).bound_array_buffer == old(self).bound_array_buffer,
            Self::same_objects(*old(self), *final(self)),
            final(self).diagnostics@ == old(self).diagnostics@,
    {
        let mut found = false;
        let mut i: usize = 0;
        while i < self.enabled_attributes.len()
            invariant
                i <= self.enabled_attributes@.len(),
                found == exists|k: int| 0 <= k < i && self.enabled_attributes@[k] == slot,
                self.enabled_attributes@ == old(self).enabled_attributes@,
            decreases self.enabled_attributes@.len() - i,
        {
            if self.enabled_attributes[i] == slot {
                found = true;
            }
            i = i + 1;
        }
        if !found {
            self.enabled_attributes.push(slot);
        }
        self.trace.push(Transition::EnableAttribute { slot });
    }

    /// Sets the rasterized size of a point, in pixels.
    pub fn set_point_size(&mut self, pixels: u32)
        requires
            old(self).wf(),
        ensures
            final(self).wf(),
            final(self).trace@ == old(self).trace@.push(Transition::SetPointSize { pixels }),
            final(self).point_size == pixels,
            final(self).clear_color == old(self).clear_color,
            final(self).viewport_width == old(self).viewport_width,
            final(self).viewport_height == old(self).viewport_height,
            final(self).current_program == old(self).current_program,
            final(self).bound_vertex_array == old(self).bound_vertex_array,
            final(self).bound_array_buffer == old(self).bound_array_buffer,
            final(self).enabled_attributes@ == old(self).enabled_attributes@,
            Self::same_objects(*old(self), *final(self)),
            final(self).diagnostics@ == old(self).diagnostics@,
    {
        self.point_size = pixels;
        self.trace.push(Transition::SetPointSize { pixels });
    }

    /// Issues a draw over `vertex_count` consecutive vertices.
    pub fn draw_arrays(&mut self, mode: DrawPrimitive, vertex_count: u32)
        requires
            old(self).wf(),
        ensures
            final(self).wf(),
            final(self).trace@ == old(self).trace@.push(
                Transition::DrawArrays { mode, vertex_count },
            ),
            Self::same_objects(*old(self), *final(self)),
            Self::same_render_state(*old(self), *final(self)),
            final(self).diagnostics@ == old(self).diagnostics@,
    {
        self.trace.push(Transition::DrawArrays { mode, vertex_count });
    }

    /// Issues a draw over `index_count` 16-bit indices.
    pub fn draw_elements(&mut self, mode: DrawPrimitive, index_count: u32)
        requires
            old(self).wf(),
        ensures
            final(self).wf(),
            final(self).trace@ == old(self).trace@.push(
                Transition::DrawElements {
                    mode,
                    index_count,
                    index_kind: IndexKind::UnsignedShort,
                },
            ),
            Self::same_objects(*old(self), *final(self)),
            Self::same_render_state(*old(self), *final(self)),
            final(self).diagnostics@ == old(self).diagnostics@,
    {
        self.trace.push(
            Transition::DrawElements { mode, index_count, index_kind: IndexKind::UnsignedShort },
        );
    }

    /// Writes one entry to the diagnostics sink.
    pub fn report_diagnostic(&mut self, d: Diagnostic)
        requires
            old(self).wf(),
        ensures
            final(self).wf(),
            final(self).diagnostics@.len() == old(self).diagnostics@.len() + 1,
            final(self).diagnostics@.drop_last() == old(self).diagnostics@,
            final(self).diagnostics@.last() == d,
            final(self).trace@ == old(self).trace@,
            Self::same_objects(*old(self), *final(self)),
            Self::same_render_state(*old(self), *final(self)),
    {
        self.diagnostics.push(d);
    }
}

/// A byte-for-byte copy of `v`.
pub fn clone_bytes(v: &Vec<u8>) -> (r: Vec<u8>)
    ensures
        r@ == v@,
{
    let mut out: Vec<u8> = Vec::new();
    let mut i: usize = 0;
    while i < v.len()
        invariant
            i <= v@.len(),
            out@ == v@.take(i as int),
        decreases v@.len() - i,
    {
        out.push(v[i]);
        proof {
            assert(out@ == v@.take(i as int + 1));
        }
        i = i + 1;
    }
    proof {
        assert(v@.take(v@.len() as int) == v@);
    }
    out
}

/// A copy of `v` that carries the same bindings in the same order.
pub fn clone_bindings(v: &Vec<AttributeBinding>) -> (r: Vec<AttributeBinding>)
    ensures
        bindings_match(r@, v@),
{
    let mut out: Vec<AttributeBinding> = Vec::new();
    let mut i: usize = 0;
    while i < v.len()
        invariant
            i <= v@.len(),
            out@.len() == i,
            forall|j: int|
                0 <= j < i ==> out@[j].name@ == v@[j].name@ && out@[j].slot == v@[j].slot,
        decreases v@.len() - i,
    {
        let b = AttributeBinding { name: clone_bytes(&v[i].name), slot: v[i].slot };
        out.push(b);
        i = i + 1;
    }
    out
}

} // verus!
