//! Program linking against the pipeline model.

use vstd::prelude::*;
use crate::error::RenderError;
use crate::pipeline::AttributeBinding;
use crate::pipeline::Diagnostic;
use crate::pipeline::PipelineContext;
use crate::pipeline::ShaderObject;
use crate::pipeline::bindings_match;
use crate::shader::CompiledShader;
use crate::shader::ShaderStage;

verus! {

/// A fully linked, usable program: such a value exists only when the link
/// succeeded — a failed link yields an error, never a partially usable
/// program.
#[derive(Clone, Copy, PartialEq, Eq, Structural, Debug)]
pub struct LinkedProgram {
    pub handle: u32,
}

/// Exactly what [`link`] does to the pipeline and returns.
pub open spec fn link_post(
    pre: PipelineContext,
    post: PipelineContext,
    vertex: CompiledShader,
    fragment: CompiledShader,
    bindings: Seq<AttributeBinding>,
    r: Result<LinkedProgram, RenderError>,
) -> bool {
    if pre.alloc_budget == 0 {
        &&& r matches Err(RenderError::AllocationFailure)
        &&& PipelineContext::same_state(pre, post)
    } else {
        let ok = pre.shader_ready(vertex.handle) && pre.shader_ready(fragment.handle);
        let p = pre.programs@.len() + 1;
        &&& match r {
            Ok(lp) => ok && lp.handle as int == p,
            Err(RenderError::LinkError) => !ok,
            _ => false,
        }
        &&& post.programs@.len() == p
        &&& post.programs@.drop_last() == pre.programs@
        &&& post.programs@.last().vertex_shader == vertex.handle
        &&& post.programs@.last().fragment_shader == fragment.handle
        &&& post.programs@.last().linked
        &&& post.programs@.last().link_status == ok
        &&& bindings_match(post.programs@.last().linked_bindings@, bindings)
        &&& bindings_match(post.programs@.last().pending_bindings@, bindings)
        &&& post.alloc_budget == pre.alloc_budget - 1
        &&& post.shaders@ == pre.shaders@.update(
            vertex.handle as int - 1,
            ShaderObject { deleted: true, ..pre.shader_at(vertex.handle) },
        ).update(
            fragment.handle as int - 1,
            ShaderObject { deleted: true, ..pre.shader_at(fragment.handle) },
        )
        &&& post.buffers@ == pre.buffers@
        &&& post.vertex_arrays@ == pre.vertex_arrays@
        &&& PipelineContext::same_render_state(pre, post)
        &&& post.trace@ == pre.trace@
        &&& post.diagnostics@.len() == pre.diagnostics@.len() + 1
        &&& post.diagnostics@.drop_last() == pre.diagnostics@
        &&& match post.diagnostics@.last() {
            Diagnostic::LinkStatus { status } => status as int == if ok {
                1int
            } else {
                0int
            },
            _ => false,
        }
    }
}

/// Links a program from two compiled stages.
///
/// Allocates a program object (failing with `AllocationFailure` on a zero
/// handle), attaches both stages, binds every requested attribute location
/// **before** linking — binding after a link has no effect — then links and
/// queries the link-status flag.  The raw status value is reported to the
/// diagnostics sink whether or not the link succeeded.  Ownership of the two
/// shader objects transfers here: both are released regardless of the link
/// outcome.  A false status flag yields `LinkError`.
pub fn link(
    ctx: &mut PipelineContext,
    vertex: CompiledShader,
    fragment: CompiledShader,
    bindings: &Vec<AttributeBinding>,
) -> (r: Result<LinkedProgram, RenderError>)
    requires
        old(ctx).wf(),
        old(ctx).valid_shader(vertex.handle),
        old(ctx).shader_at(vertex.handle).stage == ShaderStage::Vertex,
        vertex.stage == ShaderStage::Vertex,
        old(ctx).valid_shader(fragment.handle),
        old(ctx).shader_at(fragment.handle).stage == ShaderStage::Fragment,
        fragment.stage == ShaderStage::Fragment,
    ensures
        final(ctx).wf(),
        link_post(*old(ctx), *final(ctx), vertex, fragment, bindings@, r),
        r is Ok <==> old(ctx).alloc_budget > 0 && old(ctx).shader_ready(vertex.handle) && old(
            ctx,
        ).shader_ready(fragment.handle),
{
    let program = ctx.create_program();
    if program == 0 {
        return Err(RenderError::AllocationFailure);
    }
    ctx.attach_shader(program, vertex.handle);
    proof {
        assert(ctx.programs@ =~= old(ctx).programs@.push(ctx.programs@.last()));
    }
    ctx.attach_shader(program, fragment.handle);
    proof {
        assert(ctx.programs@ =~= old(ctx).programs@.push(ctx.programs@.last()));
    }
    let mut i: usize = 0;
    while i < bindings.len()
        invariant
            ctx.wf(),
            ctx.valid_program(program),
            program as int == old(ctx).programs@.len() + 1,
            ctx.programs@ == old(ctx).programs@.push(ctx.program_at(program)),
            ctx.program_at(program).vertex_shader == vertex.handle,
            ctx.program_at(program).fragment_shader == fragment.handle,
            !ctx.program_at(program).linked,
            !ctx.program_at(program).link_status,
            ctx.program_at(program).linked_bindings@.len() == 0,
            i <= bindings@.len(),
            bindings_match(ctx.program_at(program).pending_bindings@, bindings@.take(i as int)),
            ctx.shaders@ == old(ctx).shaders@,
            ctx.buffers@ == old(ctx).buffers@,
            ctx.vertex_arrays@ == old(ctx).vertex_arrays@,
            old(ctx).alloc_budget > 0,
            ctx.alloc_budget == old(ctx).alloc_budget - 1,
            PipelineContext::same_render_state(*old(ctx), *ctx),
            PipelineContext::same_log(*old(ctx), *ctx),
        decreases bindings@.len() - i,
    {
        ctx.bind_attrib_location(program, bindings[i].slot, &bindings[i].name);
        proof {
            assert(ctx.programs@ =~= old(ctx).programs@.push(ctx.programs@.last()));
            assert(bindings@.take(i as int + 1).drop_last() =~= bindings@.take(i as int));
        }
        i = i + 1;
    }
    proof {
        assert(bindings@.take(bindings@.len() as int) =~= bindings@);
    }
    ctx.link_program(program);
    proof {
        assert(ctx.programs@ =~= old(ctx).programs@.push(ctx.programs@.last()));
    }
    let status = ctx.get_program_link_status(program);
    ctx.report_diagnostic(Diagnostic::LinkStatus { status });
    ctx.delete_shader(vertex.handle);
    ctx.delete_shader(fragment.handle);
    proof {
        assert(ctx.programs@.drop_last() =~= old(ctx).programs@);
    }
    if status == 0 {
        return Err(RenderError::LinkError);
    }
    Ok(LinkedProgram { handle: program })
}

/// Law: binding a named attribute to a slot **after** a program was linked
/// does not change the link result already obtained — neither the link
/// status nor the bindings the linked program uses.
pub proof fn lemma_bind_after_link_is_inert(
    pre: PipelineContext,
    post: PipelineContext,
    p: u32,
    slot: u32,
    name: Seq<u8>,
)
    requires
        pre.valid_program(p),
        PipelineContext::bind_attrib_post(pre, post, p, slot, name),
    ensures
        post.program_at(p).linked == pre.program_at(p).linked,
        post.program_at(p).link_status == pre.program_at(p).link_status,
        post.program_at(p).linked_bindings@ == pre.program_at(p).linked_bindings@,
{
}

/// Law: binding a named attribute to a slot **before** the link takes
/// effect — the linked program's bindings are exactly the pending requests
/// at link time, the new one included, so the slot is the one the draw
/// feeds.
pub proof fn lemma_bind_before_link_takes_effect(
    d0: PipelineContext,
    d1: PipelineContext,
    d2: PipelineContext,
    p: u32,
    slot: u32,
    name: Seq<u8>,
)
    requires
        d0.valid_program(p),
        PipelineContext::bind_attrib_post(d0, d1, p, slot, name),
        PipelineContext::link_program_post(d1, d2, p),
    ensures
        d2.program_at(p).linked,
        d2.program_at(p).linked_bindings@.len() == d0.program_at(p).pending_bindings@.len() + 1,
        bindings_match(
            d2.program_at(p).linked_bindings@.drop_last(),
            d0.program_at(p).pending_bindings@,
        ),
        d2.program_at(p).linked_bindings@.last().name@ == name,
        d2.program_at(p).linked_bindings@.last().slot == slot,
{
    assert(bindings_match(d2.program_at(p).linked_bindings@, d1.program_at(p).pending_bindings@));
    assert(d1.program_at(p).pending_bindings@.drop_last() == d0.program_at(p).pending_bindings@);
}

} // verus!
