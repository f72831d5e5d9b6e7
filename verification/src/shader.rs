//! Shader-stage compilation against the pipeline model.
//!
//! The model pipeline accepts a stage source exactly when it contains the
//! entry-point token `void main(`; a rejected source gets a fixed, non-empty
//! info log.  Every well-formed stage source satisfies the rule and any text
//! without an entry point is rejected, which is all the compile protocol
//! observes.

use vstd::prelude::*;
use crate::error::RenderError;
use crate::pipeline::Diagnostic;
use crate::pipeline::PipelineContext;

verus! {

/// One phase of the programmable pipeline.
#[derive(Clone, Copy, PartialEq, Eq, Structural, Debug)]
pub enum ShaderStage {
    Vertex,
    Fragment,
}

/// The entry-point token a stage source must contain: the bytes of
/// `void main(`.
pub open spec fn entry_token() -> Seq<u8> {
    seq![118u8, 111u8, 105u8, 100u8, 32u8, 109u8, 97u8, 105u8, 110u8, 40u8]
}

/// The entry-point token occurs in `s` at position `i`.
pub open spec fn token_at(s: Seq<u8>, i: int) -> bool {
    &&& 0 <= i
    &&& i + entry_token().len() <= s.len()
    &&& s.subrange(i, i + entry_token().len()) == entry_token()
}

/// The model pipeline's compilation rule: a source is accepted exactly when
/// the entry-point token occurs somewhere in it.
pub open spec fn source_accepted(s: Seq<u8>) -> bool {
    exists|i: int| token_at(s, i)
}

/// The info-log text the pipeline reports for a rejected source: the bytes
/// of `no entry point`.
pub open spec fn compile_failure_log() -> Seq<u8> {
    seq![
        110u8,
        111u8,
        32u8,
        101u8,
        110u8,
        116u8,
        114u8,
        121u8,
        32u8,
        112u8,
        111u8,
        105u8,
        110u8,
        116u8,
    ]
}

/// The entry-point token as a byte vector.
fn entry_token_bytes() -> (r: Vec<u8>)
    ensures
        r@ == entry_token(),
{
    let mut v: Vec<u8> = Vec::new();
    v.push(118);
    v.push(111);
    v.push(105);
    v.push(100);
    v.push(32);
    v.push(109);
    v.push(97);
    v.push(105);
    v.push(110);
    v.push(40);
    proof {
        assert(v@ =~= entry_token());
    }
    v
}

/// The fixed rejection log as a byte vector.
pub fn compile_failure_message() -> (r: Vec<u8>)
    ensures
        r@ == compile_failure_log(),
{
    let mut v: Vec<u8> = Vec::new();
    v.push(110);
    v.push(111);
    v.push(32);
    v.push(101);
    v.push(110);
    v.push(116);
    v.push(114);
    v.push(121);
    v.push(32);
    v.push(112);
    v.push(111);
    v.push(105);
    v.push(110);
    v.push(116);
    proof {
        assert(v@ =~= compile_failure_log());
    }
    v
}

/// Whether `token` occurs in `s` starting at `i`.
fn match_at(s: &Vec<u8>, token: &Vec<u8>, i: usize) -> (r: bool)
    requires
        i + token@.len() <= s@.len(),
    ensures
        r == (s@.subrange(i as int, i as int + token@.len()) == token@),
{
    let n = s.len();
    let mut j: usize = 0;
    while j < token.len()
        invariant
            n == s@.len(),
            i + token@.len() <= s@.len(),
            j <= token@.len(),
            forall|k: int| 0 <= k < j ==> s@[i + k] == token@[k],
        decreases token@.len() - j,
    {
        proof {
            assert(i + j < s@.len());
        }
        if s[i + j] != token[j] {
            proof {
                let sub = s@.subrange(i as int, i as int + token@.len());
                assert(sub[j as int] == s@[i + j]);
                assert(sub != token@);
            }
            return false;
        }
        j = j + 1;
    }
    proof {
        assert(s@.subrange(i as int, i as int + token@.len()) =~= token@);
    }
    true
}

/// Decides the compilation rule: whether the entry-point token occurs in
/// `source`.
pub fn source_has_entry_point(source: &Vec<u8>) -> (r: bool)
    ensures
        r == source_accepted(source@),
{
    let token = entry_token_bytes();
    if source.len() < token.len() {
        proof {
            assert(forall|i: int| !token_at(source@, i));
        }
        return false;
    }
    let last = source.len() - token.len();
    let mut i: usize = 0;
    while i <= last
        invariant
            token@ == entry_token(),
            token@.len() == 10,
            token@.len() <= source@.len(),
            source@.len() <= usize::MAX,
            last + 10 == source@.len(),
            i <= last + 1,
            forall|k: int| 0 <= k < i ==> !token_at(source@, k),
        decreases last + 1 - i,
    {
        if match_at(source, &token, i) {
            proof {
                assert(token_at(source@, i as int));
            }
            return true;
        }
        i = i + 1;
    }
    proof {
        assert(forall|k: int| !token_at(source@, k));
    }
    false
}

/// A compiled shader stage: the pipeline handle and the stage it was
/// compiled for.  Values of this type only come out of [`compile`], which
/// returns one exactly when the pipeline holds a live compiled shader under
/// the handle.
#[derive(Clone, Copy, PartialEq, Eq, Structural, Debug)]
pub struct CompiledShader {
    pub handle: u32,
    pub stage: ShaderStage,
}

/// Exactly what [`compile`] does to the pipeline and returns, as a relation
/// between the state before (`pre`) and after (`post`).
pub open spec fn compile_post(
    pre: PipelineContext,
    post: PipelineContext,
    stage: ShaderStage,
    source: Seq<u8>,
    r: Result<CompiledShader, RenderError>,
) -> bool {
    if pre.alloc_budget == 0 {
        &&& r matches Err(RenderError::AllocationFailure)
        &&& PipelineContext::same_state(pre, post)
    } else if source_accepted(source) {
        &&& match r {
            Ok(cs) => {
                &&& cs.handle as int == pre.shaders@.len() + 1
                &&& cs.stage == stage
                &&& post.valid_shader(cs.handle)
                &&& post.shaders@ == pre.shaders@.push(post.shader_at(cs.handle))
                &&& post.shader_at(cs.handle).stage == stage
                &&& post.shader_at(cs.handle).source@ == source
                &&& post.shader_at(cs.handle).compiled
                &&& !post.shader_at(cs.handle).deleted
                &&& post.shader_at(cs.handle).info_log@.len() == 0
            },
            Err(_) => false,
        }
        &&& post.alloc_budget == pre.alloc_budget - 1
        &&& post.programs@ == pre.programs@
        &&& post.buffers@ == pre.buffers@
        &&& post.vertex_arrays@ == pre.vertex_arrays@
        &&& PipelineContext::same_render_state(pre, post)
        &&& PipelineContext::same_log(pre, post)
    } else {
        &&& match r {
            Err(RenderError::CompileError { stage: st, log }) => {
                &&& st == stage
                &&& log@ == compile_failure_log()
            },
            _ => false,
        }
        &&& post.shaders@.len() == pre.shaders@.len() + 1
        &&& post.shaders@.drop_last() == pre.shaders@
        &&& post.shaders@.last().stage == stage
        &&& post.shaders@.last().source@ == source
        &&& !post.shaders@.last().compiled
        &&& post.shaders@.last().deleted
        &&& post.shaders@.last().info_log@ == compile_failure_log()
        &&& post.alloc_budget == pre.alloc_budget - 1
        &&& post.programs@ == pre.programs@
        &&& post.buffers@ == pre.buffers@
        &&& post.vertex_arrays@ == pre.vertex_arrays@
        &&& PipelineContext::same_render_state(pre, post)
        &&& post.trace@ == pre.trace@
        &&& post.diagnostics@.len() == pre.diagnostics@.len() + 1
        &&& post.diagnostics@.drop_last() == pre.diagnostics@
        &&& match post.diagnostics@.last() {
            Diagnostic::CompileLog { stage: st, log } => st == stage && log@
                == compile_failure_log(),
            _ => false,
        }
    }
}

/// Compiles one shader stage from `source`.
///
/// Allocates a shader object (failing with `AllocationFailure` on a zero
/// handle), submits the source as one string, compiles it and queries the
/// compile-status flag.  On rejection the info log is fetched whenever its
/// reported length exceeds one byte, surfaced to the diagnostics sink, the
/// shader object is released, and `CompileError` carries the log out: a
/// caller only ever observes a fully valid [`CompiledShader`] or an error.
pub fn compile(ctx: &mut PipelineContext, stage: ShaderStage, source: &Vec<u8>) -> (r: Result<
    CompiledShader,
    RenderError,
>)
    requires
        old(ctx).wf(),
    ensures
        final(ctx).wf(),
        compile_post(*old(ctx), *final(ctx), stage, source@, r),
        r is Ok <==> old(ctx).alloc_budget > 0 && source_accepted(source@),
{
    let shader = ctx.create_shader(stage);
    if shader == 0 {
        return Err(RenderError::AllocationFailure);
    }
    ctx.shader_source(shader, source);
    ctx.compile_shader(shader);
    let compiled = ctx.get_shader_compile_status(shader);
    if compiled == 0 {
        let info_len = ctx.get_shader_info_log_length(shader);
        let log = if info_len > 1 {
            ctx.get_shader_info_log(shader)
        } else {
            Vec::new()
        };
        let surfaced = crate::pipeline::clone_bytes(&log);
        ctx.report_diagnostic(Diagnostic::CompileLog { stage, log: surfaced });
        ctx.delete_shader(shader);
        proof {
            assert(ctx.shaders@.drop_last() =~= old(ctx).shaders@);
        }
        return Err(RenderError::CompileError { stage, log });
    }
    proof {
        assert(ctx.shaders@ =~= old(ctx).shaders@.push(ctx.shaders@[ctx.shaders@.len() - 1]));
    }
    Ok(CompiledShader { handle: shader, stage })
}

/// Law: whenever a source is rejected (and a shader object could be
/// allocated at all), [`compile`] returns `CompileError` for that stage and
/// the surfaced log is non-empty — the pipeline's reported log length always
/// exceeds the bare terminator.
pub proof fn lemma_rejected_compile_surfaces_log(
    pre: PipelineContext,
    post: PipelineContext,
    stage: ShaderStage,
    source: Seq<u8>,
    r: Result<CompiledShader, RenderError>,
)
    requires
        compile_post(pre, post, stage, source, r),
        pre.alloc_budget > 0,
        !source_accepted(source),
    ensures
        match r {
            Err(RenderError::CompileError { stage: st, log }) => st == stage && log@.len() > 0,
            _ => false,
        },
{
    assert(compile_failure_log().len() == 14);
}

} // verus!
