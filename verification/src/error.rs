//! The error taxonomy of the rendering core.

use vstd::prelude::*;
use crate::shader::ShaderStage;

verus! {

/// Everything that can go wrong while bringing a render context up.
///
/// All three variants are unrecoverable for the current run: construction
/// fails as a whole and no partially usable object is observable.
#[derive(Debug)]
pub enum RenderError {
    /// The pipeline returned a zero object handle: resource exhaustion.
    AllocationFailure,
    /// A shader stage was rejected; `log` carries the diagnostic text that
    /// the pipeline reported for it.
    CompileError { stage: ShaderStage, log: Vec<u8> },
    /// The program's link-status flag came back false.
    LinkError,
}

} // verus!
