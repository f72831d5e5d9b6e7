//! A verified model of a single-triangle programmable rendering pipeline.
//!
//! The graphics API behind such a renderer is one large mutable state
//! machine bound to the current thread.  Here that state machine is modeled
//! explicitly as a [`pipeline::PipelineContext`] value passed to every
//! operation, so the bind/unbind discipline, the compile/link protocol and
//! the per-frame draw sequence become contracts that are checked rather than
//! conventions that are hoped for.
//!
//! The components mirror the rendering-context lifecycle:
//! shader compilation ([`shader`]), program linking ([`linker`]),
//! geometry upload ([`geometry`]), the render context itself with its
//! `initialize` / `draw_frame` protocol ([`context`]), and the per-tick
//! decision of the frame loop ([`frame_loop`]).  Window creation, event
//! dispatch and the actual GPU entry points are external collaborators and
//! live outside this library.

pub mod context;
pub mod error;
pub mod frame_loop;
pub mod geometry;
pub mod linker;
pub mod pipeline;
pub mod shader;
