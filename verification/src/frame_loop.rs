//! The per-tick decision of the frame loop.
//!
//! The loop itself lives with the platform: each tick it pulls an event
//! from the surface, asks this module what to do, and either renders a
//! frame and requests a buffer swap or stops.  The decision is the only
//! logic in it, and it is total: every event maps to exactly one action.

use vstd::prelude::*;

verus! {

/// What the surface reported this tick.
#[derive(Clone, Copy, PartialEq, Eq, Structural, Debug)]
pub enum SurfaceEvent {
    /// The surface received a close signal.
    Closed,
    /// Any other wake-up: render the next frame.
    Tick,
}

/// What the driver must do this tick.
#[derive(Clone, Copy, PartialEq, Eq, Structural, Debug)]
pub enum FrameAction {
    /// Draw one frame at the surface's current size, then swap buffers.
    RenderAndSwap,
    /// Leave the loop; the context is never drawn again.
    Stop,
}

/// The frame loop's whole decision: render on every event until the close
/// signal, which stops the loop.
pub fn next_action(event: SurfaceEvent) -> (r: FrameAction)
    ensures
        r == (match event {
            SurfaceEvent::Closed => FrameAction::Stop,
            SurfaceEvent::Tick => FrameAction::RenderAndSwap,
        }),
{
    match event {
        SurfaceEvent::Closed => FrameAction::Stop,
        SurfaceEvent::Tick => FrameAction::RenderAndSwap,
    }
}

} // verus!
