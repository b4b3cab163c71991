//! The radiance integrator's discrete decisions.
//!
//! The integrator walks one sample through the scene bounce by bounce.
//! The geometry of each bounce is floating-point work done outside this
//! library; what the walk does with each outcome — and when the bounce
//! budget ends it — is decided here, under proof.

use vstd::prelude::*;

verus! {

/// What one bounce of a traced sample reported back.
#[derive(Debug, Clone, Copy, PartialEq, Eq, Structural)]
pub enum TraceEvent {
    /// No shape met the ray.
    NoHit,
    /// The nearest surface's material absorbed the sample.
    Absorbed,
    /// The nearest surface scattered the sample into a new ray.
    Scattered,
}

/// What the integrator does next with the sample.
#[derive(Debug, Clone, Copy, PartialEq, Eq, Structural)]
pub enum TraceAction {
    /// Return the background gradient, under the attenuation so far.
    ReturnBackground,
    /// Return black: the sample's energy is lost.
    ReturnBlack,
    /// Multiply in the attenuation and follow the scattered ray, one
    /// bounce deeper.
    Continue,
}

/// The integrator's decision table: a sample that escapes every shape
/// takes the background; an absorbed sample is black; a scattered sample
/// walks on only while the bounce budget allows, and is black once
/// `depth` reaches `max_scatter_depth`.
pub open spec fn trace_action_of(depth: u32, max_scatter_depth: u32, event: TraceEvent) -> TraceAction {
    match event {
        TraceEvent::NoHit => TraceAction::ReturnBackground,
        TraceEvent::Absorbed => TraceAction::ReturnBlack,
        TraceEvent::Scattered => if depth < max_scatter_depth {
            TraceAction::Continue
        } else {
            TraceAction::ReturnBlack
        },
    }
}

/// Decides what the walk does after one bounce, at `depth` bounces into
/// a budget of `max_scatter_depth`.
pub fn trace_step(depth: u32, max_scatter_depth: u32, event: TraceEvent) -> (action: TraceAction)
    ensures
        action == trace_action_of(depth, max_scatter_depth, event),
{
    match event {
        TraceEvent::NoHit => TraceAction::ReturnBackground,
        TraceEvent::Absorbed => TraceAction::ReturnBlack,
        TraceEvent::Scattered => {
            if depth < max_scatter_depth {
                TraceAction::Continue
            } else {
                TraceAction::ReturnBlack
            }
        },
    }
}

/// A sample that meets no shape takes the background on the spot: no
/// depth, budget, or earlier bounce changes that, so against an empty
/// shape list every walk ends at the background.
pub proof fn lemma_miss_takes_background(depth: u32, max_scatter_depth: u32)
    ensures
        trace_action_of(depth, max_scatter_depth, TraceEvent::NoHit)
            == TraceAction::ReturnBackground,
{
}

/// Once the bounce budget is exhausted, a sample that met a surface is
/// black whatever its material did: the walk need not even ask the
/// material to scatter, and so draws nothing from the random stream.
pub proof fn lemma_budget_exhausted(depth: u32, max_scatter_depth: u32, event: TraceEvent)
    requires
        depth >= max_scatter_depth,
        event != TraceEvent::NoHit,
    ensures
        trace_action_of(depth, max_scatter_depth, event) == TraceAction::ReturnBlack,
{
}

/// The depth a walk carries stays capped: the walk only continues while
/// `depth` is under the budget, so the next depth never exceeds it.
pub proof fn lemma_depth_capped(depth: u32, max_scatter_depth: u32, event: TraceEvent)
    requires
        trace_action_of(depth, max_scatter_depth, event) == TraceAction::Continue,
    ensures
        depth < max_scatter_depth,
        depth + 1 <= max_scatter_depth,
{
}

} // verus!
