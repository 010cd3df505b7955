//! The countdown's life cycle as a small state machine: idle until started,
//! running until it completes or is cancelled, and back to running only
//! through a fresh start.

use vstd::prelude::*;

verus! {

/// Where the countdown stands in its life cycle.
#[derive(Clone, Copy, PartialEq, Eq, Structural, Debug)]
pub enum CountdownPhase {
    /// No countdown has run yet, or the last one ended.
    Idle,
    /// A countdown is running and reporting remaining time.
    Running,
    /// The remaining time reached zero.
    Completed,
    /// The stop operation ended the countdown early.
    Cancelled,
}

/// What can happen to a running or waiting countdown.
#[derive(Clone, Copy, PartialEq, Eq, Structural, Debug)]
pub enum CountdownEvent {
    /// The start operation was invoked.
    Start,
    /// The remaining time reached zero.
    ReachZero,
    /// The stop operation was invoked.
    Stop,
}

/// The transition relation: a start (re-)enters `Running` from any phase but
/// `Running` itself; reaching zero completes a running countdown; a stop
/// cancels it. Nothing moves a terminal phase anywhere except a fresh start.
pub open spec fn spec_phase_step(p: CountdownPhase, e: CountdownEvent) -> CountdownPhase {
    match (p, e) {
        (CountdownPhase::Running, CountdownEvent::ReachZero) => CountdownPhase::Completed,
        (CountdownPhase::Running, CountdownEvent::Stop) => CountdownPhase::Cancelled,
        (CountdownPhase::Running, CountdownEvent::Start) => CountdownPhase::Running,
        (_, CountdownEvent::Start) => CountdownPhase::Running,
        (_, _) => p,
    }
}

impl CountdownPhase {
    /// Advances the phase by one event, exactly as `spec_phase_step` says.
    pub fn step(self, e: CountdownEvent) -> (r: CountdownPhase)
        ensures
            r == spec_phase_step(self, e),
    {
        match (self, e) {
            (CountdownPhase::Running, CountdownEvent::ReachZero) => CountdownPhase::Completed,
            (CountdownPhase::Running, CountdownEvent::Stop) => CountdownPhase::Cancelled,
            (_, CountdownEvent::Start) => CountdownPhase::Running,
            (p, _) => p,
        }
    }
}

/// Terminal phases never move on their own: only a fresh start leaves
/// `Completed` or `Cancelled`, and it leads back to `Running`.
pub proof fn lemma_terminal_phases_hold(p: CountdownPhase, e: CountdownEvent)
    requires
        p == CountdownPhase::Completed || p == CountdownPhase::Cancelled,
    ensures
        e == CountdownEvent::Start ==> spec_phase_step(p, e) == CountdownPhase::Running,
        e != CountdownEvent::Start ==> spec_phase_step(p, e) == p,
{
}

} // verus!
