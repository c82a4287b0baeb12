//! The pause between two synchronization cycles.
//!
//! The pause is slept in short steps, and before each step the driver asks
//! whether to go on, so that a shutdown never waits for the whole pause.

use vstd::prelude::*;

verus! {

/// The length of one step of the pause, in milliseconds.
pub const IDLE_STEP_MILLIS: u64 = 5000;

/// What to do with the rest of a pause.
#[derive(Debug, Clone, Copy, PartialEq, Eq, Structural)]
pub enum IdleStep {
    /// The pause is over: begin the next cycle.
    Resume,
    /// Shutdown was asked for: leave the loop.
    Stop,
    /// Sleep for `millis`, then ask again with `remaining`.
    Sleep { millis: u64, remaining: u64 },
}

/// The decision for a pause of which `remaining` milliseconds are left.
///
/// A pause that is over resumes whether or not shutdown was asked for;
/// otherwise shutdown wins; otherwise one full step is slept, also where
/// less than a step is left.
pub open spec fn idle_decision(remaining: u64, cancelled: bool) -> IdleStep {
    if remaining == 0 {
        IdleStep::Resume
    } else if cancelled {
        IdleStep::Stop
    } else {
        IdleStep::Sleep {
            millis: IDLE_STEP_MILLIS,
            remaining: if remaining > IDLE_STEP_MILLIS {
                (remaining - IDLE_STEP_MILLIS) as u64
            } else {
                0
            },
        }
    }
}

/// Decides what to do with the rest of a pause.
pub fn idle_step(remaining: u64, cancelled: bool) -> (r: IdleStep)
    ensures
        r == idle_decision(remaining, cancelled),
{
    if remaining == 0 {
        IdleStep::Resume
    } else if cancelled {
        IdleStep::Stop
    } else {
        IdleStep::Sleep {
            millis: IDLE_STEP_MILLIS,
            remaining: remaining.saturating_sub(IDLE_STEP_MILLIS),
        }
    }
}

/// The number of steps that an undisturbed pause of `remaining` milliseconds
/// sleeps.
pub open spec fn idle_steps(remaining: u64) -> nat
    decreases remaining,
{
    match idle_decision(remaining, false) {
        IdleStep::Sleep { remaining: left, .. } => 1 + idle_steps(left),
        _ => 0,
    }
}

/// An undisturbed pause sleeps at least as long as asked, and overshoots by
/// less than one step.
pub proof fn lemma_idle_covers_pause(remaining: u64)
    ensures
        idle_steps(remaining) * IDLE_STEP_MILLIS >= remaining,
        idle_steps(remaining) * IDLE_STEP_MILLIS < remaining + IDLE_STEP_MILLIS,
    decreases remaining,
{
    if remaining > IDLE_STEP_MILLIS {
        lemma_idle_covers_pause((remaining - IDLE_STEP_MILLIS) as u64);
    } else if remaining > 0 {
        assert(idle_steps(0) == 0);
    }
}

/// Shutdown is noticed within one step: whenever the driver is told to
/// sleep, it is for one step, and asking again after a shutdown request
/// never leads to another sleep.
pub proof fn lemma_shutdown_within_one_step(remaining: u64)
    ensures
        idle_decision(remaining, false) matches IdleStep::Sleep { millis, remaining: left }
            ==> millis == IDLE_STEP_MILLIS && !(idle_decision(left, true) is Sleep),
{
}

} // verus!
