//! What one proving attempt yields.

use crate::counter::CounterChange;
use vstd::prelude::*;

verus! {

/// How one proving attempt ended.
#[derive(Clone, Copy, Debug, PartialEq, Eq, Structural)]
pub enum AttemptOutcome {
    /// The solver produced a solution whose target meets the difficulty.
    Found,
    /// The solver produced a solution whose target is under the difficulty.
    BelowTarget,
    /// The solver reported an error for this attempt.
    Failed,
}

/// The outcome of an attempt whose solver returned `achieved` (`None` for a
/// solver error) against the difficulty `target`.
pub open spec fn outcome_of(achieved: Option<u64>, target: u64) -> AttemptOutcome {
    match achieved {
        Some(value) => if value >= target {
            AttemptOutcome::Found
        } else {
            AttemptOutcome::BelowTarget
        },
        None => AttemptOutcome::Failed,
    }
}

/// Classifies the result of one solver call.
pub fn classify(achieved: Option<u64>, target: u64) -> (outcome: AttemptOutcome)
    ensures
        outcome == outcome_of(achieved, target),
{
    match achieved {
        Some(value) => if value >= target {
            AttemptOutcome::Found
        } else {
            AttemptOutcome::BelowTarget
        },
        None => AttemptOutcome::Failed,
    }
}

/// What one proving attempt did: which pool's loop made it, which nonce it
/// tried, what the solver returned (`None` for a solver error), how that
/// was classified, and the update of the proof counter that counted it.
#[derive(Clone, Copy, Debug, PartialEq, Eq, Structural)]
pub struct AttemptRecord {
    pub pool: u16,
    pub nonce: u64,
    pub achieved: Option<u64>,
    pub outcome: AttemptOutcome,
    pub change: CounterChange,
}

} // verus!
