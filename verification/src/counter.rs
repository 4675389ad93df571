//! The two values that every worker shares: the count of completed proving
//! attempts and the flag that asks the workers to stop.

use std::sync::atomic::AtomicBool;
use std::sync::atomic::AtomicU32;
use std::sync::atomic::Ordering;
use std::sync::Arc;
use vstd::prelude::*;

verus! {

/// The counter's value after one more attempt has been counted. The counter
/// is thirty-two bits wide and starts again at zero once it is full.
pub open spec fn next_count(before: u32) -> u32 {
    if before == u32::MAX {
        0
    } else {
        (before + 1) as u32
    }
}

/// One update of the counter: the value it held at the instant of the
/// update and the value the update left.
#[derive(Clone, Copy, Debug, PartialEq, Eq, Structural)]
pub struct CounterChange {
    pub before: u32,
    pub after: u32,
}

/// A handle on the process-wide count of completed proving attempts. All
/// handles made from one another by `share` count into the same cell.
pub struct ProofCounter {
    cell: Arc<AtomicU32>,
}

impl ProofCounter {
    /// A counter of its own, at zero.
    pub fn new() -> (counter: Self) {
        ProofCounter { cell: Arc::new(AtomicU32::new(0)) }
    }

    /// Another handle on the same counter.
    pub fn share(&self) -> (handle: Self)
        ensures
            handle == *self,
    {
        ProofCounter { cell: self.cell.clone() }
    }

    /// Counts one completed attempt, in one indivisible step, and says which
    /// value the counter held before and which it holds by this update.
    pub fn record(&self) -> (change: CounterChange)
        ensures
            change.after == next_count(change.before),
    {
        let before = self.cell.fetch_add(1, Ordering::SeqCst);
        let after = if before == u32::MAX {
            0
        } else {
            before + 1
        };
        CounterChange { before, after }
    }

    /// The counter's value at the instant of the call. Other workers may
    /// have counted on by the time it is returned.
    pub fn total(&self) -> (total: u32) {
        self.cell.load(Ordering::SeqCst)
    }
}

/// A handle on the process-wide request to stop. The flag starts lowered;
/// nothing in this library lowers it again once it is raised.
pub struct TerminationFlag {
    cell: Arc<AtomicBool>,
}

impl TerminationFlag {
    /// A flag of its own, lowered.
    pub fn new() -> (flag: Self) {
        TerminationFlag { cell: Arc::new(AtomicBool::new(false)) }
    }

    /// Another handle on the same flag.
    pub fn share(&self) -> (handle: Self)
        ensures
            handle == *self,
    {
        TerminationFlag { cell: self.cell.clone() }
    }

    /// Raises the flag. It neither blocks nor waits for any worker.
    pub fn raise(&self) {
        self.cell.store(true, Ordering::SeqCst);
    }

    /// Whether the flag reads raised at the instant of the call.
    pub fn is_raised(&self) -> (raised: bool) {
        self.cell.load(Ordering::SeqCst)
    }
}

} // verus!
