//! The rolling history of counter snapshots behind the throughput windows.

use std::collections::VecDeque;
use vstd::prelude::*;

verus! {

/// How many snapshots the history keeps: one a minute, for an hour.
pub const HISTORY_SLOTS: usize = 60;

/// The snapshot that a history with the entries `entries` holds for
/// `minutes` ticks ago: the newest entry is one tick old, the oldest sixty.
/// It is `None` where no tick was recorded that long ago, and outside the
/// history's reach.
pub open spec fn snapshot_ago(entries: Seq<Option<u32>>, minutes: int) -> Option<u32> {
    if 1 <= minutes <= entries.len() {
        entries[entries.len() - minutes]
    } else {
        None
    }
}

/// The entries after `value` has been recorded: the oldest entry leaves,
/// the others move up, `value` becomes the newest.
pub open spec fn after_record(entries: Seq<Option<u32>>, value: u32) -> Seq<Option<u32>> {
    entries.subrange(1, entries.len() as int).push(Some(value))
}

/// The entries of a history in which no tick has been recorded.
pub open spec fn unrecorded() -> Seq<Option<u32>> {
    Seq::new(HISTORY_SLOTS as nat, |i: int| None::<u32>)
}

/// Counter snapshots of the last sixty ticks, oldest first. The place of a
/// tick that has not happened holds `None`, so that a counter read as zero
/// is told from no reading at all.
pub struct RateHistory {
    log: VecDeque<Option<u32>>,
}

impl View for RateHistory {
    type V = Seq<Option<u32>>;

    closed spec fn view(&self) -> Seq<Option<u32>> {
        self.log@
    }
}

impl RateHistory {
    /// The history always holds exactly sixty entries.
    pub closed spec fn wf(&self) -> bool {
        self.log@.len() == HISTORY_SLOTS
    }

    /// A well-formed history has sixty entries.
    pub proof fn lemma_wf_len(&self)
        requires
            self.wf(),
        ensures
            self@.len() == HISTORY_SLOTS,
    {
    }

    /// A history in which no tick has been recorded: sixty empty places.
    pub fn new() -> (history: Self)
        ensures
            history.wf(),
            history@ == unrecorded(),
    {
        let mut log: VecDeque<Option<u32>> = VecDeque::new();
        let mut filled: usize = 0;
        while filled < HISTORY_SLOTS
            invariant
                filled <= HISTORY_SLOTS,
                log@ == Seq::new(filled as nat, |i: int| None::<u32>),
            decreases HISTORY_SLOTS - filled,
        {
            log.push_back(None);
            filled = filled + 1;
        }
        RateHistory { log }
    }

    /// The snapshot taken `minutes` ticks ago, or `None` where no tick was
    /// recorded then or the history does not reach that far.
    pub fn ago(&self, minutes: usize) -> (snapshot: Option<u32>)
        requires
            self.wf(),
        ensures
            snapshot == snapshot_ago(self@, minutes as int),
    {
        if 1 <= minutes && minutes <= HISTORY_SLOTS {
            self.log[HISTORY_SLOTS - minutes]
        } else {
            None
        }
    }

    /// Records the snapshot of the current tick and evicts the oldest one.
    pub fn record(&mut self, value: u32)
        requires
            old(self).wf(),
        ensures
            final(self).wf(),
            final(self)@ == after_record(old(self)@, value),
    {
        self.log.push_back(Some(value));
        let _ = self.log.pop_front();
        assert(self.log@ =~= after_record(old(self).log@, value));
    }
}

/// After `value` is recorded it is the snapshot of one tick ago, and every
/// other snapshot is one tick older than it was.
pub proof fn lemma_record_shifts(entries: Seq<Option<u32>>, value: u32, minutes: int)
    requires
        entries.len() == HISTORY_SLOTS,
        1 <= minutes <= HISTORY_SLOTS,
    ensures
        snapshot_ago(after_record(entries, value), 1) == Some(value),
        minutes >= 2 ==> snapshot_ago(after_record(entries, value), minutes) == snapshot_ago(
            entries,
            minutes - 1,
        ),
{
}

} // verus!
