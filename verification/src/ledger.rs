//! What holds of the proof counter over any run of attempts, whichever
//! loops made them and however they were interleaved.

use crate::attempt::AttemptRecord;
use crate::counter::next_count;
use vstd::prelude::*;

verus! {

/// Whether `records` is a run of attempts in the order in which the counter
/// took their updates: every update counts one attempt, and each finds the
/// value that the one before it left.
pub open spec fn is_history(records: Seq<AttemptRecord>) -> bool {
    &&& forall|i: int|
        0 <= i < records.len() ==> (#[trigger] records[i]).change.after == next_count(
            records[i].change.before,
        )
    &&& forall|i: int, j: int|
        #![trigger records[i], records[j]]
        0 <= i && j == i + 1 && j < records.len() ==> records[j].change.before
            == records[i].change.after
}

/// Whether the history `records` begins with the counter at `start`. A
/// history without attempts begins wherever the counter stands.
pub open spec fn begins_at(records: Seq<AttemptRecord>, start: u32) -> bool {
    records.len() > 0 ==> records[0].change.before == start
}

/// Where the counter stands after the history `records` that began with it
/// at `start`.
pub open spec fn counter_after(start: u32, records: Seq<AttemptRecord>) -> u32 {
    if records.len() == 0 {
        start
    } else {
        records.last().change.after
    }
}

/// How many of `records` the loop of pool `pool` made.
pub open spec fn attempts_from(records: Seq<AttemptRecord>, pool: u16) -> nat
    decreases records.len(),
{
    if records.len() == 0 {
        0
    } else {
        attempts_from(records.drop_last(), pool) + if records.last().pool == pool {
            1nat
        } else {
            0nat
        }
    }
}

/// How many of `records` the loops of the pools `0 .. pools` made together.
pub open spec fn attempts_below(records: Seq<AttemptRecord>, pools: nat) -> nat
    decreases pools,
{
    if pools == 0 {
        0
    } else {
        attempts_below(records, (pools - 1) as nat) + if pools - 1 <= u16::MAX {
            attempts_from(records, (pools - 1) as u16)
        } else {
            0nat
        }
    }
}

/// Every attempt moves the counter up by exactly one, whether it found a
/// solution, stayed under the target or failed: while the counter has not
/// run full, the attempt at place `i` finds it `i` above where the history
/// began and leaves it one higher.
pub proof fn lemma_counter_counts_every_attempt(records: Seq<AttemptRecord>, i: int)
    requires
        is_history(records),
        0 <= i < records.len(),
        records[0].change.before + i < u32::MAX,
    ensures
        records[i].change.before == records[0].change.before + i,
        records[i].change.after == records[0].change.before + i + 1,
    decreases i,
{
    if i > 0 {
        lemma_counter_counts_every_attempt(records, i - 1);
        assert(records[i].change.before == records[i - 1].change.after);
    }
}

/// The counter never decreases: while it has not run full, a later attempt
/// leaves it at least as high as an earlier one, and every attempt leaves
/// it higher than it found it.
pub proof fn lemma_counter_never_decreases(records: Seq<AttemptRecord>, i: int, j: int)
    requires
        is_history(records),
        0 <= i <= j < records.len(),
        records[0].change.before + j < u32::MAX,
    ensures
        records[i].change.before < records[i].change.after,
        records[i].change.after <= records[j].change.after,
{
    lemma_counter_counts_every_attempt(records, i);
    lemma_counter_counts_every_attempt(records, j);
}

/// What the counter shows does not depend on how any attempt ended nor on
/// which pool made it: two histories of the same length that begin at the
/// same value show the same counter at every place. A solver failure in
/// one pool's loop therefore leaves the counting of every other pool's
/// attempts as it would have been.
pub proof fn lemma_outcomes_do_not_move_the_counter(
    a: Seq<AttemptRecord>,
    b: Seq<AttemptRecord>,
    i: int,
)
    requires
        is_history(a),
        is_history(b),
        a.len() == b.len(),
        0 <= i < a.len(),
        a[0].change.before == b[0].change.before,
    ensures
        a[i].change == b[i].change,
    decreases i,
{
    if i > 0 {
        lemma_outcomes_do_not_move_the_counter(a, b, i - 1);
        assert(a[i].change.before == a[i - 1].change.after);
        assert(b[i].change.before == b[i - 1].change.after);
    }
}

/// No attempt is made by a pool below zero pools.
proof fn lemma_attempts_below_empty(pools: nat)
    ensures
        attempts_below(Seq::<AttemptRecord>::empty(), pools) == 0,
    decreases pools,
{
    if pools > 0 {
        lemma_attempts_below_empty((pools - 1) as nat);
    }
}

/// The last record adds one to the count of the pools `0 .. pools` exactly
/// when its pool is among them.
proof fn lemma_attempts_below_step(records: Seq<AttemptRecord>, pools: nat)
    requires
        records.len() > 0,
    ensures
        attempts_below(records, pools) == attempts_below(records.drop_last(), pools) + if (
        records.last().pool as nat) < pools {
            1nat
        } else {
            0nat
        },
    decreases pools,
{
    if pools > 0 {
        lemma_attempts_below_step(records, (pools - 1) as nat);
    }
}

/// The attempts of a history are those of its pools taken together: where
/// every record comes from one of the pools `0 .. pools`, the per-pool
/// counts add up to the length of the history.
pub proof fn lemma_attempts_add_up(records: Seq<AttemptRecord>, pools: nat)
    requires
        forall|i: int| 0 <= i < records.len() ==> ((#[trigger] records[i]).pool as nat) < pools,
    ensures
        attempts_below(records, pools) == records.len(),
    decreases records.len(),
{
    if records.len() == 0 {
        assert(records =~= Seq::<AttemptRecord>::empty());
        lemma_attempts_below_empty(pools);
    } else {
        lemma_attempts_add_up(records.drop_last(), pools);
        lemma_attempts_below_step(records, pools);
    }
}

/// Every attempt is counted exactly once, whichever loop made it and
/// however the loops' attempts were interleaved: after a history that began
/// with the counter at `start`, the counter stands at `start` and the
/// number of attempts, while it has not run full. A history without
/// attempts leaves it where it stood.
pub proof fn lemma_counter_counts_the_attempts(start: u32, records: Seq<AttemptRecord>)
    requires
        is_history(records),
        begins_at(records, start),
        start + records.len() <= u32::MAX,
    ensures
        counter_after(start, records) == start + records.len(),
{
    if records.len() > 0 {
        lemma_counter_counts_every_attempt(records, records.len() - 1);
    }
}

/// At the end of a history the counter stands at the sum of the attempts
/// that the pools made, above where it began, while it has not run full:
/// nothing but the loops' attempts adds to it, and none of them is lost or
/// counted twice.
pub proof fn lemma_counter_is_sum_of_pools(start: u32, records: Seq<AttemptRecord>, pools: nat)
    requires
        is_history(records),
        begins_at(records, start),
        forall|i: int| 0 <= i < records.len() ==> ((#[trigger] records[i]).pool as nat) < pools,
        start + records.len() <= u32::MAX,
    ensures
        counter_after(start, records) == start + attempts_below(records, pools),
{
    lemma_attempts_add_up(records, pools);
    lemma_counter_counts_the_attempts(start, records);
}

} // verus!
