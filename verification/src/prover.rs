//! The orchestrator: it owns the worker pools, the termination flag and the
//! proof counter, hands every pool its proving loop and asks them to stop.

use crate::counter::ProofCounter;
use crate::counter::TerminationFlag;
use crate::pool::build_pools;
use crate::pool::uniform_pools;
use crate::pool::InitError;
use crate::pool::PoolSet;
use crate::pool::PoolShape;
use crate::pool::WorkerPool;
use crate::work::ProvingLoop;
use crate::work::WorkContext;
use crate::work::WorkError;
use std::sync::Arc;
use vstd::prelude::*;

verus! {

/// The difficulty against which the prover's loops prove.
pub const SHARE_DIFFICULTY: u64 = 1024;

/// Milliseconds that pass before the first proving loop is started.
pub const DISPATCH_DELAY_MILLIS: u64 = 50;

/// Milliseconds between the starts of two pools' loops.
pub const STAGGER_DELAY_MILLIS: u64 = 20;

/// The prover: an ordered collection of worker pools, one termination flag
/// and one proof counter. It is made once by `init`; afterwards only `exit`
/// changes it, by raising the flag, and the loops, by counting.
pub struct Prover {
    thread_pools: PoolSet,
    terminator: TerminationFlag,
    total_proofs: ProofCounter,
}

impl Prover {
    #[verifier::type_invariant]
    spec fn pools_in_order(self) -> bool {
        self.thread_pools.wf()
    }

    /// The prover's pools, in index order.
    pub closed spec fn pools(&self) -> Seq<PoolShape> {
        self.thread_pools@
    }

    /// The pools themselves, in index order; `pools` shows their shapes.
    pub closed spec fn members(&self) -> Seq<WorkerPool> {
        self.thread_pools.members()
    }

    /// `pools` is the shape of each member, in order.
    pub proof fn lemma_members(&self)
        ensures
            self.members().len() == self.pools().len(),
            forall|i: int|
                0 <= i < self.pools().len() ==> (#[trigger] self.members()[i])@ == self.pools()[i],
    {
        self.thread_pools.lemma_members();
    }

    /// The flag that `exit` raises.
    pub closed spec fn flag(&self) -> TerminationFlag {
        self.terminator
    }

    /// The counter that the loops count into.
    pub closed spec fn counter(&self) -> ProofCounter {
        self.total_proofs
    }

    /// Makes the prover from the outcome of building its pools: around the
    /// pools where all were built, with a lowered flag and a counter at
    /// zero; and no prover at all, but the error, where one was not.
    pub fn assemble(built: Result<PoolSet, InitError>) -> (result: Result<Arc<Prover>, InitError>)
        requires
            built matches Ok(set) ==> set.wf(),
        ensures
            match built {
                Ok(set) => result matches Ok(prover) && prover.pools() == set@ && prover.members()
                    == set.members(),
                Err(error) => result == Err::<Arc<Prover>, InitError>(error),
            },
    {
        match built {
            Ok(thread_pools) => Ok(
                Arc::new(
                    Prover {
                        thread_pools,
                        terminator: TerminationFlag::new(),
                        total_proofs: ProofCounter::new(),
                    },
                ),
            ),
            Err(error) => Err(error),
        }
    }

    /// Starts a prover with `threads` pools of `cpu_threads` threads each.
    /// The first pool that cannot be built ends the start with its error,
    /// and the pools built before it are given up. Whether a pool can be
    /// built is up to the machine; with no pool to build the start succeeds.
    pub fn init(threads: u16, cpu_threads: u16) -> (result: Result<Arc<Prover>, InitError>)
        ensures
            result matches Ok(prover) ==> prover.pools() == uniform_pools(
                threads as nat,
                cpu_threads,
            ),
            result matches Err(error) ==> error.pool < threads,
            threads == 0 ==> result is Ok,
    {
        Prover::assemble(build_pools(threads, cpu_threads))
    }

    /// The number of pools.
    pub fn pool_count(&self) -> (count: usize)
        ensures
            count == self.pools().len(),
    {
        self.thread_pools.len()
    }

    /// The proof counter's value at the instant of the call.
    pub fn total_proofs(&self) -> (total: u32) {
        self.total_proofs.total()
    }

    /// Whether the termination flag reads raised at the instant of the call.
    pub fn is_exiting(&self) -> (raised: bool) {
        self.terminator.is_raised()
    }

    /// Hands `context` out: one proving loop for every pool, in index
    /// order, the loop at place `i` being that of the prover's pool `i` and
    /// none other, each with this one context (its puzzle, epoch, address
    /// and difficulty) and with the prover's flag and counter.
    pub fn dispatch(&self, context: &WorkContext) -> (workers: Vec<ProvingLoop>)
        ensures
            workers@.len() == self.pools().len(),
            forall|i: int|
                0 <= i < workers@.len() ==> {
                    &&& (#[trigger] workers@[i]).pool_index() == i
                    &&& workers@[i].pool_of() == self.members()[i]
                    &&& workers@[i].context() == *context
                    &&& workers@[i].flag() == self.flag()
                    &&& workers@[i].counter() == self.counter()
                },
    {
        proof {
            use_type_invariant(self);
            self.thread_pools.lemma_wf();
        }
        let count = self.thread_pools.len();
        let mut workers: Vec<ProvingLoop> = Vec::new();
        let mut index: usize = 0;
        while index < count
            invariant
                index <= count,
                count == self.thread_pools@.len(),
                count <= u16::MAX,
                self.thread_pools@ == uniform_pools(count as nat, self.thread_pools.threads_per_pool()),
                self.members() == self.thread_pools.members(),
                workers@.len() == index,
                forall|i: int|
                    0 <= i < index ==> {
                        &&& (#[trigger] workers@[i]).pool_index() == i
                        &&& workers@[i].pool_of() == self.members()[i]
                        &&& workers@[i].context() == *context
                        &&& workers@[i].flag() == self.terminator
                        &&& workers@[i].counter() == self.total_proofs
                    },
            decreases count - index,
        {
            let worker = ProvingLoop::new(
                self.thread_pools.get(index).share(),
                context.share(),
                self.terminator.share(),
                self.total_proofs.share(),
            );
            workers.push(worker);
            index = index + 1;
        }
        workers
    }

    /// Builds the one work context of this prover, for the difficulty
    /// `share_difficulty`, and hands it out to the pools: every loop proves
    /// against the same context. Building the context may fail, and then
    /// no loop is made.
    pub fn new_work(&self, share_difficulty: u64) -> (result: Result<Vec<ProvingLoop>, WorkError>)
        ensures
            result matches Ok(workers) ==> {
                &&& workers@.len() == self.pools().len()
                &&& forall|i: int|
                    0 <= i < workers@.len() ==> {
                        &&& (#[trigger] workers@[i]).pool_index() == i
                        &&& workers@[i].pool_of() == self.members()[i]
                        &&& workers@[i].target() == share_difficulty
                        &&& workers@[i].flag() == self.flag()
                        &&& workers@[i].counter() == self.counter()
                    }
                &&& forall|i: int, j: int|
                    0 <= i < workers@.len() && 0 <= j < workers@.len() ==> (
                    #[trigger] workers@[i]).context() == (#[trigger] workers@[j]).context()
            },
            result matches Err(error) ==> error is Key || error is Address,
    {
        self.hand_out(WorkContext::new(share_difficulty))
    }

    /// Hands out the work from the outcome of building its context: one
    /// loop per pool around a context that was built, and the error, with
    /// no loop made, where it was not.
    pub fn hand_out(&self, built: Result<WorkContext, WorkError>) -> (result: Result<
        Vec<ProvingLoop>,
        WorkError,
    >)
        ensures
            match built {
                Ok(context) => result matches Ok(workers) && {
                    &&& workers@.len() == self.pools().len()
                    &&& forall|i: int|
                        0 <= i < workers@.len() ==> {
                            &&& (#[trigger] workers@[i]).pool_index() == i
                            &&& workers@[i].pool_of() == self.members()[i]
                            &&& workers@[i].context() == context
                            &&& workers@[i].flag() == self.flag()
                            &&& workers@[i].counter() == self.counter()
                        }
                },
                Err(error) => result matches Err(reported) && reported == error,
            },
    {
        match built {
            Ok(context) => Ok(self.dispatch(&context)),
            Err(error) => Err(error),
        }
    }

    /// Asks every proving loop to stop, by raising the termination flag. It
    /// does not block, wait for the loops or join a thread, and may be
    /// called any number of times.
    pub fn exit(&self) {
        self.terminator.raise();
    }
}

} // verus!
