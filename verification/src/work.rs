//! The work that every proving loop shares and the loop itself: poll the
//! termination flag, try one nonce, count the attempt, again.

use crate::attempt::classify;
use crate::attempt::outcome_of;
use crate::attempt::AttemptOutcome;
use crate::attempt::AttemptRecord;
use crate::counter::next_count;
use crate::counter::ProofCounter;
use crate::counter::TerminationFlag;
use crate::pool::WorkerPool;
use rand::rngs::ThreadRng;
use rand::Rng;
use rayon::ThreadPool;
use snarkvm::prelude::puzzle::Puzzle;
use snarkvm::prelude::store::helpers::memory::ConsensusMemory;
use snarkvm::prelude::Address;
use snarkvm::prelude::Network;
use snarkvm::prelude::PrivateKey;
use snarkvm::prelude::TestnetV0;
use snarkvm::synthesizer::VM;
use snarkvm::utilities::TestRng;
use vstd::prelude::*;

verus! {

/// The error type of the puzzle and account calls.
#[verifier::external_type_specification]
#[verifier::external_body]
pub struct ExSolverError(anyhow::Error);

/// The generator from which the ephemeral key is sampled.
#[verifier::external_type_specification]
#[verifier::external_body]
pub struct ExTestRng(snarkvm::utilities::TestRng);

/// The generator from which nonces are drawn.
#[verifier::external_type_specification]
#[verifier::external_body]
pub struct ExThreadRng(rand::rngs::ThreadRng);

/// The puzzle of the network: an opaque capability that is asked for a
/// solution and cloned for every worker. The puzzle's type is generic over
/// the network trait, which Verus does not take as a bound, so it is held
/// behind a struct of which Verus sees nothing; likewise the three below.
#[verifier::external_body]
pub struct PuzzleHandle {
    inner: Puzzle<TestnetV0>,
}

/// The hash that identifies the epoch for which solutions are sought.
#[verifier::external_body]
pub struct EpochHash {
    inner: <TestnetV0 as Network>::BlockHash,
}

/// The address in whose name solutions are made.
#[verifier::external_body]
pub struct SolverAddress {
    inner: Address<TestnetV0>,
}

/// The private key from which the solver's address is derived.
#[verifier::external_body]
pub struct SolverKey {
    inner: PrivateKey<TestnetV0>,
}

/// Why the work context could not be built.
pub enum WorkError {
    /// No private key could be sampled.
    Key(anyhow::Error),
    /// No address could be derived from the key.
    Address(anyhow::Error),
    /// The puzzle could not be set up.
    Puzzle(anyhow::Error),
}

/// `TestRng::default`: a generator seeded from the system's entropy.
#[verifier::external_body]
fn entropy_rng() -> (rng: TestRng) {
    TestRng::default()
}

/// `PrivateKey::new`: a private key sampled from `rng`, or the error of a
/// seed from which no key derives.
#[verifier::external_body]
fn sample_key(rng: &mut TestRng) -> (key: Result<SolverKey, anyhow::Error>) {
    match PrivateKey::<TestnetV0>::new(rng) {
        Ok(inner) => Ok(SolverKey { inner }),
        Err(error) => Err(error),
    }
}

/// The address of the account with the private key `key`, where the key
/// has one.
pub uninterp spec fn address_of(key: SolverKey) -> Option<SolverAddress>;

/// `Address::try_from` on a private key: the account's address, which
/// depends on the key alone, or an error where none derives from the key.
#[verifier::external_body]
fn derive_address(key: SolverKey) -> (address: Result<SolverAddress, anyhow::Error>)
    ensures
        match address_of(key) {
            Some(derived) => address matches Ok(given) && given == derived,
            None => address is Err,
        },
{
    match Address::try_from(key.inner) {
        Ok(inner) => Ok(SolverAddress { inner }),
        Err(error) => Err(error),
    }
}

/// `Default::default` of the network's block hash: the hash of all zeros.
#[verifier::external_body]
fn default_epoch_hash() -> (hash: EpochHash) {
    EpochHash { inner: Default::default() }
}

/// `VM::new_puzzle`: the network's puzzle. The call returns an error only
/// for a network it does not know, and it knows this one.
#[verifier::external_body]
fn new_puzzle() -> (puzzle: Result<PuzzleHandle, anyhow::Error>)
    ensures
        puzzle is Ok,
{
    match VM::<TestnetV0, ConsensusMemory<TestnetV0>>::new_puzzle() {
        Ok(inner) => Ok(PuzzleHandle { inner }),
        Err(error) => Err(error),
    }
}

/// `Clone::clone` of a puzzle, which clones the two shared pointers it is
/// made of: another handle on the same puzzle.
#[verifier::external_body]
fn clone_puzzle(puzzle: &PuzzleHandle) -> (copy: PuzzleHandle)
    ensures
        copy == *puzzle,
{
    PuzzleHandle { inner: puzzle.inner.clone() }
}

/// The `Copy` of the network's block hash: the same hash again.
#[verifier::external_body]
fn copy_epoch_hash(hash: &EpochHash) -> (copy: EpochHash)
    ensures
        copy == *hash,
{
    EpochHash { inner: hash.inner }
}

/// The `Copy` of `Address`: the same address again.
#[verifier::external_body]
fn copy_address(address: &SolverAddress) -> (copy: SolverAddress)
    ensures
        copy == *address,
{
    SolverAddress { inner: address.inner }
}

/// The target of the solution that `puzzle` has for the epoch
/// `epoch_hash`, the address `address` and the nonce `counter`, or nothing
/// where the puzzle has none for them.
pub uninterp spec fn puzzle_target(
    puzzle: PuzzleHandle,
    epoch_hash: EpochHash,
    address: SolverAddress,
    counter: u64,
) -> Option<u64>;

/// What is left of the target `found` under the demand that it reach
/// `minimum`: the target itself where it does, nothing where it does not
/// or where none was found.
pub open spec fn qualifying(found: Option<u64>, minimum: u64) -> Option<u64> {
    match found {
        Some(target) => if target >= minimum {
            Some(target)
        } else {
            None
        },
        None => None,
    }
}

/// `Puzzle::prove` with a minimum target, and `Solution::target` of what it
/// returns. The puzzle computes the solution's target from the epoch, the
/// address and the nonce alone, returns an error where it can compute none
/// and for every target under the minimum, and else the solution with that
/// target. What comes back is the target or the puzzle's error.
#[verifier::external_body]
fn prove_target(
    puzzle: &PuzzleHandle,
    epoch_hash: &EpochHash,
    address: &SolverAddress,
    counter: u64,
    minimum: u64,
) -> (solved: Result<u64, anyhow::Error>)
    ensures
        achieved_of(solved) == qualifying(
            puzzle_target(*puzzle, *epoch_hash, *address, counter),
            minimum,
        ),
{
    match puzzle.inner.prove(epoch_hash.inner, address.inner, counter, Some(minimum)) {
        Ok(solution) => Ok(solution.target()),
        Err(error) => Err(error),
    }
}

/// `rand::thread_rng`: the calling thread's generator.
#[verifier::external_body]
fn thread_generator() -> (rng: ThreadRng) {
    rand::thread_rng()
}

/// `Rng::gen` at `u64`: the next value of the generator.
#[verifier::external_body]
fn draw_nonce(rng: &mut ThreadRng) -> (nonce: u64) {
    rng.gen()
}

/// What every worker proves against: the puzzle, the epoch, the solver's
/// address and the difficulty. It is built once and never refreshed.
pub struct WorkContext {
    puzzle: PuzzleHandle,
    epoch_hash: EpochHash,
    address: SolverAddress,
    target: u64,
}

impl WorkContext {
    /// The difficulty: the target that a solution must reach to qualify.
    pub closed spec fn target(&self) -> u64 {
        self.target
    }

    /// Builds the context for the difficulty `target`: an ephemeral key and
    /// its address, the network's puzzle, and the epoch of the all-zero
    /// hash. Each of the three calls may fail, and the first that does is
    /// reported.
    pub fn new(target: u64) -> (result: Result<WorkContext, WorkError>)
        ensures
            result matches Ok(context) ==> context.target() == target,
            result matches Err(error) ==> error is Key || error is Address,
    {
        let mut rng = entropy_rng();
        let address = WorkContext::address_from(sample_key(&mut rng));
        WorkContext::around(address, target)
    }

    /// The difficulty.
    pub fn difficulty(&self) -> (target: u64)
        ensures
            target == self.target(),
    {
        self.target
    }

    /// The same context for another worker: a handle on the same puzzle,
    /// with the same epoch, address and difficulty.
    pub fn share(&self) -> (copy: WorkContext)
        ensures
            copy == *self,
    {
        WorkContext {
            puzzle: clone_puzzle(&self.puzzle),
            epoch_hash: copy_epoch_hash(&self.epoch_hash),
            address: copy_address(&self.address),
            target: self.target,
        }
    }

    /// What the context's puzzle answers to the nonce `nonce`: the target
    /// of its solution for the context's epoch and address, where that
    /// target reaches the difficulty.
    pub open spec fn answer(&self, nonce: u64) -> Option<u64> {
        qualifying(
            puzzle_target(self.puzzle(), self.epoch_hash(), self.address(), nonce),
            self.target(),
        )
    }

    /// Asks the puzzle for a solution with the nonce `nonce`, for the
    /// context's epoch and address and with the difficulty as the minimum:
    /// the target it achieves, or the solver's error.
    pub fn prove(&self, nonce: u64) -> (solved: Result<u64, anyhow::Error>)
        ensures
            achieved_of(solved) == self.answer(nonce),
    {
        prove_target(&self.puzzle, &self.epoch_hash, &self.address, nonce, self.target)
    }

    /// The address in whose name the context proves.
    pub closed spec fn address(&self) -> SolverAddress {
        self.address
    }

    /// The epoch for which the context proves.
    pub closed spec fn epoch_hash(&self) -> EpochHash {
        self.epoch_hash
    }

    /// The puzzle that the context asks.
    pub closed spec fn puzzle(&self) -> PuzzleHandle {
        self.puzzle
    }

    /// The first stage of building a context, from the outcome of sampling
    /// the key: a key that could not be sampled is reported as it is, and
    /// from a key that was, the address is derived, which may fail in turn.
    pub fn address_from(key: Result<SolverKey, anyhow::Error>) -> (result: Result<
        SolverAddress,
        WorkError,
    >)
        ensures
            match key {
                Ok(sampled) => match address_of(sampled) {
                    Some(derived) => result matches Ok(given) && given == derived,
                    None => result matches Err(WorkError::Address(_)),
                },
                Err(cause) => result matches Err(WorkError::Key(reported)) && reported == cause,
            },
    {
        match key {
            Ok(key) => match derive_address(key) {
                Ok(address) => Ok(address),
                Err(cause) => Err(WorkError::Address(cause)),
            },
            Err(cause) => Err(WorkError::Key(cause)),
        }
    }

    /// The last stage of building a context, from the outcome of the first:
    /// an error is handed on unchanged and the puzzle is not asked for;
    /// around an address, the context is built with the network's puzzle.
    pub fn around(address: Result<SolverAddress, WorkError>, target: u64) -> (result: Result<
        WorkContext,
        WorkError,
    >)
        ensures
            match address {
                Ok(solver) => result matches Ok(context) && context.target() == target
                    && context.address() == solver,
                Err(error) => result matches Err(reported) && reported == error,
            },
    {
        match address {
            Ok(address) => match new_puzzle() {
                Ok(puzzle) => Ok(
                    WorkContext { puzzle, epoch_hash: default_epoch_hash(), address, target },
                ),
                Err(cause) => Err(WorkError::Puzzle(cause)),
            },
            Err(error) => Err(error),
        }
    }
}

/// What the solver achieved: the target of its solution, or nothing where
/// it returned an error.
pub open spec fn achieved_of(solved: Result<u64, anyhow::Error>) -> Option<u64> {
    match solved {
        Ok(target) => Some(target),
        Err(_) => None,
    }
}

/// The error that the solver returned, if it returned one.
pub open spec fn failure_of(solved: Result<u64, anyhow::Error>) -> Option<anyhow::Error> {
    match solved {
        Ok(_) => None,
        Err(error) => Some(error),
    }
}

/// One attempt as its loop made it: the record of what it did, and the
/// solver's error where the solver failed.
#[derive(Debug)]
pub struct Attempt {
    pub record: AttemptRecord,
    pub failure: Option<anyhow::Error>,
}

/// One step of a proving loop.
#[derive(Debug)]
pub enum LoopStep {
    /// The flag read raised: the loop ends without another attempt.
    Halted,
    /// The flag read lowered: the loop made this attempt.
    Attempted(Attempt),
}

/// How a run of a proving loop went: how many attempts ended in each way,
/// and whether the run ended because the flag read raised.
#[derive(Clone, Copy, Debug, PartialEq, Eq, Structural)]
pub struct LoopReport {
    pub found: u64,
    pub below_target: u64,
    pub failed: u64,
    pub halted: bool,
}

/// The report of a run after one more step: a halt is noted, an attempt is
/// tallied by its outcome.
pub open spec fn report_after(report: LoopReport, step: LoopStep) -> LoopReport {
    match step {
        LoopStep::Halted => LoopReport { halted: true, ..report },
        LoopStep::Attempted(attempt) => match attempt.record.outcome {
            AttemptOutcome::Found => LoopReport { found: (report.found + 1) as u64, ..report },
            AttemptOutcome::BelowTarget => LoopReport {
                below_target: (report.below_target + 1) as u64,
                ..report
            },
            AttemptOutcome::Failed => LoopReport { failed: (report.failed + 1) as u64, ..report },
        },
    }
}

impl LoopReport {
    /// The report of a run that has not taken a step.
    pub fn new() -> (report: Self)
        ensures
            report == (LoopReport { found: 0, below_target: 0, failed: 0, halted: false }),
    {
        LoopReport { found: 0, below_target: 0, failed: 0, halted: false }
    }

    /// Notes one more step of the run.
    pub fn absorb(&mut self, step: &LoopStep)
        requires
            !(step is Halted) ==> old(self).spec_attempts() < u64::MAX,
        ensures
            *final(self) == report_after(*old(self), *step),
    {
        match step {
            LoopStep::Halted => {
                self.halted = true;
            },
            LoopStep::Attempted(attempt) => match attempt.record.outcome {
                AttemptOutcome::Found => {
                    self.found = self.found + 1;
                },
                AttemptOutcome::BelowTarget => {
                    self.below_target = self.below_target + 1;
                },
                AttemptOutcome::Failed => {
                    self.failed = self.failed + 1;
                },
            },
        }
    }

    /// The attempts of the run, of all three kinds.
    pub open spec fn spec_attempts(&self) -> nat {
        (self.found + self.below_target + self.failed) as nat
    }

    /// The attempts of the run, of all three kinds.
    pub fn attempts(&self) -> (attempts: u64)
        requires
            self.spec_attempts() <= u64::MAX,
        ensures
            attempts == self.spec_attempts(),
    {
        self.found + self.below_target + self.failed
    }
}

/// Whether `record` is an attempt of the loop of pool `pool` against the
/// difficulty `target`: classified by that difficulty and counted once.
pub open spec fn is_attempt(record: AttemptRecord, pool: u16, target: u64) -> bool {
    &&& record.pool == pool
    &&& record.outcome == outcome_of(record.achieved, target)
    &&& record.change.after == next_count(record.change.before)
}

/// Whether `attempt` is an attempt of the loop of pool `pool` against the
/// difficulty `target`, with the solver's error kept exactly where the
/// solver achieved nothing.
pub open spec fn is_attempt_of(attempt: Attempt, pool: u16, target: u64) -> bool {
    &&& is_attempt(attempt.record, pool, target)
    &&& attempt.failure is Some <==> attempt.record.achieved is None
}

/// Whether `attempt` is an attempt that the loop of pool `pool` made
/// against `context`: what it achieved is what the context's puzzle
/// answers to its nonce.
pub open spec fn is_proved(attempt: Attempt, pool: u16, context: WorkContext) -> bool {
    &&& is_attempt_of(attempt, pool, context.target())
    &&& attempt.record.achieved == context.answer(attempt.record.nonce)
}

/// Whether `report` can be what a run of at most `budget` attempts returns:
/// the run ends early only when the flag read raised.
pub open spec fn is_run(report: LoopReport, budget: u64) -> bool {
    &&& report.spec_attempts() <= budget
    &&& !report.halted ==> report.spec_attempts() == budget
}

/// The unit of work of one pool: it proves against `context` until the flag
/// it shares with the prover reads raised, and counts every attempt in the
/// counter it shares with the prover.
pub struct ProvingLoop {
    pool: WorkerPool,
    context: WorkContext,
    terminator: TerminationFlag,
    counter: ProofCounter,
}

/// `ThreadPool::install` with a closure that runs `worker`: the run takes
/// place on a thread of the pool, and what it returned is handed back.
#[verifier::external_body]
fn install_run<F: Fn(Attempt) + Sync>(
    executor: &ThreadPool,
    worker: &ProvingLoop,
    budget: u64,
    observe: &F,
) -> (report: LoopReport)
    requires
        forall|attempt: Attempt| observe.requires((attempt,)),
    ensures
        is_run(report, budget),
        report.below_target == 0,
{
    executor.install(|| worker.run(budget, observe))
}

impl ProvingLoop {
    /// The pool whose loop this is, and in whose executor it runs.
    pub closed spec fn pool_of(&self) -> WorkerPool {
        self.pool
    }

    /// The index of the pool whose loop this is.
    pub open spec fn pool_index(&self) -> u16 {
        self.pool_of()@.index
    }

    /// What the loop proves against.
    pub closed spec fn context(&self) -> WorkContext {
        self.context
    }

    /// The difficulty the loop proves against.
    pub open spec fn target(&self) -> u64 {
        self.context().target()
    }

    /// The flag that stops the loop.
    pub closed spec fn flag(&self) -> TerminationFlag {
        self.terminator
    }

    /// The counter into which the loop counts.
    pub closed spec fn counter(&self) -> ProofCounter {
        self.counter
    }

    /// The loop of `pool`, proving against `context`, stopped by
    /// `terminator` and counting into `counter`.
    pub fn new(
        pool: WorkerPool,
        context: WorkContext,
        terminator: TerminationFlag,
        counter: ProofCounter,
    ) -> (worker: Self)
        ensures
            worker.pool_of() == pool,
            worker.context() == context,
            worker.flag() == terminator,
            worker.counter() == counter,
    {
        ProvingLoop { pool, context, terminator, counter }
    }

    /// The pool whose loop this is.
    pub fn pool(&self) -> (pool: &WorkerPool)
        ensures
            *pool == self.pool_of(),
    {
        &self.pool
    }

    /// The difficulty the loop proves against.
    pub fn difficulty(&self) -> (target: u64)
        ensures
            target == self.target(),
    {
        self.context.difficulty()
    }

    /// What the loop proves against.
    pub fn work_context(&self) -> (context: &WorkContext)
        ensures
            *context == self.context(),
    {
        &self.context
    }

    /// Closes the attempt with the nonce `nonce` whose solver call returned
    /// `solved`: classifies it against the difficulty and counts it. An
    /// error of the solver is counted like a solution; it is kept with the
    /// attempt, and nothing else follows from it.
    pub fn settle(&self, nonce: u64, solved: Result<u64, anyhow::Error>) -> (attempt: Attempt)
        ensures
            attempt.record.nonce == nonce,
            attempt.record.achieved == achieved_of(solved),
            attempt.failure == failure_of(solved),
            is_attempt_of(attempt, self.pool_index(), self.target()),
    {
        let (achieved, failure) = match solved {
            Ok(target) => (Some(target), None),
            Err(error) => (None, Some(error)),
        };
        let outcome = classify(achieved, self.context.difficulty());
        let change = self.counter.record();
        Attempt {
            record: AttemptRecord { pool: self.pool.index(), nonce, achieved, outcome, change },
            failure,
        }
    }

    /// One attempt: draws a fresh nonce, asks the context's puzzle for a
    /// solution with it and closes the attempt. The puzzle returns no
    /// solution under the difficulty, so the attempt either finds one that
    /// qualifies or fails.
    pub fn attempt(&self) -> (attempt: Attempt)
        ensures
            is_proved(attempt, self.pool_index(), self.context()),
            attempt.record.outcome != AttemptOutcome::BelowTarget,
    {
        let mut rng = thread_generator();
        let nonce = draw_nonce(&mut rng);
        let solved = self.context.prove(nonce);
        self.settle(nonce, solved)
    }

    /// What the loop does after it has read the flag as `raised`: it ends
    /// where the flag is raised, and makes one attempt where it is not.
    pub fn proceed(&self, raised: bool) -> (step: LoopStep)
        ensures
            raised <==> step is Halted,
            step matches LoopStep::Attempted(attempt) ==> is_proved(
                attempt,
                self.pool_index(),
                self.context(),
            ) && attempt.record.outcome != AttemptOutcome::BelowTarget,
    {
        if raised {
            LoopStep::Halted
        } else {
            LoopStep::Attempted(self.attempt())
        }
    }

    /// One step of the loop: reads the flag, then proceeds.
    pub fn step(&self) -> (step: LoopStep)
        ensures
            step matches LoopStep::Attempted(attempt) ==> is_proved(
                attempt,
                self.pool_index(),
                self.context(),
            ) && attempt.record.outcome != AttemptOutcome::BelowTarget,
    {
        let raised = self.terminator.is_raised();
        self.proceed(raised)
    }

    /// Runs the loop on the calling thread: step after step, without pause,
    /// until the flag reads raised or `budget` attempts have been made.
    /// Every attempt is shown to `observe` once it is counted.
    pub fn run<F: Fn(Attempt)>(&self, budget: u64, observe: &F) -> (report: LoopReport)
        requires
            forall|attempt: Attempt| observe.requires((attempt,)),
        ensures
            is_run(report, budget),
            report.below_target == 0,
    {
        let mut report = LoopReport::new();
        let mut made: u64 = 0;
        while made < budget
            invariant_except_break
                !report.halted,
            invariant
                forall|attempt: Attempt| observe.requires((attempt,)),
                made <= budget,
                made == report.spec_attempts(),
                report.below_target == 0,
            ensures
                report.halted || made == budget,
            decreases budget - made,
        {
            let step = self.step();
            report.absorb(&step);
            match step {
                LoopStep::Halted => {
                    break;
                },
                LoopStep::Attempted(attempt) => {
                    made = made + 1;
                    observe(attempt);
                },
            }
        }
        report
    }

    /// Runs the loop inside its pool, as one job of that pool's executor,
    /// and returns when the run has ended.
    pub fn run_in_pool<F: Fn(Attempt) + Sync>(&self, budget: u64, observe: &F) -> (report:
        LoopReport)
        requires
            forall|attempt: Attempt| observe.requires((attempt,)),
        ensures
            is_run(report, budget),
            report.below_target == 0,
    {
        install_run(self.pool.executor(), self, budget, observe)
    }
}

} // verus!
