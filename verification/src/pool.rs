//! Worker pools: fixed-size executors for proving work, built once when the
//! prover starts.

use crate::text::decimal;
use crate::text::push_decimal;
use rayon::ThreadPool;
use rayon::ThreadPoolBuildError;
use rayon::ThreadPoolBuilder;
use std::sync::Arc;
use vstd::prelude::*;
use vstd::string::StringExecFns;

verus! {

/// rayon's thread pool. Nothing of what it holds is visible here.
#[verifier::external_type_specification]
#[verifier::external_body]
pub struct ExThreadPool(rayon::ThreadPool);

/// rayon's error of a pool that could not be built.
#[verifier::external_type_specification]
#[verifier::external_body]
pub struct ExThreadPoolBuildError(rayon::ThreadPoolBuildError);

/// Stack size of every worker thread: proving recurses deeply.
pub const WORKER_STACK_BYTES: usize = 8388608;

/// Why the prover could not start: the pool with the index `pool` could not
/// be built, for the reason `cause`.
pub struct InitError {
    pub pool: u16,
    pub cause: ThreadPoolBuildError,
}

/// What a pool's executor was built with: the zero-based index that names
/// its threads, the number of threads asked for (none asked for leaves the
/// number to the executor), and the stack size of each thread.
pub struct PoolShape {
    pub index: u16,
    pub threads: u16,
    pub stack_bytes: usize,
}

/// One pool of proving threads. Its index serves to name its threads and
/// to tell its loop's attempts from those of other pools.
pub struct WorkerPool {
    index: u16,
    threads: u16,
    stack_bytes: usize,
    executor: Arc<ThreadPool>,
}

impl View for WorkerPool {
    type V = PoolShape;

    closed spec fn view(&self) -> PoolShape {
        PoolShape { index: self.index, threads: self.threads, stack_bytes: self.stack_bytes }
    }
}

/// The name of thread `thread` of pool `pool`.
pub open spec fn thread_name_of(pool: u16, thread: usize) -> Seq<char> {
    "ap-cpu-"@ + decimal(pool as nat) + "-"@ + decimal(thread as nat)
}

/// Names thread `thread` of pool `pool`.
pub fn thread_name(pool: u16, thread: usize) -> (name: String)
    ensures
        name@ == thread_name_of(pool, thread),
{
    let mut name = String::from_str("ap-cpu-");
    push_decimal(&mut name, pool.into());
    name.append("-");
    push_decimal(&mut name, thread as u64);
    name
}

/// What an executor was built with: the index that its threads are named
/// after, the number of threads asked for and the stack size asked for.
pub uninterp spec fn built_with(executor: ThreadPool) -> PoolShape;

/// Asks rayon for a pool: `ThreadPoolBuilder::new`, then `stack_size`,
/// `num_threads` and `thread_name` with the values given, then `build`.
/// Whether the threads can be started is up to the machine. A pool that
/// comes back is the one that was built from exactly these values: rayon
/// names its threads by the closure, which gives them this index; it
/// starts as many threads as were asked for, up to its own limit, and as
/// many as it sees fit where none was asked for; and it asks for this
/// stack size for each.
#[verifier::external_body]
fn build_executor(index: u16, threads: u16, stack_bytes: usize) -> (built: Result<
    ThreadPool,
    ThreadPoolBuildError,
>)
    ensures
        built matches Ok(executor) ==> built_with(executor) == (PoolShape {
            index,
            threads,
            stack_bytes,
        }),
{
    ThreadPoolBuilder::new()
        .stack_size(stack_bytes)
        .num_threads(usize::from(threads))
        .thread_name(move |thread| thread_name(index, thread))
        .build()
}

impl WorkerPool {
    /// What the pool says of itself is what its executor was built with.
    #[verifier::type_invariant]
    spec fn as_built(self) -> bool {
        built_with(*self.executor) == (PoolShape {
            index: self.index,
            threads: self.threads,
            stack_bytes: self.stack_bytes,
        })
    }

    /// Builds the pool with the index `index`: an executor of `threads`
    /// threads with the worker stack, whose threads are named after the
    /// index. Whether it can be built is up to the machine.
    pub fn build(index: u16, threads: u16) -> (built: Result<WorkerPool, ThreadPoolBuildError>)
        ensures
            built matches Ok(pool) ==> pool@ == worker_shape(index as nat, threads) && built_with(
                pool.executor_of(),
            ) == pool@,
    {
        match build_executor(index, threads, WORKER_STACK_BYTES) {
            Ok(executor) => Ok(
                WorkerPool {
                    index,
                    threads,
                    stack_bytes: WORKER_STACK_BYTES,
                    executor: Arc::new(executor),
                },
            ),
            Err(cause) => Err(cause),
        }
    }

    /// The pool's zero-based index.
    pub fn index(&self) -> (index: u16)
        ensures
            index == self@.index,
    {
        self.index
    }

    /// The number of threads the pool was asked to have.
    pub fn threads(&self) -> (threads: u16)
        ensures
            threads == self@.threads,
    {
        self.threads
    }

    /// The stack size of the pool's threads.
    pub fn stack_bytes(&self) -> (stack_bytes: usize)
        ensures
            stack_bytes == self@.stack_bytes,
    {
        self.stack_bytes
    }

    /// Another handle on the same pool.
    pub fn share(&self) -> (handle: Self)
        ensures
            handle == *self,
    {
        proof {
            use_type_invariant(self);
        }
        WorkerPool {
            index: self.index,
            threads: self.threads,
            stack_bytes: self.stack_bytes,
            executor: self.executor.clone(),
        }
    }

    /// The executor, for running work in the pool: the one that was built
    /// with what the pool says of itself.
    pub fn executor(&self) -> (executor: &ThreadPool)
        ensures
            *executor == self.executor_of(),
            built_with(*executor) == self@,
    {
        proof {
            use_type_invariant(self);
        }
        &self.executor
    }

    /// The executor that the pool's threads belong to. Handles made by
    /// `share` have the same one.
    pub closed spec fn executor_of(&self) -> ThreadPool {
        *self.executor
    }
}

/// The shape of the prover's pool with the index `index`, for pools of
/// `threads` threads: built with that index, that number of threads and
/// the worker stack.
pub open spec fn worker_shape(index: nat, threads: u16) -> PoolShape {
    PoolShape { index: index as u16, threads, stack_bytes: WORKER_STACK_BYTES }
}

/// The pools of a prover with `count` pools of `threads` threads each: pool
/// `i` stands at place `i`.
pub open spec fn uniform_pools(count: nat, threads: u16) -> Seq<PoolShape> {
    Seq::new(count, |i: int| worker_shape(i as nat, threads))
}

/// The pools built so far while a prover starts, in index order.
pub struct PoolSet {
    threads_per_pool: u16,
    pools: Vec<WorkerPool>,
}

impl View for PoolSet {
    type V = Seq<PoolShape>;

    closed spec fn view(&self) -> Seq<PoolShape> {
        Seq::new(self.pools@.len(), |i: int| self.pools@[i]@)
    }
}

impl PoolSet {
    /// The number of threads that every pool of the set is asked to have.
    pub closed spec fn threads_per_pool(&self) -> u16 {
        self.threads_per_pool
    }

    /// The pools themselves, in index order; the view shows their shapes.
    pub closed spec fn members(&self) -> Seq<WorkerPool> {
        self.pools@
    }

    /// The view is the shape of each member, in order.
    pub proof fn lemma_members(&self)
        ensures
            self.members().len() == self@.len(),
            forall|i: int| 0 <= i < self@.len() ==> (#[trigger] self.members()[i])@ == self@[i],
    {
    }

    /// The pools stand in index order, all with the same number of threads,
    /// and their indices fit sixteen bits.
    pub closed spec fn wf(&self) -> bool {
        &&& self.pools@.len() <= u16::MAX
        &&& self@ == uniform_pools(self.pools@.len(), self.threads_per_pool)
    }

    /// A well-formed set is the uniform one of its length.
    pub proof fn lemma_wf(&self)
        requires
            self.wf(),
        ensures
            self@.len() <= u16::MAX,
            self@ == uniform_pools(self@.len(), self.threads_per_pool()),
    {
    }

    /// No pools yet, for a prover whose pools get `threads_per_pool` threads.
    pub fn new(threads_per_pool: u16) -> (set: Self)
        ensures
            set.wf(),
            set@ == Seq::<PoolShape>::empty(),
            set.members() == Seq::<WorkerPool>::empty(),
            set.threads_per_pool() == threads_per_pool,
    {
        let set = PoolSet { threads_per_pool, pools: Vec::new() };
        assert(set@ =~= Seq::<PoolShape>::empty());
        assert(set@ =~= uniform_pools(0, threads_per_pool));
        set
    }

    /// The number of pools in the set.
    pub fn len(&self) -> (len: usize)
        ensures
            len == self@.len(),
    {
        self.pools.len()
    }

    /// The pool at place `index`.
    pub fn get(&self, index: usize) -> (pool: &WorkerPool)
        requires
            index < self@.len(),
        ensures
            *pool == self.members()[index as int],
            pool@ == self@[index as int],
    {
        &self.pools[index]
    }

    /// Takes the outcome of building the next pool, which is the one with
    /// the next index and the set's number of threads. A pool that was
    /// built joins the set. A failure ends the start: the set, with every
    /// pool built before, is given up and the error names the pool that
    /// failed.
    pub fn enroll(self, built: Result<WorkerPool, ThreadPoolBuildError>) -> (result: Result<
        PoolSet,
        InitError,
    >)
        requires
            self.wf(),
            self@.len() < u16::MAX,
            built matches Ok(pool) ==> pool@ == worker_shape(self@.len(), self.threads_per_pool()),
        ensures
            match built {
                Ok(pool) => result matches Ok(set) && set.wf() && set.threads_per_pool()
                    == self.threads_per_pool() && set@ == self@.push(pool@) && set.members()
                    == self.members().push(pool),
                Err(cause) => result matches Err(error) && error.pool == self@.len()
                    && error.cause == cause,
            },
    {
        let index = self.pools.len() as u16;
        match built {
            Ok(pool) => {
                let mut set = self;
                set.pools.push(pool);
                assert(set@ =~= self@.push(pool@));
                assert(set@ =~= uniform_pools(set.pools@.len(), set.threads_per_pool));
                Ok(set)
            },
            Err(cause) => Err(InitError { pool: index, cause }),
        }
    }
}

/// Builds `count` pools of `threads` threads each, in index order, and
/// stops at the first that cannot be built. Which build fails is up to the
/// machine; with no pool to build, none does.
pub fn build_pools(count: u16, threads: u16) -> (result: Result<PoolSet, InitError>)
    ensures
        result matches Ok(set) ==> set.wf() && set.threads_per_pool() == threads && set@
            == uniform_pools(count as nat, threads),
        result matches Err(error) ==> error.pool < count,
        count == 0 ==> result is Ok,
{
    let mut set = PoolSet::new(threads);
    let mut index: u16 = 0;
    while index < count
        invariant
            index <= count,
            set.wf(),
            set.threads_per_pool() == threads,
            set@.len() == index,
        decreases count - index,
    {
        let built = WorkerPool::build(index, threads);
        match set.enroll(built) {
            Ok(next) => {
                set = next;
            },
            Err(error) => {
                return Err(error);
            },
        }
        index = index + 1;
    }
    proof {
        set.lemma_wf();
    }
    Ok(set)
}

} // verus!
