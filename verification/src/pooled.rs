use crate::chunk::chunk_size;
use crate::chunk::spec_chunk_size;
use crate::cpus::hardware_num_cpus;
use crate::log2::log2_floor;
use futures::Future;
use futures_cpupool::CpuFuture;
use futures_cpupool::CpuPool;
use std::sync::Arc;
use vstd::arithmetic::power2::pow2;
use vstd::prelude::*;

verus! {

#[verifier::external_type_specification]
#[verifier::external_body]
pub struct ExThreadPool(rayon::ThreadPool);

#[verifier::external_type_specification]
#[verifier::external_body]
pub struct ExRayonScope<'scope>(rayon::Scope<'scope>);

#[verifier::external_type_specification]
#[verifier::external_body]
pub struct ExCpuPool(CpuPool);

#[verifier::external_type_specification]
#[verifier::external_body]
#[verifier::reject_recursive_types(T)]
#[verifier::reject_recursive_types(E)]
pub struct ExCpuFuture<T, E>(CpuFuture<T, E>);

/// Relies on `futures_cpupool::CpuPool::clone`: another handle to the same
/// pool; `Worker::clone` needs it. Nothing is assumed of the returned
/// handle.
pub assume_specification[ <CpuPool as Clone>::clone ](pool: &CpuPool) -> CpuPool;

/// Relies on `rayon::ThreadPoolBuilder::build`: a pool of `cpus` worker
/// threads (never more; exactly that many on a successful build). A pool the
/// operating system cannot provide is a fatal startup error, so a build
/// failure aborts here.
#[verifier::external_body]
fn new_thread_pool(cpus: usize) -> Arc<rayon::ThreadPool>
    requires
        cpus >= 1,
{
    Arc::new(rayon::ThreadPoolBuilder::new().num_threads(cpus).build().unwrap())
}

/// Relies on `futures_cpupool::CpuPool::new`: a pool of exactly `cpus` worker
/// threads for detached tasks. `CpuPool::new` asserts a positive size.
#[verifier::external_body]
fn new_cpu_pool(cpus: usize) -> CpuPool
    requires
        cpus >= 1,
{
    CpuPool::new(cpus)
}

/// Relies on `futures_cpupool::CpuPool::spawn_fn`: runs `f` exactly once, on
/// some pool thread, without blocking the caller; the returned future is a
/// proxy for `f`'s eventual result. Nothing is assumed about when that
/// result arrives or what it is.
#[verifier::external_body]
fn spawn_task<F, T, E>(pool: &CpuPool, f: F) -> CpuFuture<T, E> where
    F: FnOnce() -> Result<T, E> + Send + 'static,
    T: Send + 'static,
    E: Send + 'static,

    requires
        call_requires(f, ()),
{
    pool.spawn_fn(f)
}

/// Relies on `rayon::ThreadPool::scope`: calls `f` with the fork-join region
/// and the given chunk size, blocks until every task spawned inside the
/// region (directly or transitively) has completed, and returns `f`'s
/// result. A panic in `f` or in a spawned task propagates here.
#[verifier::external_body]
fn run_scope<'a, F, R>(pool: &Arc<rayon::ThreadPool>, chunk: usize, f: F) -> (r: R) where
    F: FnOnce(&rayon::Scope<'a>, usize) -> R + Send,
    R: Send,

    requires
        forall|s: &rayon::Scope<'a>| #[trigger] call_requires(f, (s, chunk)),
    ensures
        exists|s: &rayon::Scope<'a>| #[trigger] call_ensures(f, (s, chunk), r),
{
    pool.scope(|s| f(s, chunk))
}

/// Relies on `futures::Future::wait` (through the blanket `Future` impl for
/// `&mut F`): blocks until the pooled task behind the handle has finished and
/// records its outcome. `futures_cpupool` documents the returned future as a
/// proxy that resolves to the spawned computation's own result, so the
/// recorded outcome satisfies the predicate the handle was created with —
/// the submitted closure's postcondition. Must not be called once resolved —
/// the underlying future cannot be polled again after completion. A panic in
/// the spawned closure resumes here.
#[verifier::external_body]
fn wait_ready<T, E>(fut: &mut WorkerFuture<T, E>) where T: Send + 'static, E: Send + 'static
    requires
        !old(fut).resolved(),
    ensures
        final(fut).resolved(),
        final(fut).post_of() == old(fut).post_of(),
        final(fut).post_of()(final(fut).outcome()),
{
    let outcome = (&mut fut.inner).wait();
    fut.done = Some(outcome);
}

/// Relies on `std::sync::Arc::clone`: another handle to the same pool
/// allocation. Nothing is assumed of the returned handle.
#[verifier::external_body]
fn clone_pool_handle(pool: &Arc<rayon::ThreadPool>) -> Arc<rayon::ThreadPool> {
    Arc::clone(pool)
}

/// A capability handle for dispatching work onto two shared fixed-size
/// pools: one for fork-join `scope` regions, one for detached `compute`
/// tasks. Both are sized by the resolved CPU count, fixed at construction.
pub struct Worker {
    num_cpus: usize,
    scope_pool: Arc<rayon::ThreadPool>,
    task_pool: CpuPool,
}

impl Clone for Worker {
    /// Another worker over the same two pools.
    fn clone(&self) -> (w: Self)
        ensures
            w.cpus() == self.cpus(),
    {
        proof {
            use_type_invariant(self);
        }
        Worker {
            num_cpus: self.num_cpus,
            scope_pool: clone_pool_handle(&self.scope_pool),
            task_pool: self.task_pool.clone(),
        }
    }
}

impl Worker {
    #[verifier::type_invariant]
    spec fn wf(self) -> bool {
        self.num_cpus >= 1
    }

    /// The parallelism this worker was built with; at least 1.
    pub closed spec fn cpus(self) -> usize {
        self.num_cpus
    }

    /// A worker over freshly built pools of `cpus` threads each.
    pub fn with_num_cpus(cpus: usize) -> (w: Worker)
        requires
            cpus >= 1,
        ensures
            w.cpus() == cpus,
    {
        Worker { num_cpus: cpus, scope_pool: new_thread_pool(cpus), task_pool: new_cpu_pool(cpus) }
    }

    /// A worker sized by the detected hardware core count.
    pub fn new() -> (w: Worker)
        ensures
            w.cpus() >= 1,
    {
        Worker::with_num_cpus(hardware_num_cpus())
    }

    /// `floor(log2(N))` for the worker's CPU count N; well defined since
    /// N >= 1.
    pub fn log_num_cpus(&self) -> (n: u32)
        ensures
            pow2(n as nat) <= self.cpus() as nat,
            (self.cpus() as nat) < pow2((n + 1) as nat),
    {
        proof {
            use_type_invariant(self);
        }
        log2_floor(self.num_cpus)
    }

    /// Schedules `f` on the task pool and returns a handle to its eventual
    /// result immediately, without blocking. The handle delivers exactly a
    /// result `f` can return — an error from `f` surfaces only through it.
    pub fn compute<F, T, E>(&self, f: F) -> (fut: WorkerFuture<T, E>) where
        F: FnOnce() -> Result<T, E> + Send + 'static,
        T: Send + 'static,
        E: Send + 'static,

        requires
            call_requires(f, ()),
        ensures
            !fut.resolved(),
            forall|res: Result<T, E>| #[trigger] fut.post_of()(res) ==> call_ensures(f, (), res),
    {
        let inner = spawn_task(&self.task_pool, f);
        WorkerFuture { inner, done: None, post: Ghost(|res: Result<T, E>| call_ensures(f, (), res)) }
    }

    /// Runs `f` synchronously inside a fork-join region bound to the shared
    /// pool, handing it the chunk size for `elements`, and returns exactly
    /// `f`'s result once every sub-task spawned in the region has joined.
    pub fn scope<'a, F, R>(&self, elements: usize, f: F) -> (r: R) where
        F: FnOnce(&rayon::Scope<'a>, usize) -> R + Send,
        R: Send,

        requires
            forall|s: &rayon::Scope<'a>|
                #[trigger] call_requires(
                    f,
                    (s, spec_chunk_size(elements as int, self.cpus() as int) as usize),
                ),
        ensures
            exists|s: &rayon::Scope<'a>|
                #[trigger] call_ensures(
                    f,
                    (s, spec_chunk_size(elements as int, self.cpus() as int) as usize),
                    r,
                ),
    {
        proof {
            use_type_invariant(self);
        }
        let chunk = chunk_size(elements, self.num_cpus);
        proof {
            assert(chunk == spec_chunk_size(elements as int, self.cpus() as int) as usize);
            assert forall|s: &rayon::Scope<'a>| #[trigger] call_requires(f, (s, chunk)) by {
                assert(call_requires(
                    f,
                    (s, spec_chunk_size(elements as int, self.cpus() as int) as usize),
                ));
            }
        }
        let result = run_scope(&self.scope_pool, chunk, f);
        proof {
            let s0 = choose|s: &rayon::Scope<'a>| #[trigger] call_ensures(f, (s, chunk), result);
            assert(call_ensures(
                f,
                (s0, spec_chunk_size(elements as int, self.cpus() as int) as usize),
                result,
            ));
        }
        result
    }
}

/// A poll-based handle to a result being computed on the task pool. Polling
/// drives it to resolution; once resolved it stays resolved, and every
/// further poll keeps returning the same terminal outcome, which satisfies
/// the postcondition of the closure the handle was created for.
#[verifier::reject_recursive_types(T)]
#[verifier::reject_recursive_types(E)]
pub struct WorkerFuture<T, E> {
    inner: CpuFuture<T, E>,
    done: Option<Result<T, E>>,
    post: Ghost<spec_fn(Result<T, E>) -> bool>,
}

impl<T, E> WorkerFuture<T, E> {
    #[verifier::type_invariant]
    spec fn wf(self) -> bool {
        self.done matches Some(res) ==> (self.post@)(res)
    }

    /// The predicate every outcome this handle can deliver satisfies;
    /// `compute` records the submitted closure's postcondition here.
    pub closed spec fn post_of(self) -> spec_fn(Result<T, E>) -> bool {
        self.post@
    }

    /// Whether the eventual outcome has been recorded.
    pub closed spec fn resolved(self) -> bool {
        self.done is Some
    }

    /// The terminal outcome, once resolved.
    pub closed spec fn outcome(self) -> Result<T, E>
        recommends
            self.resolved(),
    {
        self.done.unwrap()
    }

    /// `Some` is `Ready`; the first call blocks until the pooled task is
    /// done, so `None` (`Pending`) is never returned. The delivered outcome
    /// satisfies the recorded closure postcondition.
    pub fn poll(&mut self) -> (r: Option<&Result<T, E>>) where T: Send + 'static, E: Send + 'static
        ensures
            final(self).resolved(),
            final(self).post_of() == old(self).post_of(),
            old(self).resolved() ==> final(self).outcome() == old(self).outcome(),
            match r {
                Some(res) => *res == final(self).outcome() && final(self).post_of()(*res),
                None => false,
            },
    {
        proof {
            use_type_invariant(&*self);
        }
        if self.done.is_none() {
            wait_ready(self);
        }
        self.done.as_ref()
    }
}

/// Law: the pooled strategy delivers the same observable outcomes the serial
/// one states. Every outcome polled from a handle that `compute(f)` returned
/// is a result `f` itself can return: a closure that always returns `Ok(v)`
/// makes the handle deliver `Ok(v)`, and one that always returns `Err(e)`
/// makes it deliver `Err(e)`.
pub proof fn lemma_pooled_outcome_is_closure_result<F, T, E>(
    f: F,
    fut: WorkerFuture<T, E>,
    res: Result<T, E>,
) where F: FnOnce() -> Result<T, E>
    requires
        forall|out: Result<T, E>| #[trigger] fut.post_of()(out) ==> call_ensures(f, (), out),
        fut.post_of()(res),
    ensures
        call_ensures(f, (), res),
{
}

} // verus!
