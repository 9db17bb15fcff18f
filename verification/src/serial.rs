use vstd::prelude::*;

verus! {

/// The strategy used when concurrency is switched off: the same surface as
/// the pooled worker, but everything runs synchronously on the calling
/// thread.
#[derive(Clone)]
pub struct Worker;

/// A stand-in for a fork-join region with nothing outstanding: `spawn` runs
/// its task to completion, inline, before returning.
pub struct DummyScope;

impl DummyScope {
    pub fn spawn<F: FnOnce(&DummyScope)>(&self, f: F)
        requires
            call_requires(f, (self,)),
        ensures
            call_ensures(f, (self,), ()),
    {
        f(self);
    }
}

impl Worker {
    pub fn new() -> Worker {
        Worker
    }

    /// No parallel depth is available: always zero.
    pub fn log_num_cpus(&self) -> (n: u32)
        ensures
            n == 0,
    {
        0
    }

    /// Runs `f` immediately on the calling thread and hands back an
    /// already-resolved handle wrapping its result.
    pub fn compute<F, T, E>(&self, f: F) -> (fut: WorkerFuture<T, E>) where
        F: FnOnce() -> Result<T, E> + Send + 'static,
        T: Send + 'static,
        E: Send + 'static,

        requires
            call_requires(f, ()),
        ensures
            fut.resolved(),
            call_ensures(f, (), fut.outcome()),
    {
        WorkerFuture { done: f() }
    }

    /// Calls `f` directly with `chunk_size == elements` (no partitioning) and
    /// a dummy scope, returning exactly `f`'s result.
    pub fn scope<F, R>(&self, elements: usize, f: F) -> (r: R) where
        F: FnOnce(&DummyScope, usize) -> R,

        requires
            forall|s: &DummyScope| call_requires(f, (s, elements)),
        ensures
            exists|s: &DummyScope| call_ensures(f, (s, elements), r),
    {
        let region = DummyScope;
        f(&region, elements)
    }
}

/// A handle that was resolved the moment it was made: polling it any number
/// of times keeps returning the same terminal outcome.
pub struct WorkerFuture<T, E> {
    done: Result<T, E>,
}

impl<T, E> WorkerFuture<T, E> {
    /// Whether the eventual outcome is available; here it always is.
    pub open spec fn resolved(self) -> bool {
        true
    }

    /// The terminal outcome the handle wraps.
    pub closed spec fn outcome(self) -> Result<T, E> {
        self.done
    }

    /// `Some` is `Ready`; `None` would be `Pending`, which this strategy
    /// never produces.
    pub fn poll(&mut self) -> (r: Option<&Result<T, E>>)
        ensures
            *old(self) == *final(self),
            match r {
                Some(res) => *res == final(self).outcome(),
                None => false,
            },
    {
        Some(&self.done)
    }
}

} // verus!
