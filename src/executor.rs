use crate::signal::{broadcast_step, ShutdownSignal};
use crate::worker::{run_until, Worker};
use async_executor::Executor;
use std::future::Future;
use std::sync::Arc;
use vstd::prelude::*;

verus! {

/// Relies on `async_executor::Executor::new`: an executor with no tasks.
#[verifier::external_body]
fn new_executor() -> (r: Executor<'static>) {
    Executor::new()
}

/// Relies on `Arc::clone`: another pointer to the same executor.
#[verifier::external_body]
fn share(ex: &Arc<Executor<'static>>) -> (r: Arc<Executor<'static>>)
    ensures
        r == *ex,
{
    Arc::clone(ex)
}

/// Relies on `num_cpus::get`: the number of logical CPUs, which it documents as at least 1.
#[verifier::external_body]
fn logical_cpus() -> (r: usize)
    ensures
        r >= 1,
{
    num_cpus::get()
}

/// Dropping the handle reaches every worker: the subscriptions that the handle's signal held
/// (those of the workers `with_threads` handed out) are still held once the signal has
/// fired, and every listener on it has been notified.
pub proof fn lemma_drop_reaches_every_worker(
    before: ServerExecutor,
    after: ServerExecutor,
    workers: Seq<Worker>,
)
    requires
        forall|i: int| 0 <= i < workers.len() ==> before.signal().holds(#[trigger] workers[i].subscription()),
        broadcast_step(before.signal(), after.signal()),
    ensures
        after.signal().is_fired(),
        after.signal().all_notified(),
        forall|i: int| 0 <= i < workers.len() ==> after.signal().holds(#[trigger] workers[i].subscription()),
{
    assert forall|i: int| 0 <= i < workers.len() implies after.signal().holds(#[trigger] workers[i].subscription()) by {
        assert(before.signal().holds(workers[i].subscription()));
    }
}

/// A handle on a shared scheduler that background workers drain until the handle is
/// dropped. It cannot be cloned: dropping it fires the shutdown signal, once.
pub struct ServerExecutor {
    ex: Arc<Executor<'static>>,
    shutdown: ShutdownSignal,
}

impl ServerExecutor {
    /// The scheduler shared by the handle and its workers.
    pub closed spec fn scheduler(&self) -> Arc<Executor<'static>> {
        self.ex
    }

    /// The handle's shutdown signal.
    pub closed spec fn signal(&self) -> ShutdownSignal {
        self.shutdown
    }

    /// A fresh handle with `n` workers, each holding a share of the handle's scheduler and a
    /// subscription taken before the signal fired. Starting a thread per worker is the
    /// caller's part.
    pub fn with_threads(n: usize) -> (r: (Self, Vec<Worker>))
        ensures
            r.1.len() == n,
            forall|i: int| 0 <= i < n ==> (#[trigger] r.1[i]).scheduler() == r.0.scheduler(),
            forall|i: int| 0 <= i < n ==> !(#[trigger] r.1[i]).stops_at_once(),
            forall|i: int| 0 <= i < n ==> r.0.signal().holds((#[trigger] r.1[i]).subscription()),
            !r.0.signal().is_fired(),
            r.0.signal().broadcast_count() == 0,
            r.0.signal().subscription_count() == n,
    {
        let ex = Arc::new(new_executor());
        let mut shutdown = ShutdownSignal::new();
        let mut workers: Vec<Worker> = Vec::new();
        let mut i: usize = 0;
        while i < n
            invariant
                i <= n,
                workers.len() == i,
                forall|j: int| 0 <= j < i ==> (#[trigger] workers[j]).scheduler() == ex,
                forall|j: int| 0 <= j < i ==> !(#[trigger] workers[j]).stops_at_once(),
                forall|j: int| 0 <= j < i ==> shutdown.holds((#[trigger] workers[j]).subscription()),
                !shutdown.is_fired(),
                shutdown.broadcast_count() == 0,
                shutdown.subscription_count() == i,
            decreases n - i,
        {
            let subscription = shutdown.subscribe();
            workers.push(Worker::new(share(&ex), subscription));
            i = i + 1;
        }
        (ServerExecutor { ex, shutdown }, workers)
    }

    /// A fresh handle with one worker per logical CPU.
    pub fn new() -> (r: (Self, Vec<Worker>))
        ensures
            r.1.len() >= 1,
            r.1.len() == r.0.signal().subscription_count(),
            forall|i: int| 0 <= i < r.1.len() ==> (#[trigger] r.1[i]).scheduler() == r.0.scheduler(),
            forall|i: int| 0 <= i < r.1.len() ==> !(#[trigger] r.1[i]).stops_at_once(),
            forall|i: int| 0 <= i < r.1.len() ==> r.0.signal().holds((#[trigger] r.1[i]).subscription()),
            !r.0.signal().is_fired(),
            r.0.signal().broadcast_count() == 0,
    {
        Self::with_threads(logical_cpus())
    }

    /// Drives the future that `f` builds from the shared scheduler to completion on the
    /// calling thread and returns its output. Meanwhile the calling thread runs the
    /// scheduler's tasks too, so the call completes even with no workers; tasks that the
    /// future spawns may also be run by the workers.
    pub fn block_on<'x, F, I, R>(&'x self, f: F) -> (r: R)
        where
            F: FnOnce(&'x Arc<Executor<'static>>) -> I,
            I: Future<Output = R> + 'x,
            R: 'x,
        requires
            f.requires((&self.scheduler(),)),
        ensures
            exists|fut: I| f.ensures((&self.scheduler(),), fut),
    {
        let fut = f(&self.ex);
        let ghost built = fut;
        let r = run_until(&self.ex, fut);
        assert(f.ensures((&self.scheduler(),), built));
        r
    }
}

impl Drop for ServerExecutor {
    /// Fires the shutdown signal, which notifies every subscription it holds. The workers
    /// are not waited for.
    fn drop(&mut self)
        ensures
            broadcast_step(old(self).signal(), final(self).signal()),
            final(self).scheduler() == old(self).scheduler(),
        opens_invariants none
        no_unwind
    {
        self.shutdown.broadcast();
    }
}

} // verus!
