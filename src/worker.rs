use crate::signal::Subscription;
use async_executor::Executor;
use std::future::Future;
use std::sync::Arc;
use vstd::prelude::*;

verus! {

#[verifier::external_type_specification]
#[verifier::external_body]
pub struct ExExecutor<'a>(Executor<'a>);

/// Relies on `async_executor::Executor::run` driven by `futures_lite::future::block_on`:
/// the calling thread runs the executor's tasks until `fut` completes, and returns its
/// output.
#[verifier::external_body]
pub(crate) fn run_until<F: Future>(ex: &Arc<Executor<'static>>, fut: F) -> F::Output {
    futures_lite::future::block_on(ex.run(fut))
}

/// What one background thread owns: a share of the scheduler and its own subscription to
/// the shutdown signal, taken before the thread starts.
pub struct Worker {
    ex: Arc<Executor<'static>>,
    subscription: Subscription,
}

impl Worker {
    /// The scheduler this worker drains.
    pub closed spec fn scheduler(&self) -> Arc<Executor<'static>> {
        self.ex
    }

    /// The subscription whose broadcast stops this worker.
    pub closed spec fn subscription(&self) -> Subscription {
        self.subscription
    }

    /// The shutdown had already been broadcast when the worker subscribed.
    pub closed spec fn stops_at_once(&self) -> bool {
        self.subscription.is_resolved()
    }

    /// Pairs a scheduler share with a subscription.
    pub fn new(ex: Arc<Executor<'static>>, subscription: Subscription) -> (r: Self)
        ensures
            r.scheduler() == ex,
            r.stops_at_once() == subscription.is_resolved(),
            r.subscription() == subscription,
    {
        Worker { ex, subscription }
    }

    /// Runs the worker on the calling thread: drains the scheduler until the shutdown
    /// broadcast reaches its subscription. A worker whose subscription was already resolved
    /// stops without entering the drain loop. Returns whether the drain loop was entered.
    pub fn run(self) -> (drained: bool)
        ensures
            drained == !self.stops_at_once(),
    {
        match self.subscription.into_listener() {
            None => false,
            Some(listener) => {
                run_until(&self.ex, listener);
                true
            },
        }
    }
}

} // verus!
