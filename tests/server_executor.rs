use server_executor::{Executor, ServerExecutor, ShutdownSignal, Worker};
use std::sync::atomic::{AtomicUsize, Ordering};
use std::sync::Arc;
use std::time::Duration;

#[test]
fn with_threads_hands_out_requested_workers() {
    for n in [0usize, 1, 4] {
        let (handle, workers) = ServerExecutor::with_threads(n);
        assert_eq!(workers.len(), n);
        drop(handle);
    }
}

#[test]
fn new_has_one_worker_per_logical_cpu() {
    let (_handle, workers) = ServerExecutor::new();
    assert!(workers.len() >= 1);
    assert_eq!(workers.len(), num_cpus::get());
}

#[test]
fn late_subscriber_stops_at_once() {
    let mut signal = ShutdownSignal::new();
    signal.broadcast();
    let sub = signal.subscribe();
    assert!(sub.resolved());
    let worker = Worker::new(Arc::new(Executor::new()), sub);
    assert!(!worker.run());
}

#[test]
fn early_subscriber_waits_for_broadcast() {
    let mut signal = ShutdownSignal::new();
    assert!(!signal.fired());
    let sub = signal.subscribe();
    assert!(!sub.resolved());
    let listener = sub.into_listener();
    assert!(listener.is_some());
    signal.broadcast();
    assert!(signal.fired());
    let listener = listener.unwrap();
    assert!(listener.wait_timeout(Duration::from_secs(5)));
}

#[test]
fn block_on_returns_value_without_workers() {
    let (handle, workers) = ServerExecutor::with_threads(0);
    assert!(workers.is_empty());
    let r = handle.block_on(|_| futures_lite::future::ready(42));
    assert_eq!(r, 42);
}

#[test]
fn broadcasting_twice_is_harmless() {
    let mut signal = ShutdownSignal::new();
    let before = signal.subscribe();
    signal.broadcast();
    signal.broadcast();
    assert!(signal.fired());
    assert!(signal.subscribe().resolved());
    let listener = before.into_listener().unwrap();
    assert!(listener.wait_timeout(Duration::from_secs(5)));
}

#[test]
fn workers_stop_after_handle_is_dropped() {
    let (handle, workers) = ServerExecutor::with_threads(3);
    drop(handle);
    let mut stopped = 0usize;
    for w in workers {
        assert!(w.run());
        stopped += 1;
    }
    assert_eq!(stopped, 3);
}

#[test]
fn subtask_spawned_in_block_on_runs_on_shared_scheduler() {
    let (handle, _workers) = ServerExecutor::with_threads(0);
    let counter = Arc::new(AtomicUsize::new(0));
    let seen = counter.clone();
    let r = handle.block_on(|ex| {
        let ex = ex.clone();
        let task = ex.spawn(async move {
            seen.fetch_add(1, Ordering::SeqCst);
            5u32
        });
        async move { ex.run(task).await * 2 }
    });
    assert_eq!(r, 10);
    assert_eq!(counter.load(Ordering::SeqCst), 1);
}

#[test]
fn successive_block_on_calls_keep_their_results() {
    let (handle, _workers) = ServerExecutor::with_threads(0);
    let a = handle.block_on(|_| futures_lite::future::ready(7u64 * 6));
    let b = handle.block_on(|_| futures_lite::future::ready(String::from("other")));
    assert_eq!(a, 42);
    assert_eq!(b, "other");
}

#[test]
fn block_on_runs_spawned_subtask_without_workers() {
    let (handle, workers) = ServerExecutor::with_threads(0);
    assert!(workers.is_empty());
    let r = handle.block_on(|ex| ex.spawn(async { 6u32 * 7 }));
    assert_eq!(r, 42);
}
