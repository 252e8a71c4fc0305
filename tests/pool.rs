use std::sync::atomic::{AtomicBool, AtomicI32, AtomicUsize, Ordering};

use rayon_bridge::builder::{admit_token, wbg_rayon_start_worker, PoolBuilder, MAX_WORKERS};
use rayon_bridge::error::PoolError;
use rayon_bridge::registry::{
    exit_thread_pool, finish_exit, finish_init, init_thread_pool, run_in_pool, try_run_in_pool,
    PoolRegistry, PoolState,
};
use rayon_bridge::sum::{
    multithreaded_sum, parallel_sum, parallel_sum_reported, process_entry, report_entry,
};

/// Plays the host: starts `n` threads (through a scoped rayon builder whose
/// wrapper joins our pool instead of its own), each taking a token from
/// `builder`, and runs `body` on the calling thread meanwhile. Returns once
/// every started thread has returned.
fn with_host_threads<F: FnOnce()>(builder: &PoolBuilder, n: usize, body: F) {
    let receiver = builder.receiver();
    rayon::ThreadPoolBuilder::new()
        .num_threads(n)
        .build_scoped(
            |_unused| assert_eq!(wbg_rayon_start_worker(receiver), Ok(())),
            |_host| body(),
        )
        .expect("host threads");
}

/// Initializes a pool of `n` workers, starts its threads, runs `body` once
/// the pool is ready, then tears the pool down.
fn with_ready_pool<F: FnOnce(&mut PoolRegistry)>(registry: &mut PoolRegistry, n: usize, body: F) {
    let builder = init_thread_pool(registry, n).expect("initialization");
    assert_eq!(registry.state(), PoolState::Starting);
    with_host_threads(&builder, n, || {
        assert_eq!(finish_init(registry, true), Ok(()));
        assert_eq!(registry.state(), PoolState::Ready);
        assert_eq!(registry.worker_count(), n);
        body(registry);
        assert_eq!(exit_thread_pool(registry), Ok(()));
        assert_eq!(registry.state(), PoolState::Draining);
    });
    // every started thread took exactly one token: none is left
    assert!(builder.receiver().try_recv().is_err());
    assert_eq!(finish_exit(registry, true), Ok(()));
    assert_eq!(registry.state(), PoolState::Uninitialized);
    assert_eq!(registry.worker_count(), 0);
}

#[test]
fn builder_rejects_zero_workers() {
    assert!(matches!(PoolBuilder::new(0), Err(PoolError::ConfigurationError)));
}

#[test]
fn builder_rejects_count_above_limit() {
    assert!(matches!(PoolBuilder::new(MAX_WORKERS + 1), Err(PoolError::ConfigurationError)));
    assert!(PoolBuilder::new(MAX_WORKERS).is_ok());
}

#[test]
fn builder_reports_thread_count() {
    let b = PoolBuilder::new(4).expect("builder");
    assert_eq!(b.num_threads(), 4);
}

#[test]
fn build_queues_one_token_per_worker() {
    let mut b = PoolBuilder::new(4).expect("builder");
    let pool = b.build().expect("pool");
    assert_eq!(pool.current_num_threads(), 4);
    let mut tokens = Vec::new();
    while let Ok(t) = b.receiver().try_recv() {
        tokens.push(t);
    }
    assert_eq!(tokens.len(), 4);
    let mut indices: Vec<usize> = tokens.iter().map(|t| t.index()).collect();
    indices.sort();
    assert_eq!(indices, vec![0, 1, 2, 3]);
}

#[test]
fn build_twice_is_refused() {
    let mut b = PoolBuilder::new(2).expect("builder");
    let _pool = b.build().expect("pool");
    assert!(matches!(b.build(), Err(PoolError::ConfigurationError)));
}

#[test]
fn send_token_refuses_beyond_requested() {
    let mut b = PoolBuilder::new(1).expect("builder");
    let _pool = b.build().expect("pool");
    let mut other = PoolBuilder::new(1).expect("builder");
    let _other_pool = other.build().expect("pool");
    let extra = other.receiver().try_recv().expect("token");
    assert!(!b.send_token(extra));
}

#[test]
fn join_without_token_is_channel_exhausted() {
    let mut b = PoolBuilder::new(2).expect("builder");
    let _pool = b.build().expect("pool");
    let receiver = b.receiver().clone();
    let first = receiver.try_recv();
    let second = receiver.try_recv();
    assert!(first.is_ok() && second.is_ok());
    drop(b);
    assert_eq!(wbg_rayon_start_worker(&receiver), Err(PoolError::ChannelExhaustedError));
}

#[test]
fn admit_token_without_token_fails() {
    assert!(matches!(admit_token(None), Err(PoolError::ChannelExhaustedError)));
}

#[test]
fn init_with_zero_threads_fails_and_stays_uninitialized() {
    let mut registry = PoolRegistry::new();
    assert!(matches!(init_thread_pool(&mut registry, 0), Err(PoolError::ConfigurationError)));
    assert_eq!(registry.state(), PoolState::Uninitialized);
    assert_eq!(registry.worker_count(), 0);
}

#[test]
fn init_while_registered_is_refused() {
    let mut registry = PoolRegistry::new();
    let _builder = init_thread_pool(&mut registry, 2).expect("initialization");
    assert!(matches!(init_thread_pool(&mut registry, 2), Err(PoolError::ConfigurationError)));
    assert_eq!(registry.state(), PoolState::Starting);
    assert_eq!(registry.worker_count(), 2);
}

#[test]
fn run_before_init_is_not_ready_and_runs_nothing() {
    let registry = PoolRegistry::new();
    let ran = AtomicBool::new(false);
    let r = run_in_pool(&registry, || ran.store(true, Ordering::SeqCst));
    assert_eq!(r, Err(PoolError::NotReadyError));
    assert!(!ran.load(Ordering::SeqCst));
    assert_eq!(multithreaded_sum(&registry, |_| {}), Err(PoolError::NotReadyError));
}

#[test]
fn run_while_starting_is_not_ready() {
    let mut registry = PoolRegistry::new();
    let _builder = init_thread_pool(&mut registry, 2).expect("initialization");
    assert_eq!(run_in_pool(&registry, || 1), Err(PoolError::NotReadyError));
}

#[test]
fn failed_start_leaves_registry_empty() {
    let mut registry = PoolRegistry::new();
    let _builder = init_thread_pool(&mut registry, 3).expect("initialization");
    assert_eq!(finish_init(&mut registry, false), Err(PoolError::SupervisorError));
    assert_eq!(registry.state(), PoolState::Uninitialized);
    assert_eq!(registry.worker_count(), 0);
    assert_eq!(run_in_pool(&registry, || 1), Err(PoolError::NotReadyError));
}

#[test]
fn finish_init_without_initialization_is_refused() {
    let mut registry = PoolRegistry::new();
    assert_eq!(finish_init(&mut registry, true), Err(PoolError::ConfigurationError));
    assert_eq!(registry.state(), PoolState::Uninitialized);
}

#[test]
fn exit_without_pool_is_not_ready() {
    let mut registry = PoolRegistry::new();
    assert_eq!(exit_thread_pool(&mut registry), Err(PoolError::NotReadyError));
    assert_eq!(finish_exit(&mut registry, true), Err(PoolError::NotReadyError));
    assert_eq!(registry.state(), PoolState::Uninitialized);
}

#[test]
fn four_workers_sum_to_fifty_five() {
    let mut registry = PoolRegistry::new();
    with_ready_pool(&mut registry, 4, |registry| {
        assert_eq!(multithreaded_sum(registry, |_| {}), Ok(55));
        let v: Vec<i32> = (1..=10).collect();
        assert_eq!(run_in_pool(registry, || parallel_sum(v)), Ok(55));
        let idx = run_in_pool(registry, || rayon::current_thread_index());
        assert!(matches!(idx, Ok(Some(i)) if i < 4));
    });
}

#[test]
fn ready_pool_has_exactly_the_requested_workers() {
    for n in [1usize, 3, 8] {
        let mut registry = PoolRegistry::new();
        with_ready_pool(&mut registry, n, |registry| {
            assert_eq!(registry.worker_count(), n);
            let threads = run_in_pool(registry, || rayon::current_num_threads());
            assert_eq!(threads, Ok(n));
        });
    }
}

#[test]
fn run_after_exit_is_not_ready() {
    let mut registry = PoolRegistry::new();
    with_ready_pool(&mut registry, 2, |_| {});
    let ran = AtomicBool::new(false);
    let r = run_in_pool(&registry, || ran.store(true, Ordering::SeqCst));
    assert_eq!(r, Err(PoolError::NotReadyError));
    assert!(!ran.load(Ordering::SeqCst));
}

#[test]
fn pool_cycle_is_repeatable() {
    let mut registry = PoolRegistry::new();
    with_ready_pool(&mut registry, 3, |registry| {
        assert_eq!(multithreaded_sum(registry, |_| {}), Ok(55));
    });
    with_ready_pool(&mut registry, 2, |registry| {
        assert_eq!(multithreaded_sum(registry, |_| {}), Ok(55));
    });
}

#[test]
fn failed_operation_does_not_poison_pool() {
    let mut registry = PoolRegistry::new();
    with_ready_pool(&mut registry, 2, |registry| {
        let failed = try_run_in_pool(registry, || Err::<i32, &str>("entry 3 failed"));
        assert_eq!(failed, Err(PoolError::OperationFailure));
        assert_eq!(registry.state(), PoolState::Ready);
        assert_eq!(try_run_in_pool(registry, || Ok::<i32, &str>(9)), Ok(9));
        assert_eq!(run_in_pool(registry, || 7), Ok(7));
    });
}

#[test]
fn failed_teardown_stays_draining_and_can_be_retried() {
    let mut registry = PoolRegistry::new();
    let builder = init_thread_pool(&mut registry, 2).expect("initialization");
    with_host_threads(&builder, 2, || {
        assert_eq!(finish_init(&mut registry, true), Ok(()));
        assert_eq!(exit_thread_pool(&mut registry), Ok(()));
    });
    assert_eq!(finish_exit(&mut registry, false), Err(PoolError::SupervisorError));
    assert_eq!(registry.state(), PoolState::Draining);
    assert_eq!(run_in_pool(&registry, || 1), Err(PoolError::NotReadyError));
    assert_eq!(exit_thread_pool(&mut registry), Ok(()));
    assert_eq!(finish_exit(&mut registry, true), Ok(()));
    assert_eq!(registry.state(), PoolState::Uninitialized);
}

#[test]
fn register_built_pool_only_into_empty_registry() {
    let mut registry = PoolRegistry::new();
    assert_eq!(
        registry.register_built_pool(2, Err(PoolError::ConfigurationError)),
        Err(PoolError::ConfigurationError)
    );
    assert_eq!(registry.state(), PoolState::Uninitialized);
    let pool = rayon::ThreadPoolBuilder::new().num_threads(1).build().expect("pool");
    assert_eq!(registry.register_built_pool(1, Ok(pool)), Ok(()));
    assert_eq!(registry.state(), PoolState::Starting);
    assert_eq!(registry.worker_count(), 1);
    let other = rayon::ThreadPoolBuilder::new().num_threads(1).build().expect("pool");
    assert_eq!(registry.register_built_pool(1, Ok(other)), Err(PoolError::ConfigurationError));
}

#[test]
fn parallel_sum_matches_sequential_sum() {
    let v: Vec<i32> = vec![5, -3, 12, 40, -7, 0, 19, -100, 33, 8, 2, 1];
    let expected: i32 = v.iter().sum();
    assert_eq!(parallel_sum(v), expected);
    assert_eq!(parallel_sum((1..=10).collect()), 55);
    assert_eq!(parallel_sum(Vec::new()), 0);
    assert_eq!(parallel_sum(vec![i32::MAX, -1]), i32::MAX - 1);
}

#[test]
fn process_entry_is_identity() {
    assert_eq!(process_entry(7), 7);
    assert_eq!(process_entry(-3), -3);
}

#[test]
fn send_token_succeeds_below_requested_count() {
    let mut source = PoolBuilder::new(2).expect("builder");
    let _source_pool = source.build().expect("pool");
    let first = source.receiver().try_recv().expect("token");
    let second = source.receiver().try_recv().expect("token");
    let mut b = PoolBuilder::new(2).expect("builder");
    assert!(b.send_token(first));
    assert!(b.send_token(second));
    let mut queued = 0;
    while b.receiver().try_recv().is_ok() {
        queued += 1;
    }
    assert_eq!(queued, 2);
}

#[test]
fn every_entry_is_reported_once_inside_the_pool() {
    let mut registry = PoolRegistry::new();
    with_ready_pool(&mut registry, 4, |registry| {
        let calls = AtomicUsize::new(0);
        let total = AtomicI32::new(0);
        let outside = AtomicBool::new(false);
        let r = multithreaded_sum(registry, |n| {
            calls.fetch_add(1, Ordering::SeqCst);
            total.fetch_add(n, Ordering::SeqCst);
            match rayon::current_thread_index() {
                Some(i) if i < 4 => {}
                _ => outside.store(true, Ordering::SeqCst),
            }
        });
        assert_eq!(r, Ok(55));
        assert_eq!(calls.load(Ordering::SeqCst), 10);
        assert_eq!(total.load(Ordering::SeqCst), 55);
        assert!(!outside.load(Ordering::SeqCst));
    });
}

#[test]
fn multithreaded_sum_reports_nothing_when_not_ready() {
    let registry = PoolRegistry::new();
    let calls = AtomicUsize::new(0);
    let r = multithreaded_sum(&registry, |_| {
        calls.fetch_add(1, Ordering::SeqCst);
    });
    assert_eq!(r, Err(PoolError::NotReadyError));
    assert_eq!(calls.load(Ordering::SeqCst), 0);
}

#[test]
fn parallel_sum_reported_sees_each_entry() {
    let calls = AtomicUsize::new(0);
    let r = parallel_sum_reported(vec![4, -2, 9], &|_| {
        calls.fetch_add(1, Ordering::SeqCst);
    });
    assert_eq!(r, 11);
    assert_eq!(calls.load(Ordering::SeqCst), 3);
}

#[test]
fn report_entry_reports_and_keeps_value() {
    let seen = AtomicI32::new(0);
    assert_eq!(report_entry(6, &|n| seen.store(n, Ordering::SeqCst)), 6);
    assert_eq!(seen.load(Ordering::SeqCst), 6);
}

#[test]
fn parallel_sum_ignores_order() {
    let v: Vec<i32> = vec![3, -8, 21, 0, 5, -13];
    let mut w = v.clone();
    w.reverse();
    w.swap(0, 3);
    assert_eq!(parallel_sum(v), parallel_sum(w));
}
