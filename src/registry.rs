use vstd::prelude::*;

use crate::builder::{PoolBuilder, MAX_WORKERS};
use crate::error::PoolError;

verus! {

/// Where the registered pool stands in its lifecycle.
#[derive(Clone, Copy, Debug, PartialEq, Eq, Structural)]
pub enum PoolState {
    /// No pool is registered.
    Uninitialized,
    /// A pool is built and its tokens queued; the host is starting threads.
    Starting,
    /// Every worker thread was started; work is accepted.
    Ready,
    /// Shutdown was requested; no work is accepted.
    Draining,
}

/// The registry as the contracts see it.
pub struct RegistryModel {
    pub state: PoolState,
    pub workers: nat,
    /// Whether the registry holds a pool, whose workers stay parked in it.
    pub holds_pool: bool,
}

/// The empty registry.
pub open spec fn uninitialized() -> RegistryModel {
    RegistryModel { state: PoolState::Uninitialized, workers: 0, holds_pool: false }
}

/// Whether a pool of `n` workers may be initialized in `m`: nothing else is
/// registered and `n` is a supported, positive count.
pub open spec fn init_allowed(m: RegistryModel, n: nat) -> bool {
    m.state == PoolState::Uninitialized && 1 <= n <= MAX_WORKERS
}

/// The registry once a pool of `n` workers is built and handed to the host.
pub open spec fn starting(n: nat) -> RegistryModel {
    RegistryModel { state: PoolState::Starting, workers: n, holds_pool: true }
}

/// The registry after the host reported on starting the threads.
pub open spec fn after_start_report(m: RegistryModel, ok: bool) -> RegistryModel {
    if m.state != PoolState::Starting {
        m
    } else if ok {
        RegistryModel { state: PoolState::Ready, workers: m.workers, holds_pool: true }
    } else {
        uninitialized()
    }
}

/// The registry after shutdown was requested: the pool is dropped, which
/// lets its parked workers return.
pub open spec fn after_exit_request(m: RegistryModel) -> RegistryModel {
    if m.state == PoolState::Ready || m.state == PoolState::Draining {
        RegistryModel { state: PoolState::Draining, workers: m.workers, holds_pool: false }
    } else {
        m
    }
}

/// The registry after the host reported on stopping the threads.
pub open spec fn after_exit_report(m: RegistryModel, ok: bool) -> RegistryModel {
    if m.state == PoolState::Draining && ok {
        uninitialized()
    } else {
        m
    }
}

/// Whether work submitted in `m` runs.
pub open spec fn accepts_work(m: RegistryModel) -> bool {
    m.state == PoolState::Ready
}

/// The process-wide slot for the pool: at most one pool, with its state.
pub struct PoolRegistry {
    state: PoolState,
    workers: usize,
    pool: Option<rayon::ThreadPool>,
}

impl View for PoolRegistry {
    type V = RegistryModel;

    closed spec fn view(&self) -> RegistryModel {
        RegistryModel {
            state: self.state,
            workers: self.workers as nat,
            holds_pool: self.pool is Some,
        }
    }
}

impl PoolRegistry {
    /// A pool is held exactly while it is starting or ready, and a
    /// registered pool has a supported, positive worker count.
    pub closed spec fn wf(&self) -> bool {
        &&& (self.pool is Some <==> (self.state == PoolState::Starting || self.state
            == PoolState::Ready))
        &&& (self.state == PoolState::Uninitialized <==> self.workers == 0)
        &&& self.workers <= MAX_WORKERS
    }

    /// An empty registry.
    pub fn new() -> (r: PoolRegistry)
        ensures
            r.wf(),
            r@ == uninitialized(),
    {
        PoolRegistry { state: PoolState::Uninitialized, workers: 0, pool: None }
    }

    /// The current lifecycle state.
    pub fn state(&self) -> (r: PoolState)
        ensures
            r == self@.state,
    {
        self.state
    }

    /// The worker count of the registered pool, 0 when there is none.
    pub fn worker_count(&self) -> (r: usize)
        ensures
            r == self@.workers,
    {
        self.workers
    }

    /// Registers a pool built for `num_threads` workers. A registry that
    /// already holds one, or a failed construction, is left as it is.
    pub fn register_built_pool(
        &mut self,
        num_threads: usize,
        built: Result<rayon::ThreadPool, PoolError>,
    ) -> (r: Result<(), PoolError>)
        requires
            old(self).wf(),
            1 <= num_threads <= MAX_WORKERS,
        ensures
            final(self).wf(),
            r is Ok <==> (old(self)@.state == PoolState::Uninitialized && built is Ok),
            r is Ok ==> final(self)@ == starting(num_threads as nat),
            r is Err ==> {
                &&& r == Err::<(), PoolError>(PoolError::ConfigurationError)
                &&& final(self)@ == old(self)@
            },
    {
        if self.state != PoolState::Uninitialized {
            return Err(PoolError::ConfigurationError);
        }
        match built {
            Ok(pool) => {
                self.pool = Some(pool);
                self.state = PoolState::Starting;
                self.workers = num_threads;
                Ok(())
            },
            Err(_) => Err(PoolError::ConfigurationError),
        }
    }
}

/// Starts initializing a pool of `num_threads` workers: builds it, with one
/// start-up token queued per worker, and registers it as starting. The
/// returned builder is what the host needs to start the threads. A zero or
/// unsupported count, or a registry that already holds a pool, gives
/// `ConfigurationError` and changes nothing; otherwise it succeeds.
pub fn init_thread_pool(registry: &mut PoolRegistry, num_threads: usize) -> (r: Result<
    PoolBuilder,
    PoolError,
>)
    requires
        old(registry).wf(),
    ensures
        final(registry).wf(),
        !init_allowed(old(registry)@, num_threads as nat) ==> r is Err,
        init_allowed(old(registry)@, num_threads as nat) ==> r is Ok,
        r is Err ==> {
            &&& r == Err::<PoolBuilder, PoolError>(PoolError::ConfigurationError)
            &&& final(registry)@ == old(registry)@
        },
        r matches Ok(b) ==> {
            &&& init_allowed(old(registry)@, num_threads as nat)
            &&& final(registry)@ == starting(num_threads as nat)
            &&& b.wf()
            &&& b.requested() == num_threads
            &&& b.queued_tokens() == num_threads
        },
{
    if registry.state != PoolState::Uninitialized {
        return Err(PoolError::ConfigurationError);
    }
    let mut builder = PoolBuilder::new(num_threads)?;
    let built = builder.build();
    registry.register_built_pool(num_threads, built)?;
    Ok(builder)
}

/// Records the host's report on starting the worker threads. Success makes
/// the pool ready; failure drops it and leaves the registry empty, with
/// `SupervisorError`. Without an initialization in progress nothing changes
/// and the result is `ConfigurationError`.
pub fn finish_init(registry: &mut PoolRegistry, supervisor_ok: bool) -> (r: Result<(), PoolError>)
    requires
        old(registry).wf(),
    ensures
        final(registry).wf(),
        final(registry)@ == after_start_report(old(registry)@, supervisor_ok),
        r is Ok <==> (old(registry)@.state == PoolState::Starting && supervisor_ok),
        (old(registry)@.state == PoolState::Starting && !supervisor_ok) ==> r == Err::<
            (),
            PoolError,
        >(PoolError::SupervisorError),
        old(registry)@.state != PoolState::Starting ==> r == Err::<(), PoolError>(
            PoolError::ConfigurationError,
        ),
{
    if registry.state != PoolState::Starting {
        return Err(PoolError::ConfigurationError);
    }
    if supervisor_ok {
        registry.state = PoolState::Ready;
        Ok(())
    } else {
        registry.pool = None;
        registry.state = PoolState::Uninitialized;
        registry.workers = 0;
        Err(PoolError::SupervisorError)
    }
}

/// Requests shutdown: the registry stops accepting work at once and drops
/// the pool, which lets every parked worker return. Repeating it while
/// draining is allowed, so that a failed teardown can be retried. Without a
/// ready pool it gives `NotReadyError` and changes nothing.
pub fn exit_thread_pool(registry: &mut PoolRegistry) -> (r: Result<(), PoolError>)
    requires
        old(registry).wf(),
    ensures
        final(registry).wf(),
        final(registry)@ == after_exit_request(old(registry)@),
        r is Ok <==> (old(registry)@.state == PoolState::Ready || old(registry)@.state
            == PoolState::Draining),
        r is Err ==> r == Err::<(), PoolError>(PoolError::NotReadyError),
{
    if registry.state != PoolState::Ready && registry.state != PoolState::Draining {
        return Err(PoolError::NotReadyError);
    }
    registry.pool = None;
    registry.state = PoolState::Draining;
    Ok(())
}

/// Records the host's report on stopping the worker threads. Success empties
/// the registry; failure keeps it draining, with `SupervisorError`. Outside
/// a teardown nothing changes and the result is `NotReadyError`.
pub fn finish_exit(registry: &mut PoolRegistry, supervisor_ok: bool) -> (r: Result<(), PoolError>)
    requires
        old(registry).wf(),
    ensures
        final(registry).wf(),
        final(registry)@ == after_exit_report(old(registry)@, supervisor_ok),
        r is Ok <==> (old(registry)@.state == PoolState::Draining && supervisor_ok),
        (old(registry)@.state == PoolState::Draining && !supervisor_ok) ==> r == Err::<
            (),
            PoolError,
        >(PoolError::SupervisorError),
        old(registry)@.state != PoolState::Draining ==> r == Err::<(), PoolError>(
            PoolError::NotReadyError,
        ),
{
    if registry.state != PoolState::Draining {
        return Err(PoolError::NotReadyError);
    }
    if supervisor_ok {
        registry.state = PoolState::Uninitialized;
        registry.workers = 0;
        Ok(())
    } else {
        Err(PoolError::SupervisorError)
    }
}

/// Runs `op` inside the ready pool, where it may split its work across every
/// worker, and returns what it returns. Without a ready pool it gives
/// `NotReadyError` and runs nothing.
pub fn run_in_pool<OP, R>(registry: &PoolRegistry, op: OP) -> (r: Result<R, PoolError>) where
    OP: FnOnce() -> R + Send,
    R: Send,

    requires
        registry.wf(),
        op.requires(()),
    ensures
        r is Ok <==> accepts_work(registry@),
        r is Err ==> r == Err::<R, PoolError>(PoolError::NotReadyError),
        r matches Ok(v) ==> op.ensures((), v),
{
    if registry.state != PoolState::Ready {
        return Err(PoolError::NotReadyError);
    }
    match &registry.pool {
        Some(pool) => Ok(install(pool, op)),
        None => Err(PoolError::NotReadyError),
    }
}

/// Runs a fallible `op` inside the ready pool. Its failure is reported as
/// `OperationFailure` and leaves the registry as it was, ready for the next
/// submission. Without a ready pool it gives `NotReadyError` and runs nothing.
pub fn try_run_in_pool<OP, R, E>(registry: &PoolRegistry, op: OP) -> (r: Result<R, PoolError>) where
    OP: FnOnce() -> Result<R, E> + Send,
    R: Send,
    E: Send,

    requires
        registry.wf(),
        op.requires(()),
    ensures
        !accepts_work(registry@) ==> r == Err::<R, PoolError>(PoolError::NotReadyError),
        accepts_work(registry@) ==> (r is Ok || r == Err::<R, PoolError>(
            PoolError::OperationFailure,
        )),
        r matches Ok(v) ==> op.ensures((), Ok::<R, E>(v)),
        r == Err::<R, PoolError>(PoolError::OperationFailure) ==> exists|e: E|
            op.ensures((), Err::<R, E>(e)),
{
    match run_in_pool(registry, op) {
        Ok(Ok(v)) => Ok(v),
        Ok(Err(_)) => Err(PoolError::OperationFailure),
        Err(e) => Err(e),
    }
}

/// Relies on rayon::ThreadPool::install: runs `op` once, inside the pool,
/// and returns its result.
#[verifier::external_body]
fn install<OP, R>(pool: &rayon::ThreadPool, op: OP) -> (r: R) where
    OP: FnOnce() -> R + Send,
    R: Send,

    requires
        op.requires(()),
    ensures
        op.ensures((), r),
{
    pool.install(op)
}

/// A successful initialization of `n` workers, once the host reports every
/// thread started, leaves the registry ready with exactly `n` workers.
pub proof fn lemma_init_reaches_ready(n: nat)
    requires
        1 <= n <= MAX_WORKERS,
    ensures
        init_allowed(uninitialized(), n),
        after_start_report(starting(n), true) == (RegistryModel {
            state: PoolState::Ready,
            workers: n,
            holds_pool: true,
        }),
        accepts_work(after_start_report(starting(n), true)),
{
}

/// A pool of zero workers is never initialized, whatever the registry holds.
pub proof fn lemma_zero_workers_refused(m: RegistryModel)
    ensures
        !init_allowed(m, 0),
{
}

/// No work is accepted before an initialization has been reported
/// successful, nor once shutdown has been requested, whatever the host
/// reports afterwards.
pub proof fn lemma_no_work_outside_ready(m: RegistryModel, n: nat, ok: bool)
    ensures
        !accepts_work(uninitialized()),
        !accepts_work(starting(n)),
        !accepts_work(after_start_report(starting(n), false)),
        !accepts_work(after_exit_request(m)),
        !accepts_work(after_exit_report(after_exit_request(m), ok)),
{
}

/// A completed teardown of a ready pool empties the registry, and a new
/// initialization of any supported size is then allowed and reaches ready.
pub proof fn lemma_exit_then_reinit(m: RegistryModel, n: nat)
    requires
        m.state == PoolState::Ready,
        1 <= n <= MAX_WORKERS,
    ensures
        after_exit_report(after_exit_request(m), true) == uninitialized(),
        after_exit_report(after_exit_request(m), true).workers == 0,
        !after_exit_request(m).holds_pool,
        init_allowed(after_exit_report(after_exit_request(m), true), n),
        accepts_work(after_start_report(starting(n), true)),
{
}

} // verus!
