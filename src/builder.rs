use vstd::prelude::*;

use crate::error::PoolError;

verus! {

/// The largest worker count a pool may be built with. rayon supports at
/// least this many threads in one pool on every target (32-bit ones
/// included), so a pool of this size is never silently shrunk.
pub const MAX_WORKERS: usize = 255;

/// Configuration of one pool under construction: the requested worker count
/// and the channel on which each worker's start-up token is queued for a
/// thread that the host has yet to create.
pub struct PoolBuilder {
    num_threads: usize,
    queued: usize,
    sender: spmc::Sender<rayon::ThreadBuilder>,
    receiver: spmc::Receiver<rayon::ThreadBuilder>,
}

impl PoolBuilder {
    /// The number of workers the pool is built for.
    pub closed spec fn requested(&self) -> nat {
        self.num_threads as nat
    }

    /// The number of start-up tokens put on the channel so far.
    pub closed spec fn queued_tokens(&self) -> nat {
        self.queued as nat
    }

    /// The consumer side handed to the host.
    pub closed spec fn consumer(&self) -> spmc::Receiver<rayon::ThreadBuilder> {
        self.receiver
    }

    /// A positive, supported worker count, and never more tokens than workers.
    pub closed spec fn wf(&self) -> bool {
        &&& 1 <= self.num_threads <= MAX_WORKERS
        &&& self.queued <= self.num_threads
    }

    /// A builder with a fresh channel; a count of zero or above
    /// `MAX_WORKERS` is refused.
    pub fn new(num_threads: usize) -> (r: Result<PoolBuilder, PoolError>)
        ensures
            r is Ok <==> 1 <= num_threads <= MAX_WORKERS,
            r is Err ==> r == Err::<PoolBuilder, PoolError>(PoolError::ConfigurationError),
            r matches Ok(b) ==> {
                &&& b.wf()
                &&& b.requested() == num_threads
                &&& b.queued_tokens() == 0
            },
    {
        if num_threads == 0 || num_threads > MAX_WORKERS {
            return Err(PoolError::ConfigurationError);
        }
        let (sender, receiver) = new_channel();
        Ok(PoolBuilder { num_threads, queued: 0, sender, receiver })
    }

    /// The number of workers the pool is built for.
    pub fn num_threads(&self) -> (r: usize)
        ensures
            r == self.requested(),
    {
        self.num_threads
    }

    /// The consumer side of the channel, for the threads that join the pool.
    pub fn receiver(&self) -> (r: &spmc::Receiver<rayon::ThreadBuilder>)
        ensures
            *r == self.consumer(),
    {
        &self.receiver
    }

    /// Queues the start-up of one worker. Returns false, and queues nothing,
    /// exactly when every requested worker already has its token.
    pub fn send_token(&mut self, token: rayon::ThreadBuilder) -> (r: bool)
        requires
            old(self).wf(),
        ensures
            final(self).wf(),
            final(self).requested() == old(self).requested(),
            final(self).consumer() == old(self).consumer(),
            r ==> final(self).queued_tokens() == old(self).queued_tokens() + 1,
            !r ==> final(self).queued_tokens() == old(self).queued_tokens(),
            r <==> old(self).queued_tokens() < old(self).requested(),
    {
        if self.queued >= self.num_threads {
            return false;
        }
        let sent = channel_send(self, token);
        if sent {
            self.queued = self.queued + 1;
        }
        sent
    }

    /// Constructs the rayon pool. Instead of starting threads, each worker's
    /// start-up is queued on the channel; on success one token stands queued
    /// for every requested worker. A builder that has queued tokens before
    /// is not built again.
    pub fn build(&mut self) -> (r: Result<rayon::ThreadPool, PoolError>)
        requires
            old(self).wf(),
        ensures
            final(self).wf(),
            final(self).requested() == old(self).requested(),
            final(self).consumer() == old(self).consumer(),
            old(self).queued_tokens() != 0 ==> {
                &&& r == Err::<rayon::ThreadPool, PoolError>(PoolError::ConfigurationError)
                &&& final(self).queued_tokens() == old(self).queued_tokens()
            },
            old(self).queued_tokens() == 0 ==> r is Ok,
            r is Ok ==> final(self).queued_tokens() == final(self).requested(),
            r is Err ==> r == Err::<rayon::ThreadPool, PoolError>(PoolError::ConfigurationError),
    {
        if self.queued != 0 {
            return Err(PoolError::ConfigurationError);
        }
        let n = self.num_threads;
        match build_pool(self, n) {
            Ok(pool) => Ok(pool),
            Err(_) => Err(PoolError::ConfigurationError),
        }
    }
}

/// Relies on spmc::channel: a new channel, returned as its two sides.
#[verifier::external_body]
fn new_channel() -> (spmc::Sender<rayon::ThreadBuilder>, spmc::Receiver<rayon::ThreadBuilder>) {
    spmc::channel()
}

/// Relies on spmc::Sender::send: it refuses a value only once the channel is
/// disconnected, which happens when the sender or the last receiver is
/// dropped. A `PoolBuilder` holds both ends of one channel from `new` on, so
/// the send always succeeds; only the sender changes.
#[verifier::external_body]
fn channel_send(builder: &mut PoolBuilder, token: rayon::ThreadBuilder) -> (r: bool)
    ensures
        r,
        final(builder).num_threads == old(builder).num_threads,
        final(builder).queued == old(builder).queued,
        final(builder).receiver == old(builder).receiver,
{
    builder.sender.send(token).is_ok()
}

/// Relies on rayon::ThreadPoolBuilder::build with a spawn handler: for a
/// count n with 0 < n <= rayon's thread limit (at least 255 on every
/// target), the handler is called once for each worker index in 0..n, and a
/// pool is returned exactly when every call succeeded. The handler only
/// queues the start-up through `send_token`, whose contract gives the rest:
/// with room for `num_threads` more tokens, every call succeeds.
#[verifier::external_body]
fn build_pool(builder: &mut PoolBuilder, num_threads: usize) -> (r: Result<rayon::ThreadPool, rayon::ThreadPoolBuildError>)
    requires
        1 <= num_threads <= MAX_WORKERS,
        old(builder).wf(),
    ensures
        final(builder).wf(),
        final(builder).requested() == old(builder).requested(),
        final(builder).consumer() == old(builder).consumer(),
        r is Ok ==> final(builder).queued_tokens() == old(builder).queued_tokens() + num_threads,
        old(builder).queued_tokens() + num_threads <= old(builder).requested() ==> r is Ok,
{
    rayon::ThreadPoolBuilder::new()
        .num_threads(num_threads)
        .spawn_handler(|thread| {
            builder.send_token(thread).then_some(()).ok_or(std::io::Error::from(std::io::ErrorKind::BrokenPipe))
        })
        .build()
}

/// Relies on spmc::Receiver::recv: takes one queued value, waiting while the
/// channel is empty and a sender remains; None once it is empty and every
/// sender is gone.
#[verifier::external_body]
fn channel_recv(receiver: &spmc::Receiver<rayon::ThreadBuilder>) -> Option<rayon::ThreadBuilder> {
    receiver.recv().ok()
}

/// Relies on rayon::ThreadBuilder::run: the calling thread becomes the
/// pool's worker and returns when the pool terminates.
#[verifier::external_body]
fn run_worker(token: rayon::ThreadBuilder) {
    token.run()
}

/// What a joining thread does with the outcome of its receive: a token is
/// run, an empty and closed channel means more threads were started than
/// workers requested.
pub fn admit_token(received: Option<rayon::ThreadBuilder>) -> (r: Result<rayon::ThreadBuilder, PoolError>)
    ensures
        received is None <==> r is Err,
        r is Err ==> r == Err::<rayon::ThreadBuilder, PoolError>(PoolError::ChannelExhaustedError),
        r matches Ok(t) ==> received == Some(t),
{
    match received {
        Some(t) => Ok(t),
        None => Err(PoolError::ChannelExhaustedError),
    }
}

/// Joins the calling thread to the pool: takes exactly one start-up token
/// and runs it, which returns only when the pool terminates. A thread that
/// finds no token left gets `ChannelExhaustedError` and runs nothing.
pub fn wbg_rayon_start_worker(receiver: &spmc::Receiver<rayon::ThreadBuilder>) -> (r: Result<(), PoolError>)
    ensures
        r is Ok || r == Err::<(), PoolError>(PoolError::ChannelExhaustedError),
{
    let token = admit_token(channel_recv(receiver))?;
    run_worker(token);
    Ok(())
}

} // verus!
