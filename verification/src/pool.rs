//! Pool builder and worker bootstrap: the executable side of the handoff
//! protocol, built on a bounded crossbeam channel and the rayon thread-pool
//! library's custom spawn handler.

use vstd::prelude::*;
use crate::PoolError;
use crossbeam_channel::Receiver;
use crossbeam_channel::Sender;
use rayon::ThreadBuilder;

verus! {

#[verifier::external_type_specification]
#[verifier::external_body]
#[verifier::reject_recursive_types(T)]
pub struct ExSender<T>(Sender<T>);

#[verifier::external_type_specification]
#[verifier::external_body]
#[verifier::reject_recursive_types(T)]
pub struct ExReceiver<T>(Receiver<T>);

#[verifier::external_type_specification]
#[verifier::external_body]
pub struct ExThreadBuilder(ThreadBuilder);

#[verifier::external_type_specification]
#[verifier::external_body]
pub struct ExThreadPoolBuildError(rayon::ThreadPoolBuildError);

/// The fixed capacity that the bounded delivery channel behind `r` was
/// created with.
pub uninterp spec fn receiver_capacity(r: &Receiver<ThreadBuilder>) -> nat;

/// Whether the channel behind `r` is a bounded one; only a bounded channel
/// reports its capacity.
pub uninterp spec fn receiver_is_bounded(r: &Receiver<ThreadBuilder>) -> bool;

/// Relies on crossbeam_channel::bounded: creates a bounded channel of the
/// given capacity and returns its sending and receiving ends. It panics when
/// the capacity comes near the pointer width's limit — its bookkeeping needs
/// the next power of two above the capacity, twice — so the precondition
/// keeps safely clear of that.
#[verifier::external_body]
fn channel_bounded(cap: usize) -> (r: (Sender<ThreadBuilder>, Receiver<ThreadBuilder>))
    requires
        cap < usize::MAX / 4,
    ensures
        receiver_is_bounded(&r.1),
        receiver_capacity(&r.1) == cap as nat,
{
    crossbeam_channel::bounded(cap)
}

/// Relies on crossbeam_channel::Receiver::capacity: a bounded channel reports
/// the capacity it was created with, and only an unbounded channel reports
/// `None`.
#[verifier::external_body]
fn channel_capacity(r: &Receiver<ThreadBuilder>) -> (c: Option<usize>)
    ensures
        receiver_is_bounded(r) ==> c is Some,
        c matches Some(k) ==> k as nat == receiver_capacity(r),
{
    r.capacity()
}

/// Relies on crossbeam_channel::Sender::try_send: queues the task if the
/// channel has buffer space or a waiting receiver, and reports `false` when
/// the channel is full or all receivers are gone. Never blocks or panics.
#[verifier::external_body]
fn channel_try_send(sender: &Sender<ThreadBuilder>, task: ThreadBuilder) -> (accepted: bool) {
    sender.try_send(task).is_ok()
}

/// Relies on crossbeam_channel::Receiver::recv: suspends the calling context
/// until a task arrives (returned as `Some`) or until the channel is empty
/// with every sender dropped (`None`). Never panics.
#[verifier::external_body]
fn channel_recv(receiver: &Receiver<ThreadBuilder>) -> (task: Option<ThreadBuilder>) {
    receiver.recv().ok()
}

/// Relies on rayon::ThreadBuilder::run: enters the pool's internal worker
/// event loop; under normal operation it returns only when the pool itself is
/// torn down. The calling context must be a freshly spawned one that is not
/// already registered as a pool worker — the library asserts as much — which
/// the protocol guarantees: the host spawns one fresh context per task.
#[verifier::external_body]
fn run_startup_task(task: ThreadBuilder) {
    task.run()
}

/// Queues one startup task on the delivery channel, reporting whether the
/// channel accepted it. The pool library's spawn handler calls this once per
/// worker it generates.
fn enqueue_startup_task(sender: &Sender<ThreadBuilder>, task: ThreadBuilder) -> (accepted: bool) {
    channel_try_send(sender, task)
}

/// Relies on rayon::ThreadPoolBuilder::{new, num_threads, spawn_handler,
/// build_global}: installs the process-wide pool sized `num_threads` (the
/// library soft-caps the count at an internal maximum), calling the handler
/// once per worker index; fails if a global pool is already installed or the
/// handler reports a rejected task.
#[verifier::external_body]
fn rayon_build_global(
    num_threads: usize,
    sender: &Sender<ThreadBuilder>,
) -> (r: Result<(), rayon::ThreadPoolBuildError>) {
    rayon::ThreadPoolBuilder::new()
        .num_threads(num_threads)
        .spawn_handler(|thread| {
            if enqueue_startup_task(sender, thread) {
                Ok(())
            } else {
                Err(std::io::Error::other("delivery channel rejected a startup task"))
            }
        })
        .build_global()
}

/// Owns the delivery channel and the requested worker count, and drives
/// construction of the underlying thread-pool instance. The channel's
/// capacity always equals the worker count, so the construction burst of one
/// startup task per worker is buffered even before any worker is waiting.
/// The fields stay private: the sending end is used exactly once, by the
/// construction burst, and nothing else may touch it.
#[allow(non_camel_case_types)]
pub struct wbg_rayon_PoolBuilder {
    num_threads: usize,
    sender: Sender<ThreadBuilder>,
    receiver: Receiver<ThreadBuilder>,
}

impl wbg_rayon_PoolBuilder {
    /// The stored worker count, as contracts speak of it.
    pub closed spec fn spec_num_threads(&self) -> usize {
        self.num_threads
    }

    /// The delivery channel's receiving end, as contracts speak of it.
    pub closed spec fn spec_receiver(&self) -> &Receiver<ThreadBuilder> {
        &self.receiver
    }

    /// The builder's invariant: a positive worker count that equals the
    /// delivery channel's fixed capacity.
    pub closed spec fn wf(&self) -> bool {
        &&& self.num_threads >= 1
        &&& receiver_is_bounded(&self.receiver)
        &&& receiver_capacity(&self.receiver) == self.num_threads as nat
    }

    /// Constructs a builder for `num_threads` workers, with a delivery
    /// channel of exactly that capacity. A zero-worker pool could never
    /// receive a task, so zero is rejected as a configuration error before
    /// any channel is constructed. The upper bound is a machine limit: the
    /// channel cannot be built with a capacity near the pointer width's
    /// limit.
    pub fn new(num_threads: usize) -> (r: Result<Self, PoolError>)
        requires
            num_threads < usize::MAX / 4,
        ensures
            r is Ok <==> num_threads >= 1,
            num_threads == 0 ==> r == Err::<Self, PoolError>(PoolError::ZeroWorkers),
            r matches Ok(b) ==> b.wf() && b.spec_num_threads() == num_threads,
    {
        if num_threads == 0 {
            return Err(PoolError::ZeroWorkers);
        }
        let (sender, receiver) = channel_bounded(num_threads);
        Ok(Self { num_threads, sender, receiver })
    }

    /// The stored worker count.
    pub fn num_threads(&self) -> (n: usize)
        ensures
            n == self.spec_num_threads(),
    {
        self.num_threads
    }

    /// A stable reference to the delivery channel's receiving end. The host
    /// hands it to each worker context it spawns; it stays valid for as long
    /// as the builder itself is kept alive.
    pub fn receiver(&self) -> (r: &Receiver<ThreadBuilder>)
        ensures
            r == self.spec_receiver(),
    {
        &self.receiver
    }

    /// The delivery channel's capacity as the channel itself reports it;
    /// under the builder's invariant this is always the worker count.
    pub fn channel_capacity(&self) -> (c: Option<usize>)
        requires
            self.wf(),
        ensures
            c == Some(self.spec_num_threads()),
    {
        channel_capacity(&self.receiver)
    }

    /// Finishes construction: drives the underlying thread-pool library to
    /// generate one startup task per worker and queue each on the delivery
    /// channel. The builder itself is left unchanged, so the receiving-end
    /// handle stays valid for workers that have not started yet. Fails with
    /// `BuildRefused` when the library cannot build — in particular when a
    /// process-wide pool is already installed, a configuration error that is
    /// not retried.
    ///
    /// Ordering contract (the host's responsibility, not enforced here): all
    /// `num_threads` worker contexts should already be blocked on the
    /// receiving end. The burst of sends is buffered either way, but the
    /// library lets this call come back only once every worker is running.
    pub fn build(&mut self) -> (r: Result<(), PoolError>)
        requires
            old(self).wf(),
        ensures
            *final(self) == *old(self),
            final(self).wf(),
            r is Err ==> r == Err::<(), PoolError>(PoolError::BuildRefused),
    {
        match rayon_build_global(self.num_threads, &self.sender) {
            Ok(()) => Ok(()),
            Err(_) => Err(PoolError::BuildRefused),
        }
    }
}

/// The initialization entry point's decision core: validates the requested
/// worker count and constructs the pool builder, performing no channel
/// construction when the count is zero. The host collaborator then spawns
/// `num_threads` worker contexts, each primed to call `wbg_rayon_start_worker`
/// with the builder's receiving-end handle, and calls `build` once all of
/// them are confirmed spawned.
pub fn init_thread_pool(num_threads: usize) -> (r: Result<wbg_rayon_PoolBuilder, PoolError>)
    requires
        num_threads < usize::MAX / 4,
    ensures
        r is Ok <==> num_threads >= 1,
        num_threads == 0 ==> r == Err::<wbg_rayon_PoolBuilder, PoolError>(PoolError::ZeroWorkers),
        r matches Ok(b) ==> b.wf() && b.spec_num_threads() == num_threads,
{
    wbg_rayon_PoolBuilder::new(num_threads)
}

/// Runs the startup task a worker pulled, if one arrived: a worker that got a
/// task enters the scheduler loop and reports success once the pool is torn
/// down; one that got none reports starvation.
fn run_received_task(task: Option<ThreadBuilder>) -> (r: Result<(), PoolError>)
    ensures
        r is Ok <==> task is Some,
        task is None ==> r == Err::<(), PoolError>(PoolError::NoTaskAvailable),
{
    match task {
        Some(task) => {
            run_startup_task(task);
            Ok(())
        }
        None => Err(PoolError::NoTaskAvailable),
    }
}

/// Worker bootstrap: blocks until exactly one startup task arrives on the
/// delivery channel, then runs it, which enters the pool's internal event
/// loop and does not come back while the pool lives. When the channel closes
/// with no task ever delivered, the worker has no role to play and reports
/// `NoTaskAvailable` so the surrounding context can terminate it. Whether a
/// task arrives turns on concurrent senders, so success is not promised here;
/// `run_received_task` fixes the outcome for each value the receive can hand
/// back.
pub fn wbg_rayon_start_worker(receiver: &Receiver<ThreadBuilder>) -> (r: Result<(), PoolError>)
    ensures
        r is Err ==> r == Err::<(), PoolError>(PoolError::NoTaskAvailable),
{
    run_received_task(channel_recv(receiver))
}

} // verus!
