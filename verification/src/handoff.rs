//! A sequential model of the bootstrap handoff protocol: the pool builder
//! pre-allocates one startup task per worker, `finish_construction` queues
//! the whole burst on the bounded delivery channel, and each worker's receive
//! takes exactly one task out. The model identifies each startup task by the
//! worker index the pool library generates it with, and carries the delivery
//! invariants that the concurrent exchange must keep: every task is sent
//! exactly once, delivered at most once, and never duplicated or dropped.

use vstd::prelude::*;
use crate::PoolError;

verus! {

/// The startup-task ids a pool of `n` workers generates: `0, 1, ..., n - 1`,
/// one per worker, all distinct.
pub open spec fn task_ids(n: nat) -> Seq<usize> {
    Seq::new(n, |i: int| i as usize)
}

/// The state of one pool's handoff, from construction of the builder until
/// the last worker has pulled its task.
pub struct HandoffState {
    /// The requested worker count; also the delivery channel's capacity.
    pub worker_count: usize,
    /// Whether `finish_construction` has run.
    pub built: bool,
    /// Startup tasks queued on the delivery channel, oldest first.
    pub pending: Vec<usize>,
    /// Startup tasks already handed to a worker, in delivery order.
    pub delivered: Vec<usize>,
}

impl HandoffState {
    /// Well-formedness: the worker count is positive; before construction
    /// finishes nothing has been sent or delivered, and afterwards the
    /// delivered tasks followed by the still-pending ones are exactly the
    /// `worker_count` distinct tasks the builder generated.
    pub open spec fn wf(self) -> bool {
        &&& self.worker_count >= 1
        &&& if self.built {
            self.delivered@ + self.pending@ == task_ids(self.worker_count as nat)
        } else {
            self.pending@.len() == 0 && self.delivered@.len() == 0
        }
    }

    /// Starts a handoff for `worker_count` workers. A zero-worker pool can
    /// never receive a task, so zero is a configuration error and no state is
    /// constructed for it.
    pub fn new(worker_count: usize) -> (r: Result<HandoffState, PoolError>)
        ensures
            r is Ok <==> worker_count >= 1,
            worker_count == 0 ==> r == Err::<HandoffState, PoolError>(PoolError::ZeroWorkers),
            r matches Ok(s) ==> {
                &&& s.wf()
                &&& s.worker_count == worker_count
                &&& !s.built
                &&& s.pending@.len() == 0
                &&& s.delivered@.len() == 0
            },
    {
        if worker_count == 0 {
            return Err(PoolError::ZeroWorkers);
        }
        Ok(HandoffState {
            worker_count,
            built: false,
            pending: Vec::new(),
            delivered: Vec::new(),
        })
    }

    /// Finishes construction: queues one startup task per worker, in one
    /// burst, whether or not any worker is waiting yet — the channel's
    /// capacity equals `worker_count`, so the burst is always buffered.
    /// Running it a second time is refused, as the underlying pool library
    /// refuses to install a second process-wide pool.
    pub fn finish_construction(&mut self) -> (r: Result<(), PoolError>)
        requires
            old(self).wf(),
        ensures
            final(self).wf(),
            old(self).built ==> {
                &&& r == Err::<(), PoolError>(PoolError::BuildRefused)
                &&& *final(self) == *old(self)
            },
            !old(self).built ==> {
                &&& r is Ok
                &&& final(self).built
                &&& final(self).worker_count == old(self).worker_count
                &&& final(self).pending@ == task_ids(old(self).worker_count as nat)
                &&& final(self).delivered@.len() == 0
            },
    {
        if self.built {
            return Err(PoolError::BuildRefused);
        }
        let n = self.worker_count;
        let mut burst: Vec<usize> = Vec::new();
        let mut i: usize = 0;
        while i < n
            invariant
                i <= n,
                burst@ == task_ids(i as nat),
            decreases n - i,
        {
            burst.push(i);
            proof {
                assert(burst@ =~= task_ids((i + 1) as nat));
            }
            i = i + 1;
        }
        self.pending = burst;
        self.built = true;
        Ok(())
    }

    /// One worker's receive: takes the oldest pending startup task off the
    /// channel and records it as delivered. Returns `None` when no task is
    /// pending — the point at which a real worker context suspends until a
    /// task arrives or the channel closes.
    pub fn receive_task(&mut self) -> (r: Option<usize>)
        requires
            old(self).wf(),
        ensures
            final(self).wf(),
            final(self).worker_count == old(self).worker_count,
            final(self).built == old(self).built,
            old(self).pending@.len() == 0 ==> r is None && *final(self) == *old(self),
            old(self).pending@.len() > 0 ==> {
                &&& r == Some(old(self).pending@[0])
                &&& final(self).pending@ == old(self).pending@.skip(1)
                &&& final(self).delivered@ == old(self).delivered@.push(old(self).pending@[0])
            },
    {
        if self.pending.len() == 0 {
            return None;
        }
        let task = self.pending.remove(0);
        self.delivered.push(task);
        proof {
            assert(self.pending@ =~= old(self).pending@.skip(1));
            assert(self.delivered@ + self.pending@ =~= old(self).delivered@ + old(self).pending@);
        }
        Some(task)
    }

    /// The stored worker count.
    pub fn worker_count(&self) -> (n: usize)
        ensures
            n == self.worker_count,
    {
        self.worker_count
    }

    /// Whether construction has finished.
    pub fn is_built(&self) -> (b: bool)
        ensures
            b == self.built,
    {
        self.built
    }

    /// How many startup tasks sit undelivered on the channel.
    pub fn pending_count(&self) -> (n: usize)
        ensures
            n == self.pending@.len(),
    {
        self.pending.len()
    }

    /// How many startup tasks have been handed to a worker.
    pub fn delivered_count(&self) -> (n: usize)
        ensures
            n == self.delivered@.len(),
    {
        self.delivered.len()
    }
}

/// Law: exactly-once delivery. In every well-formed handoff state, whatever
/// the worker count, no startup task has been received more than once across
/// all workers combined: the delivered tasks are pairwise distinct.
pub proof fn lemma_exactly_once(s: HandoffState)
    requires
        s.wf(),
    ensures
        forall|i: int, j: int|
            0 <= i < j < s.delivered@.len() ==> s.delivered@[i] != s.delivered@[j],
{
    if s.built {
        let all = s.delivered@ + s.pending@;
        let n = s.worker_count as nat;
        assert(all == task_ids(n));
        assert forall|i: int, j: int|
            0 <= i < j < s.delivered@.len() implies s.delivered@[i] != s.delivered@[j] by {
            assert(s.delivered@[i] == all[i]);
            assert(s.delivered@[j] == all[j]);
            assert(task_ids(n)[i] == i as usize);
            assert(task_ids(n)[j] == j as usize);
            assert(j < n);
        };
    }
}

/// Law: a complete handoff hands every task out. Once construction has
/// finished and exactly `worker_count` receives have happened, no task is
/// left pending and the delivered tasks are exactly the `worker_count`
/// distinct tasks the builder generated — each bootstrap call received
/// exactly one.
pub proof fn lemma_full_delivery(s: HandoffState)
    requires
        s.wf(),
        s.built,
        s.delivered@.len() == s.worker_count,
    ensures
        s.pending@.len() == 0,
        s.delivered@ == task_ids(s.worker_count as nat),
{
    assert(s.delivered@ + s.pending@ == task_ids(s.worker_count as nat));
    assert(s.delivered@ =~= s.delivered@ + s.pending@);
}

/// Law: the construction burst is fully buffered. When construction finishes
/// before any worker is waiting, all `worker_count` tasks sit on the channel
/// at once — exactly the capacity the channel was created with, so the burst
/// never overflows and delivery afterwards is still exactly-once.
pub proof fn lemma_burst_buffered(s: HandoffState)
    requires
        s.wf(),
        s.built,
        s.delivered@.len() == 0,
    ensures
        s.pending@.len() == s.worker_count,
        s.pending@ == task_ids(s.worker_count as nat),
{
    assert(s.pending@ =~= s.delivered@ + s.pending@);
}

/// Law: starvation leaks tasks but corrupts nothing. However many receives
/// have happened since construction finished, the tasks split cleanly:
/// delivered and pending tasks together account for all `worker_count` of
/// them, and no task is both delivered and still pending. Workers that never
/// start leave their tasks permanently buffered, nothing more.
pub proof fn lemma_starved_tasks_kept(s: HandoffState)
    requires
        s.wf(),
        s.built,
    ensures
        s.pending@.len() + s.delivered@.len() == s.worker_count,
        forall|t: usize| s.pending@.contains(t) ==> !s.delivered@.contains(t),
{
    let d = s.delivered@;
    let p = s.pending@;
    let all = d + p;
    let n = s.worker_count as nat;
    assert(all == task_ids(n));
    assert(all.len() == n);
    assert forall|t: usize| p.contains(t) implies !d.contains(t) by {
        let j = choose|j: int| 0 <= j < p.len() && p[j] == t;
        assert(p[j] == all[d.len() + j]);
        assert(task_ids(n)[d.len() + j] == (d.len() + j) as usize);
        assert(d.len() + j < n);
        if d.contains(t) {
            let i = choose|i: int| 0 <= i < d.len() && d[i] == t;
            assert(d[i] == all[i]);
            assert(task_ids(n)[i] == i as usize);
            assert(i as usize == (d.len() + j) as usize);
            assert(false);
        }
    };
}

} // verus!
