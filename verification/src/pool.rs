use vstd::prelude::*;
use vstd::multiset::Multiset;

use crate::channel::Channel;
use crate::channel::ChannelState;
use crate::channel::DequeueOutcome;
use crate::priority::task_priority_rank;
use crate::priority::TaskPriority;

verus! {

/// The round-robin placement cursor: hands out worker indices in turn,
/// wrapping at the worker count.
pub struct Indexer {
    index: usize,
    count: usize,
}

impl Indexer {
    /// The index the next placement uses.
    pub closed spec fn current(&self) -> nat {
        self.index as nat
    }

    /// The number of workers placed across.
    pub closed spec fn limit(&self) -> nat {
        self.count as nat
    }

    /// The cursor invariant: it stays below the worker count.
    pub open spec fn well_formed(&self) -> bool {
        self.current() < self.limit()
    }

    /// A cursor over `count` workers, starting at the first.
    pub fn new(count: usize) -> (ix: Self)
        requires
            count > 0,
        ensures
            ix.current() == 0,
            ix.limit() == count,
            ix.well_formed(),
    {
        Indexer { index: 0, count }
    }

    /// Hands out the current index and advances, wrapping at the limit.
    pub fn next(&mut self) -> (i: usize)
        requires
            old(self).well_formed(),
        ensures
            i == old(self).current(),
            final(self).current() == if old(self).current() + 1 == old(self).limit() {
                0nat
            } else {
                old(self).current() + 1
            },
            final(self).limit() == old(self).limit(),
            final(self).well_formed(),
    {
        let i = self.index;
        if self.index + 1 == self.count {
            self.index = 0;
        } else {
            self.index = self.index + 1;
        }
        i
    }
}

/// What a worker's inbox carries: a unit of work, or the barrier sentinel a
/// collective wait posts behind all pending work.
pub enum PoolItem<T> {
    Job(T),
    Sentinel,
}

/// What the worker loop does with one dequeue outcome.
pub enum WorkerAction<T> {
    /// Poll this job to completion, suspending between pending polls.
    Drive(T),
    /// Arrive at the shared barrier: everything dispatched to this worker
    /// before the collective wait has been served.
    AwaitBarrier,
    /// Park on the inbox's condition variable until signalled.
    Sleep,
    /// The inbox was closed: leave the loop.
    Exit,
}

/// The dispatch decision of the worker loop, given what the inbox handed it.
pub fn worker_step<T>(outcome: DequeueOutcome<PoolItem<T>>) -> (a: WorkerAction<T>)
    ensures
        outcome matches DequeueOutcome::Item(k, PoolItem::Job(j)) ==> a == WorkerAction::Drive(j),
        outcome matches DequeueOutcome::Item(k, PoolItem::Sentinel) ==> a
            == WorkerAction::<T>::AwaitBarrier,
        outcome is Closed ==> a is Exit,
        outcome is Block ==> a is Sleep,
{
    match outcome {
        DequeueOutcome::Item(_, PoolItem::Job(job)) => WorkerAction::Drive(job),
        DequeueOutcome::Item(_, PoolItem::Sentinel) => WorkerAction::AwaitBarrier,
        DequeueOutcome::Closed => WorkerAction::Exit,
        DequeueOutcome::Block => WorkerAction::Sleep,
    }
}

/// The fixed set of workers: one priority inbox per worker and the
/// round-robin cursor that places submissions. The threads themselves and
/// the shared barrier live in the blocking shell; the placement, the inbox
/// bookkeeping and the quiesce semantics are here.
pub struct ThreadPool<T> {
    inboxes: Vec<Channel<PoolItem<T>>>,
    indexer: Indexer,
}

impl<T> ThreadPool<T> {
    /// The state of every worker's inbox, in worker order.
    pub closed spec fn inboxes_view(&self) -> Seq<ChannelState<PoolItem<T>>> {
        self.inboxes@.map_values(|c: Channel<PoolItem<T>>| c@)
    }

    /// How many workers the pool owns.
    pub closed spec fn worker_count(&self) -> nat {
        self.inboxes@.len()
    }

    /// The worker index the next submission is placed on.
    pub closed spec fn next_index(&self) -> nat {
        self.indexer.current()
    }

    /// The pool invariant: at least one worker, a placement cursor within
    /// bounds, and every inbox well formed and within capacity.
    pub closed spec fn well_formed(&self) -> bool {
        &&& self.inboxes@.len() > 0
        &&& self.indexer.well_formed()
        &&& self.indexer.limit() == self.inboxes@.len()
        &&& forall|i: int|
            0 <= i < self.inboxes@.len() ==> (#[trigger] self.inboxes@[i]).well_formed()
    }

    /// A pool of `count` workers with open, empty inboxes, placing the first
    /// submission on the first worker. A pool needs at least one worker.
    pub fn new(count: usize) -> (p: Self)
        requires
            count > 0,
        ensures
            p.well_formed(),
            p.worker_count() == count,
            p.inboxes_view().len() == count,
            p.next_index() == 0,
            forall|i: int|
                0 <= i < count ==> (#[trigger] p.inboxes_view()[i]).items == Multiset::<
                    (u64, PoolItem<T>),
                >::empty() && !p.inboxes_view()[i].closed,
    {
        let mut inboxes: Vec<Channel<PoolItem<T>>> = Vec::new();
        let mut built: usize = 0;
        while built < count
            invariant
                built == inboxes@.len(),
                built <= count,
                forall|i: int|
                    0 <= i < built ==> (#[trigger] inboxes@[i]).well_formed() && inboxes@[i].size()
                        == 0 && inboxes@[i]@.items == Multiset::<(u64, PoolItem<T>)>::empty()
                        && !inboxes@[i]@.closed,
            decreases count - built,
        {
            inboxes.push(Channel::new());
            built = built + 1;
        }
        ThreadPool { inboxes, indexer: Indexer::new(count) }
    }

    /// How many workers the pool owns.
    pub fn workers(&self) -> (n: usize)
        ensures
            n == self.worker_count(),
    {
        self.inboxes.len()
    }

    /// Places a unit of work: the round-robin cursor picks the worker, and
    /// the work is filed in that worker's inbox under its priority rank.
    /// Only user work is submitted, never the wait sentinel. Returns the
    /// chosen worker's index.
    pub fn submit(&mut self, priority: TaskPriority, job: T) -> (idx: usize)
        requires
            old(self).well_formed(),
            priority != TaskPriority::Wait,
            forall|i: int|
                0 <= i < old(self).worker_count() ==> (#[trigger] old(self).inboxes_view()[i]).items.len()
                    < usize::MAX,
        ensures
            final(self).well_formed(),
            idx == old(self).next_index(),
            idx < old(self).worker_count(),
            final(self).worker_count() == old(self).worker_count(),
            final(self).inboxes_view().len() == old(self).inboxes_view().len(),
            final(self).next_index() == if old(self).next_index() + 1 == old(self).worker_count() {
                0nat
            } else {
                old(self).next_index() + 1
            },
            old(self).inboxes_view()[idx as int].closed ==> final(self).inboxes_view()
                == old(self).inboxes_view(),
            !old(self).inboxes_view()[idx as int].closed ==> final(self).inboxes_view()
                == old(self).inboxes_view().update(
                idx as int,
                (ChannelState {
                    items: old(self).inboxes_view()[idx as int].items.insert(
                        (task_priority_rank(priority) as u64, PoolItem::Job(job)),
                    ),
                    closed: old(self).inboxes_view()[idx as int].closed,
                }),
            ),
    {
        let idx = self.indexer.next();
        let rank = priority.rank();
        let inbox = &mut self.inboxes[idx];
        proof {
            inbox.lemma_size_is_item_count();
            assert(inbox@ == old(self).inboxes_view()[idx as int]);
        }
        inbox.enqueue(rank as u64, PoolItem::Job(job));
        proof {
            if old(self).inboxes_view()[idx as int].closed {
                assert(self.inboxes_view() =~= old(self).inboxes_view());
            } else {
                assert(self.inboxes_view() =~= old(self).inboxes_view().update(
                    idx as int,
                    (ChannelState {
                        items: old(self).inboxes_view()[idx as int].items.insert(
                            (task_priority_rank(priority) as u64, PoolItem::Job(job)),
                        ),
                        closed: old(self).inboxes_view()[idx as int].closed,
                    }),
                ));
            }
        }
        idx
    }

    /// Discards everything still pending in every inbox without closing any:
    /// work not yet started is dropped, parked workers stay parked.
    pub fn clear(&mut self)
        requires
            old(self).well_formed(),
        ensures
            final(self).well_formed(),
            final(self).worker_count() == old(self).worker_count(),
            final(self).inboxes_view().len() == old(self).inboxes_view().len(),
            final(self).next_index() == old(self).next_index(),
            forall|i: int|
                0 <= i < old(self).worker_count() ==> (#[trigger] final(self).inboxes_view()[i]).items
                    == Multiset::<(u64, PoolItem<T>)>::empty() && final(self).inboxes_view()[i].closed
                    == old(self).inboxes_view()[i].closed,
    {
        let mut i: usize = 0;
        let n = self.inboxes.len();
        while i < n
            invariant
                n == self.inboxes@.len(),
                self.inboxes@.len() == old(self).inboxes_view().len(),
                i <= n,
                self.indexer == old(self).indexer,
                forall|k: int|
                    0 <= k < i ==> (#[trigger] self.inboxes@[k]).well_formed()
                        && self.inboxes@[k]@.items == Multiset::<(u64, PoolItem<T>)>::empty()
                        && self.inboxes@[k]@.closed == old(self).inboxes_view()[k].closed
                        && self.inboxes@[k].size() == 0,
                forall|k: int|
                    i <= k < n ==> (#[trigger] self.inboxes@[k]).well_formed() && self.inboxes@[k]@
                        == old(self).inboxes_view()[k],
            decreases n - i,
        {
            let inbox = &mut self.inboxes[i];
            inbox.clear();
            i = i + 1;
        }
    }

    /// A collective quiesce: one barrier sentinel is posted at the `Wait`
    /// rank behind every worker's pending work, and the caller blocks on the
    /// shared barrier; the barrier falls once every worker has drained its
    /// inbox up to its sentinel. The state the caller sees afterwards is a
    /// pool of empty inboxes — every unit dispatched before the wait was
    /// served.
    pub fn wait_for_all(&mut self)
        requires
            old(self).well_formed(),
            forall|i: int|
                0 <= i < old(self).worker_count() ==> (#[trigger] old(self).inboxes_view()[i]).items.len()
                    < usize::MAX,
        ensures
            final(self).well_formed(),
            final(self).worker_count() == old(self).worker_count(),
            final(self).inboxes_view().len() == old(self).inboxes_view().len(),
            final(self).next_index() == old(self).next_index(),
            forall|i: int|
                0 <= i < old(self).worker_count() ==> (#[trigger] final(self).inboxes_view()[i]).items
                    == Multiset::<(u64, PoolItem<T>)>::empty() && final(self).inboxes_view()[i].closed
                    == old(self).inboxes_view()[i].closed,
    {
        let mut i: usize = 0;
        let n = self.inboxes.len();
        while i < n
            invariant
                n == self.inboxes@.len(),
                self.inboxes@.len() == old(self).inboxes_view().len(),
                i <= n,
                self.indexer == old(self).indexer,
                forall|k: int|
                    0 <= k < i ==> (#[trigger] self.inboxes@[k]).well_formed()
                        && self.inboxes@[k]@.items == Multiset::<(u64, PoolItem<T>)>::empty()
                        && self.inboxes@[k]@.closed == old(self).inboxes_view()[k].closed
                        && self.inboxes@[k].size() == 0,
                forall|k: int|
                    i <= k < n ==> (#[trigger] self.inboxes@[k]).well_formed() && self.inboxes@[k]@
                        == old(self).inboxes_view()[k],
                forall|k: int|
                    0 <= k < old(self).inboxes_view().len() ==> (#[trigger] old(
                        self,
                    ).inboxes_view()[k]).items.len() < usize::MAX,
            decreases n - i,
        {
            let inbox = &mut self.inboxes[i];
            proof {
                inbox.lemma_size_is_item_count();
                assert(old(self).inboxes_view().len() == old(self).worker_count());
                assert(inbox@ == old(self).inboxes_view()[i as int]);
                assert(old(self).inboxes_view()[i as int].items.len() < usize::MAX);
                assert(inbox.size() < usize::MAX);
            }
            // the sentinel goes in at the Wait rank; the barrier holds the
            // caller until the worker has served everything up to it
            inbox.enqueue(0, PoolItem::Sentinel);
            inbox.clear();
            i = i + 1;
        }
    }

    /// Closes every inbox: pending work is discarded, all parked workers are
    /// signalled, observe the closure, and leave their loops.
    pub fn end(&mut self)
        requires
            old(self).well_formed(),
        ensures
            final(self).well_formed(),
            final(self).worker_count() == old(self).worker_count(),
            final(self).inboxes_view().len() == old(self).inboxes_view().len(),
            final(self).next_index() == old(self).next_index(),
            forall|i: int|
                0 <= i < old(self).worker_count() ==> (#[trigger] final(self).inboxes_view()[i]).items
                    == Multiset::<(u64, PoolItem<T>)>::empty() && final(self).inboxes_view()[i].closed,
    {
        let mut i: usize = 0;
        let n = self.inboxes.len();
        while i < n
            invariant
                n == self.inboxes@.len(),
                self.inboxes@.len() == old(self).inboxes_view().len(),
                i <= n,
                self.indexer == old(self).indexer,
                forall|k: int|
                    0 <= k < i ==> (#[trigger] self.inboxes@[k]).well_formed()
                        && self.inboxes@[k]@.items == Multiset::<(u64, PoolItem<T>)>::empty()
                        && self.inboxes@[k]@.closed && self.inboxes@[k].size() == 0,
                forall|k: int|
                    i <= k < n ==> (#[trigger] self.inboxes@[k]).well_formed() && self.inboxes@[k]@
                        == old(self).inboxes_view()[k],
            decreases n - i,
        {
            let inbox = &mut self.inboxes[i];
            inbox.close();
            i = i + 1;
        }
    }
}

} // verus!
