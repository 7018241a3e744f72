use vstd::prelude::*;
use vstd::multiset::Multiset;

use crate::channel::ChannelState;
use crate::pool::PoolItem;
use crate::pool::ThreadPool;
use crate::priority::task_priority_of;
use crate::priority::task_priority_rank;
use crate::priority::Priority;
use crate::priority::TaskPriority;
use crate::priority_queue::PriorityQueue;
use crate::stream::stream_cancel;
use crate::stream::stream_insert;
use crate::stream::stream_insert_wakes;
use crate::stream::stream_poll_result;
use crate::stream::stream_poll_state;
use crate::stream::stream_register;
use crate::stream::AsyncStream;
use crate::stream::StreamPoll;
use crate::stream::StreamState;
use crate::task::initial_task;
use crate::task::Task;
use crate::task::TaskState;

verus! {

/// The mathematical state of the runtime engine: the control state of every
/// task ever written, the heap of in-flight entries (priority rank and task
/// id), the workers' inboxes carrying task ids, the round-robin cursor, and
/// the result stream.
pub struct EngineView<T> {
    pub tasks: Seq<TaskState>,
    pub in_flight: Multiset<(u64, usize)>,
    pub inboxes: Seq<ChannelState<PoolItem<usize>>>,
    pub next_worker: nat,
    pub stream: StreamState<T>,
}

/// Every worker inbox has room for one more entry; a machine limit, not a
/// rule of the construct.
pub open spec fn inboxes_within_capacity<T>(e: EngineView<T>) -> bool {
    forall|i: int|
        0 <= i < e.inboxes.len() ==> (#[trigger] e.inboxes[i]).items.len() < usize::MAX
}

/// Room for one more of everything the engine touches when it writes a task;
/// machine limits, not rules of the construct.
pub open spec fn engine_has_capacity<T>(e: EngineView<T>) -> bool {
    &&& e.tasks.len() < usize::MAX
    &&& e.in_flight.len() < usize::MAX
    &&& e.stream.outstanding < usize::MAX
    &&& inboxes_within_capacity(e)
}

/// Whether the heap holds an entry for task `id`.
pub open spec fn heap_has_id(m: Multiset<(u64, usize)>, id: int) -> bool {
    exists|e: (u64, usize)| m.contains(e) && e.1 == id
}

/// A fresh engine over `count` workers.
pub open spec fn engine_initial<T>(count: nat) -> EngineView<T> {
    EngineView {
        tasks: Seq::empty(),
        in_flight: Multiset::empty(),
        inboxes: Seq::new(
            count,
            |i: int| ChannelState { items: Multiset::empty(), closed: false },
        ),
        next_worker: 0,
        stream: crate::stream::initial_stream::<T>(),
    }
}

/// Writing one task of priority `p`: a fresh control block appears, the
/// stream owes one more result, the heap records the in-flight entry, and
/// the chosen worker's inbox receives the task id under its rank — unless
/// that inbox was closed, in which case the submission is dropped there.
pub open spec fn engine_spawn<T>(e: EngineView<T>, p: Priority) -> EngineView<T> {
    let rank = task_priority_rank(task_priority_of(p)) as u64;
    let id = e.tasks.len() as usize;
    let target = e.next_worker as int;
    EngineView {
        tasks: e.tasks.push(initial_task()),
        in_flight: e.in_flight.insert((rank, id)),
        inboxes: if e.inboxes[target].closed {
            e.inboxes
        } else {
            e.inboxes.update(
                target,
                ChannelState {
                    items: e.inboxes[target].items.insert((rank, PoolItem::Job(id))),
                    closed: e.inboxes[target].closed,
                },
            )
        },
        next_worker: if e.next_worker + 1 == e.inboxes.len() {
            0nat
        } else {
            e.next_worker + 1
        },
        stream: stream_register(e.stream),
    }
}

/// Collective cancellation: pending inbox work is discarded and the pool
/// quiesced, every task still in the heap gets its cancellation flag raised
/// and the heap is emptied, and the stream is cancelled — its buffered
/// results stay readable.
pub open spec fn engine_cancel<T>(e: EngineView<T>) -> EngineView<T> {
    EngineView {
        tasks: Seq::new(
            e.tasks.len(),
            |i: int| TaskState {
                cancelled: e.tasks[i].cancelled || heap_has_id(e.in_flight, i),
                ..e.tasks[i]
            },
        ),
        in_flight: Multiset::empty(),
        inboxes: Seq::new(
            e.inboxes.len(),
            |i: int| ChannelState { items: Multiset::empty(), closed: e.inboxes[i].closed },
        ),
        next_worker: e.next_worker,
        stream: stream_cancel(e.stream),
    }
}

/// Collective wait: the heap is drained in priority order and every task
/// still in it is driven to completion on the calling thread, the pool is
/// quiesced behind its barrier sentinels, and the outstanding count is
/// forcibly reset — settling also producers that died without delivering.
pub open spec fn engine_wait<T>(e: EngineView<T>) -> EngineView<T> {
    EngineView {
        tasks: Seq::new(
            e.tasks.len(),
            |i: int| TaskState {
                completed: e.tasks[i].completed || heap_has_id(e.in_flight, i),
                ..e.tasks[i]
            },
        ),
        in_flight: Multiset::empty(),
        inboxes: Seq::new(
            e.inboxes.len(),
            |i: int| ChannelState { items: Multiset::empty(), closed: e.inboxes[i].closed },
        ),
        next_worker: e.next_worker,
        stream: StreamState { outstanding: 0, ..e.stream },
    }
}

/// Shutdown: every inbox is closed and emptied so the workers leave their
/// loops, and the outstanding count is reset; the task table and the heap
/// are left as they were.
pub open spec fn engine_end<T>(e: EngineView<T>) -> EngineView<T> {
    EngineView {
        inboxes: Seq::new(
            e.inboxes.len(),
            |i: int| ChannelState { items: Multiset::empty(), closed: true },
        ),
        stream: StreamState { outstanding: 0, ..e.stream },
        ..e
    }
}

/// The engine: the pool, the control blocks of all tasks written so far
/// (indexed by task id), the priority heap of in-flight entries that
/// cancellation and the collective wait walk, and the result stream.
pub struct RuntimeEngine<T> {
    pool: ThreadPool<usize>,
    tasks: Vec<Task>,
    in_flight: PriorityQueue<usize>,
    stream: AsyncStream<T>,
}

impl<T> View for RuntimeEngine<T> {
    type V = EngineView<T>;

    closed spec fn view(&self) -> EngineView<T> {
        EngineView {
            tasks: self.tasks@.map_values(|t: Task| t@),
            in_flight: self.in_flight.contents(),
            inboxes: self.pool.inboxes_view(),
            next_worker: self.pool.next_index(),
            stream: self.stream@,
        }
    }
}

impl<T> RuntimeEngine<T> {
    /// The engine invariant: the pool and the heap keep their shapes, every
    /// heap entry names a task the engine owns, and between engine
    /// operations no poll is in progress on any task the engine drives.
    pub closed spec fn well_formed(&self) -> bool {
        &&& self.pool.well_formed()
        &&& self.pool.worker_count() == self@.inboxes.len()
        &&& self.in_flight.well_formed()
        &&& forall|e: (u64, usize)|
            #[trigger] self@.in_flight.contains(e) ==> e.1 < self@.tasks.len()
        &&& forall|i: int| 0 <= i < self@.tasks.len() ==> (#[trigger] self@.tasks[i]).pollers == 0
    }

    /// A fresh engine over `count` workers; a pool needs at least one.
    pub fn new(count: usize) -> (e: Self)
        requires
            count > 0,
        ensures
            e@ == engine_initial::<T>(count as nat),
            e.well_formed(),
    {
        let e = RuntimeEngine {
            pool: ThreadPool::new(count),
            tasks: Vec::new(),
            in_flight: PriorityQueue::new(),
            stream: AsyncStream::new(),
        };
        proof {
            e.in_flight@.to_multiset_ensures();
            assert(e@.tasks =~= engine_initial::<T>(count as nat).tasks);
            assert(e@.inboxes =~= engine_initial::<T>(count as nat).inboxes);
            assert(e@.in_flight =~= engine_initial::<T>(count as nat).in_flight);
        }
        e
    }

    /// Writes one task: registers it with the stream, records it in the
    /// heap, and places it on the worker the round-robin cursor picks.
    /// Returns the new task's id.
    pub fn write_task(&mut self, priority: Priority) -> (id: usize)
        requires
            old(self).well_formed(),
            engine_has_capacity(old(self)@),
        ensures
            final(self).well_formed(),
            id == old(self)@.tasks.len(),
            final(self)@ == engine_spawn(old(self)@, priority),
    {
        let ghost pre = self@;
        let id = self.tasks.len();
        self.tasks.push(Task::new());
        self.stream.increment();
        let tp = TaskPriority::from(priority);
        let rank = tp.rank();
        proof {
            self.in_flight@.to_multiset_ensures();
        }
        self.in_flight.push(rank as u64, id);
        self.pool.submit(tp, id);
        proof {
            assert(self@.tasks =~= engine_spawn(pre, priority).tasks);
            assert(self@.inboxes =~= engine_spawn(pre, priority).inboxes);
            assert(self@ == engine_spawn(pre, priority));
            assert forall|e: (u64, usize)| #[trigger] self@.in_flight.contains(e) implies e.1
                < self@.tasks.len() by {
                if e != ((task_priority_rank(task_priority_of(priority)) as u64, id)) {
                    assert(pre.in_flight.contains(e));
                }
            }
        }
        id
    }

    /// A producer's result lands in the stream; returns whether the caller
    /// must invoke the consumer's waker it was handed.
    pub fn deliver(&mut self, value: T) -> (woke: bool)
        requires
            old(self).well_formed(),
            old(self)@.stream.buffer.len() < usize::MAX,
        ensures
            final(self).well_formed(),
            final(self)@ == (EngineView { stream: stream_insert(old(self)@.stream, value), ..old(
                self,
            )@ }),
            woke == stream_insert_wakes(old(self)@.stream),
    {
        self.stream.insert_item(value)
    }

    /// One poll of the result stream by the consumer.
    pub fn poll_stream(&mut self) -> (r: StreamPoll<T>)
        requires
            old(self).well_formed(),
        ensures
            final(self).well_formed(),
            final(self)@ == (EngineView { stream: stream_poll_state(old(self)@.stream), ..old(
                self,
            )@ }),
            r == stream_poll_result(old(self)@.stream),
    {
        self.stream.poll_next()
    }

    /// The oldest buffered result, consumed, or `None` when nothing is
    /// buffered; never suspends.
    pub fn first(&mut self) -> (r: Option<T>)
        requires
            old(self).well_formed(),
        ensures
            final(self).well_formed(),
            old(self)@.stream.buffer.len() == 0 ==> r is None && final(self)@ == old(self)@,
            old(self)@.stream.buffer.len() > 0 ==> r == Some(old(self)@.stream.buffer[0])
                && final(self)@ == (EngineView {
                stream: stream_poll_state(old(self)@.stream),
                ..old(self)@
            }),
    {
        self.stream.first()
    }

    /// How many results the stream still owes its consumer.
    pub fn task_count(&self) -> (n: usize)
        ensures
            n == self@.stream.outstanding,
    {
        self.stream.item_count()
    }

    /// Raises the cancellation flag of every task the heap still holds and
    /// empties the heap; the caller has already discarded pending work.
    fn cancel_in_flight(&mut self)
        requires
            old(self).well_formed(),
        ensures
            final(self).well_formed(),
            final(self)@.in_flight =~= Multiset::<(u64, usize)>::empty(),
            final(self)@.tasks =~= Seq::new(
                old(self)@.tasks.len(),
                |i: int| TaskState {
                    cancelled: old(self)@.tasks[i].cancelled || heap_has_id(
                        old(self)@.in_flight,
                        i,
                    ),
                    ..old(self)@.tasks[i]
                },
            ),
            final(self)@.inboxes == old(self)@.inboxes,
            final(self)@.next_worker == old(self)@.next_worker,
            final(self)@.stream == old(self)@.stream,
    {
        broadcast use vstd::multiset::group_multiset_axioms;

        let ghost orig = self@.in_flight;
        let ghost tasks0 = self@.tasks;
        proof {
            self.in_flight@.to_multiset_ensures();
        }
        while self.in_flight.len() > 0
            invariant
                self.in_flight.well_formed(),
                self.tasks@.len() == tasks0.len(),
                forall|e: (u64, usize)|
                    #[trigger] self.in_flight.contents().count(e) <= orig.count(e),
                forall|e: (u64, usize)|
                    #[trigger] self.in_flight.contents().contains(e) ==> e.1 < self.tasks@.len(),
                forall|i: int|
                    0 <= i < tasks0.len() ==> ((#[trigger] self.tasks@[i])@.completed == tasks0[i].completed
                        && self.tasks@[i]@.pollers == tasks0[i].pollers),
                forall|i: int|
                    0 <= i < tasks0.len() && tasks0[i].cancelled ==> (#[trigger] self.tasks@[i])@.cancelled,
                forall|i: int|
                    0 <= i < tasks0.len() && (#[trigger] self.tasks@[i])@.cancelled ==> tasks0[i].cancelled
                        || heap_has_id(orig, i),
                forall|i: int|
                    0 <= i < tasks0.len() && heap_has_id(orig, i) && !heap_has_id(
                        self.in_flight.contents(),
                        i,
                    ) ==> (#[trigger] self.tasks@[i])@.cancelled,
                self.pool == old(self).pool,
                self.stream == old(self).stream,
            decreases self.in_flight@.len(),
        {
            proof {
                broadcast use vstd::multiset::group_multiset_axioms;

                self.in_flight@.to_multiset_ensures();
            }
            let ghost before = self.in_flight.contents();
            let popped = self.in_flight.pop();
            match popped {
                Some(entry) => {
                    let id = entry.1;
                    proof {
                        broadcast use vstd::multiset::group_multiset_axioms;

                        assert(before.contains(entry));
                        assert(orig.count(entry) >= before.count(entry));
                        assert(orig.contains(entry));
                        assert(heap_has_id(orig, id as int));
                    }
                    let ghost tbefore = self.tasks@.map_values(|t: Task| t@);
                    let slot = &mut self.tasks[id];
                    slot.cancel();
                    proof {
                        broadcast use vstd::multiset::group_multiset_axioms;

                        let after = self.in_flight.contents();
                        assert forall|e: (u64, usize)| #[trigger] after.count(e) <= orig.count(
                            e,
                        ) by {
                            assert(before.count(e) <= orig.count(e));
                        }
                        assert forall|e: (u64, usize)| #[trigger] after.contains(e) implies e.1
                            < self.tasks@.len() by {
                            assert(before.count(e) <= orig.count(e));
                            assert(before.contains(e));
                        }
                        assert forall|i: int|
                            0 <= i < tasks0.len() && i != id as int implies (
                        #[trigger] self.tasks@[i])@ == tbefore[i] by {}
                        assert(self.tasks@[id as int]@ == (TaskState {
                            cancelled: true,
                            ..tbefore[id as int]
                        }));
                        assert forall|i: int|
                            0 <= i < tasks0.len() && heap_has_id(orig, i) && !heap_has_id(
                                after,
                                i,
                            ) implies (#[trigger] self.tasks@[i])@.cancelled by {
                            if i != id as int {
                                assert(self.tasks@[i]@ == tbefore[i]);
                                if heap_has_id(before, i) {
                                    let w = choose|w: (u64, usize)|
                                        before.contains(w) && w.1 == i;
                                    assert(w != entry);
                                    assert(after.count(w) == before.count(w));
                                    assert(after.contains(w));
                                    assert(heap_has_id(after, i));
                                }
                            }
                        }
                    }
                },
                None => {},
            }
        }
        proof {
            broadcast use vstd::multiset::group_multiset_axioms;

            self.in_flight@.to_multiset_ensures();
            assert forall|e: (u64, usize)| !(#[trigger] self.in_flight.contents().contains(
                e,
            )) by {
                assert(self.in_flight@.len() == 0);
            }
            assert(self@.in_flight =~= Multiset::<(u64, usize)>::empty());
            assert forall|i: int| 0 <= i < tasks0.len() implies #[trigger] self@.tasks[i]
                == (TaskState { cancelled: tasks0[i].cancelled || heap_has_id(orig, i), ..tasks0[i] }) by {
                assert(self@.tasks[i] == self.tasks@[i]@);
                if tasks0[i].cancelled || heap_has_id(orig, i) {
                    assert(self.tasks@[i]@.cancelled);
                } else {
                    assert(!self.tasks@[i]@.cancelled);
                }
            }
            assert(self@.tasks =~= Seq::new(
                tasks0.len(),
                |i: int| TaskState { cancelled: tasks0[i].cancelled || heap_has_id(orig, i), ..tasks0[i] },
            ));
        }
    }

    /// Collective cancellation: discards every inbox's pending work, raises
    /// the cancellation flag on every in-flight task and empties the heap,
    /// quiesces the pool behind its barrier, and cancels the stream; what
    /// the stream already buffered stays readable.
    pub fn cancel(&mut self)
        requires
            old(self).well_formed(),
        ensures
            final(self).well_formed(),
            final(self)@ == engine_cancel(old(self)@),
    {
        let ghost pre = self@;
        self.pool.clear();
        proof {
            broadcast use vstd::multiset::group_multiset_axioms;

            assert forall|i: int|
                0 <= i < self@.inboxes.len() implies (#[trigger] self@.inboxes[i]).items.len()
                    < usize::MAX by {
                assert(self@.inboxes[i].items =~= Multiset::<(u64, PoolItem<usize>)>::empty());
            }
        }
        self.pool.wait_for_all();
        proof {
            assert(self@.in_flight == pre.in_flight);
            assert(self@.tasks == pre.tasks);
            assert forall|e: (u64, usize)| #[trigger] self@.in_flight.contains(e) implies e.1
                < self@.tasks.len() by {
                assert(pre.in_flight.contains(e));
            }
            assert forall|i: int|
                0 <= i < self@.tasks.len() implies (#[trigger] self@.tasks[i]).pollers == 0 by {
                assert(pre.tasks[i].pollers == 0);
            }
        }
        self.cancel_in_flight();
        self.stream.cancel_tasks();
        proof {
            assert(self@.inboxes =~= engine_cancel(pre).inboxes);
            assert(self@.tasks =~= engine_cancel(pre).tasks);
        }
    }

    /// Drives every task the heap still holds to completion, in priority
    /// order, on the calling thread, and empties the heap.
    fn drive_in_flight(&mut self)
        requires
            old(self).well_formed(),
        ensures
            final(self).well_formed(),
            final(self)@.in_flight =~= Multiset::<(u64, usize)>::empty(),
            final(self)@.tasks =~= Seq::new(
                old(self)@.tasks.len(),
                |i: int| TaskState {
                    completed: old(self)@.tasks[i].completed || heap_has_id(
                        old(self)@.in_flight,
                        i,
                    ),
                    ..old(self)@.tasks[i]
                },
            ),
            final(self)@.inboxes == old(self)@.inboxes,
            final(self)@.next_worker == old(self)@.next_worker,
            final(self)@.stream == old(self)@.stream,
    {
        broadcast use vstd::multiset::group_multiset_axioms;

        let ghost orig = self@.in_flight;
        let ghost tasks0 = self@.tasks;
        proof {
            self.in_flight@.to_multiset_ensures();
        }
        while self.in_flight.len() > 0
            invariant
                self.in_flight.well_formed(),
                self.tasks@.len() == tasks0.len(),
                forall|e: (u64, usize)|
                    #[trigger] self.in_flight.contents().count(e) <= orig.count(e),
                forall|e: (u64, usize)|
                    #[trigger] self.in_flight.contents().contains(e) ==> e.1 < self.tasks@.len(),
                forall|i: int|
                    0 <= i < tasks0.len() ==> ((#[trigger] self.tasks@[i])@.cancelled == tasks0[i].cancelled
                        && self.tasks@[i]@.pollers == 0 && tasks0[i].pollers == 0),
                forall|i: int|
                    0 <= i < tasks0.len() && tasks0[i].completed ==> (#[trigger] self.tasks@[i])@.completed,
                forall|i: int|
                    0 <= i < tasks0.len() && (#[trigger] self.tasks@[i])@.completed ==> tasks0[i].completed
                        || heap_has_id(orig, i),
                forall|i: int|
                    0 <= i < tasks0.len() && heap_has_id(orig, i) && !heap_has_id(
                        self.in_flight.contents(),
                        i,
                    ) ==> (#[trigger] self.tasks@[i])@.completed,
                self.pool == old(self).pool,
                self.stream == old(self).stream,
            decreases self.in_flight@.len(),
        {
            proof {
                broadcast use vstd::multiset::group_multiset_axioms;

                self.in_flight@.to_multiset_ensures();
            }
            let ghost before = self.in_flight.contents();
            let popped = self.in_flight.pop();
            match popped {
                Some(entry) => {
                    let id = entry.1;
                    proof {
                        broadcast use vstd::multiset::group_multiset_axioms;

                        assert(before.contains(entry));
                        assert(orig.count(entry) >= before.count(entry));
                        assert(orig.contains(entry));
                        assert(heap_has_id(orig, id as int));
                        assert(self.tasks@[id as int]@.pollers == 0);
                    }
                    let ghost tbefore = self.tasks@.map_values(|t: Task| t@);
                    let slot = &mut self.tasks[id];
                    // drive the residual to completion, as the blocking
                    // driver does between pending polls
                    if !slot.is_completed() {
                        slot.try_acquire_poll();
                        slot.finish_poll(true);
                    }
                    proof {
                        broadcast use vstd::multiset::group_multiset_axioms;

                        let after = self.in_flight.contents();
                        assert forall|e: (u64, usize)| #[trigger] after.count(e) <= orig.count(
                            e,
                        ) by {
                            assert(before.count(e) <= orig.count(e));
                        }
                        assert forall|e: (u64, usize)| #[trigger] after.contains(e) implies e.1
                            < self.tasks@.len() by {
                            assert(before.count(e) <= orig.count(e));
                            assert(before.contains(e));
                        }
                        assert forall|i: int|
                            0 <= i < tasks0.len() && i != id as int implies (
                        #[trigger] self.tasks@[i])@ == tbefore[i] by {}
                        assert(self.tasks@[id as int]@ == (TaskState {
                            completed: true,
                            ..tbefore[id as int]
                        }));
                        assert forall|i: int|
                            0 <= i < tasks0.len() && heap_has_id(orig, i) && !heap_has_id(
                                after,
                                i,
                            ) implies (#[trigger] self.tasks@[i])@.completed by {
                            if i != id as int {
                                assert(self.tasks@[i]@ == tbefore[i]);
                                if heap_has_id(before, i) {
                                    let w = choose|w: (u64, usize)|
                                        before.contains(w) && w.1 == i;
                                    assert(w != entry);
                                    assert(after.count(w) == before.count(w));
                                    assert(after.contains(w));
                                    assert(heap_has_id(after, i));
                                }
                            }
                        }
                    }
                },
                None => {},
            }
        }
        proof {
            broadcast use vstd::multiset::group_multiset_axioms;

            self.in_flight@.to_multiset_ensures();
            assert forall|e: (u64, usize)| !(#[trigger] self.in_flight.contents().contains(
                e,
            )) by {
                assert(self.in_flight@.len() == 0);
            }
            assert(self@.in_flight =~= Multiset::<(u64, usize)>::empty());
            assert forall|i: int| 0 <= i < tasks0.len() implies #[trigger] self@.tasks[i]
                == (TaskState { completed: tasks0[i].completed || heap_has_id(orig, i), ..tasks0[i] }) by {
                assert(self@.tasks[i] == self.tasks@[i]@);
                if tasks0[i].completed || heap_has_id(orig, i) {
                    assert(self.tasks@[i]@.completed);
                } else {
                    assert(!self.tasks@[i]@.completed);
                }
            }
            assert(self@.tasks =~= Seq::new(
                tasks0.len(),
                |i: int| TaskState { completed: tasks0[i].completed || heap_has_id(orig, i), ..tasks0[i] },
            ));
        }
    }

    /// Collective wait: drives every in-flight residual to completion in
    /// priority order, quiesces the pool behind its barrier sentinels, and
    /// forcibly resets the outstanding count — settling also producers that
    /// died without delivering.
    pub fn wait_for_all_tasks(&mut self)
        requires
            old(self).well_formed(),
            inboxes_within_capacity(old(self)@),
        ensures
            final(self).well_formed(),
            final(self)@ == engine_wait(old(self)@),
    {
        let ghost pre = self@;
        self.drive_in_flight();
        proof {
            assert(self@.inboxes == pre.inboxes);
            assert forall|i: int|
                0 <= i < self@.inboxes.len() implies (#[trigger] self@.inboxes[i]).items.len()
                    < usize::MAX by {
                assert(pre.inboxes[i].items.len() < usize::MAX);
            }
        }
        let ghost mid = self@;
        self.pool.wait_for_all();
        proof {
            assert(self@.in_flight == mid.in_flight);
            assert(self@.tasks == mid.tasks);
            assert forall|e: (u64, usize)| #[trigger] self@.in_flight.contains(e) implies e.1
                < self@.tasks.len() by {
                assert(mid.in_flight.contains(e));
            }
            assert forall|i: int|
                0 <= i < self@.tasks.len() implies (#[trigger] self@.tasks[i]).pollers == 0 by {
                assert(mid.tasks[i].pollers == 0);
            }
        }
        self.stream.reset_outstanding();
        proof {
            assert(self@.inboxes =~= engine_wait(pre).inboxes);
            assert(self@.tasks =~= engine_wait(pre).tasks);
        }
    }

    /// Shuts the pool down: every inbox is closed and emptied, so every
    /// worker leaves its loop, and the outstanding count is reset.
    pub fn end(&mut self)
        requires
            old(self).well_formed(),
        ensures
            final(self).well_formed(),
            final(self)@ == engine_end(old(self)@),
    {
        let ghost pre = self@;
        self.pool.end();
        self.stream.reset_outstanding();
        proof {
            assert(self@.inboxes =~= engine_end(pre).inboxes);
            assert(self@.in_flight == pre.in_flight);
            assert(self@.tasks == pre.tasks);
            assert forall|e: (u64, usize)| #[trigger] self@.in_flight.contains(e) implies e.1
                < self@.tasks.len() by {
                assert(pre.in_flight.contains(e));
            }
            assert forall|i: int|
                0 <= i < self@.tasks.len() implies (#[trigger] self@.tasks[i]).pollers == 0 by {
                assert(pre.tasks[i].pollers == 0);
            }
        }
    }
}

} // verus!
