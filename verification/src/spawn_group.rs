use vstd::prelude::*;

use crate::engine::engine_cancel;
use crate::engine::engine_end;
use crate::engine::engine_has_capacity;
use crate::engine::engine_initial;
use crate::engine::engine_spawn;
use crate::engine::engine_wait;
use crate::engine::inboxes_within_capacity;
use crate::engine::EngineView;
use crate::engine::RuntimeEngine;
use crate::priority::Priority;
use crate::stream::stream_insert;
use crate::stream::stream_insert_wakes;
use crate::stream::stream_poll_result;
use crate::stream::stream_poll_state;
use crate::stream::StreamPoll;

verus! {

/// The mathematical state of a scoped group: its two flags, its own count of
/// tasks spawned since the last collective wait or cancellation, and its
/// engine.
pub struct GroupView<T> {
    pub is_cancelled: bool,
    pub wait_at_drop: bool,
    pub count: nat,
    pub engine: EngineView<T>,
}

/// A fresh group over `workers` workers: not cancelled, waiting on drop.
pub open spec fn group_initial<T>(workers: nat) -> GroupView<T> {
    GroupView {
        is_cancelled: false,
        wait_at_drop: true,
        count: 0,
        engine: engine_initial(workers),
    }
}

/// Spawning one child of priority `p`.
pub open spec fn group_spawn<T>(g: GroupView<T>, p: Priority) -> GroupView<T> {
    GroupView { count: g.count + 1, engine: engine_spawn(g.engine, p), ..g }
}

/// Collective cancellation: the group is marked cancelled, its count reverts
/// to zero, and the engine cancels everything in flight.
pub open spec fn group_cancel<T>(g: GroupView<T>) -> GroupView<T> {
    GroupView { is_cancelled: true, count: 0, engine: engine_cancel(g.engine), ..g }
}

/// Collective wait: the engine drives and quiesces everything, and the count
/// reverts to zero.
pub open spec fn group_wait<T>(g: GroupView<T>) -> GroupView<T> {
    GroupView { count: 0, engine: engine_wait(g.engine), ..g }
}

/// Cancellation is idempotent: cancelling a group twice leaves exactly the
/// state one cancellation leaves; either way the group is marked cancelled
/// and holds no remaining child tasks.
pub proof fn lemma_cancel_all_idempotent<T>(g: GroupView<T>)
    ensures
        group_cancel(group_cancel(g)) == group_cancel(g),
        group_cancel(g).is_cancelled,
        group_cancel(g).count == 0,
{
    broadcast use vstd::multiset::group_multiset_axioms;

    let once = group_cancel(g);
    let twice = group_cancel(once);
    assert forall|i: int| 0 <= i < once.engine.tasks.len() implies #[trigger] twice.engine.tasks[i]
        == once.engine.tasks[i] by {
        assert(!crate::engine::heap_has_id(once.engine.in_flight, i));
    }
    assert(twice.engine.tasks =~= once.engine.tasks);
    assert(twice.engine.inboxes =~= once.engine.inboxes);
    assert(twice.engine == once.engine);
}

/// The collective wait leaves no child behind: after it, every child that
/// was still in flight is completed, nothing is owed to the stream any more,
/// and nothing is left pending in any inbox. This is the state a waiting
/// drop leaves the group in before releasing the engine.
pub proof fn lemma_wait_leaves_no_child_behind<T>(g: GroupView<T>)
    ensures
        forall|i: int|
            0 <= i < g.engine.tasks.len() && crate::engine::heap_has_id(g.engine.in_flight, i)
                ==> (#[trigger] group_wait(g).engine.tasks[i]).completed,
        forall|i: int|
            0 <= i < g.engine.tasks.len() && g.engine.tasks[i].completed ==> (
            #[trigger] group_wait(g).engine.tasks[i]).completed,
        group_wait(g).engine.stream.outstanding == 0,
        forall|i: int|
            0 <= i < g.engine.inboxes.len() ==> (#[trigger] group_wait(g).engine.inboxes[i]).items
                =~= vstd::multiset::Multiset::empty(),
        group_wait(g).count == 0,
{
}

/// What the group's drop does, decided by the `wait_at_drop` flag.
#[derive(Clone, Copy, Debug, PartialEq, Eq, Structural)]
pub enum DropAction {
    /// Block until every spawned child has completed or observed the
    /// cancellation, then release the engine.
    WaitForAll,
    /// Release the engine promptly, abandoning running children to the pool.
    End,
}

/// A scoped group of spawned child tasks whose results are values of
/// `ValueType`, consumed from the group's stream in completion order.
///
/// Unless `dont_wait_at_drop` was called, the group's drop waits for every
/// spawned child before releasing the engine.
pub struct SpawnGroup<ValueType> {
    /// Whether the group has been cancelled.
    pub is_cancelled: bool,
    wait_at_drop: bool,
    count: usize,
    runtime: RuntimeEngine<ValueType>,
}

impl<ValueType> View for SpawnGroup<ValueType> {
    type V = GroupView<ValueType>;

    closed spec fn view(&self) -> GroupView<ValueType> {
        GroupView {
            is_cancelled: self.is_cancelled,
            wait_at_drop: self.wait_at_drop,
            count: self.count as nat,
            engine: self.runtime@,
        }
    }
}

impl<ValueType> SpawnGroup<ValueType> {
    /// The group invariant: its engine keeps the engine invariant, and the
    /// group's own spawn count can only be zero when nothing is owed to the
    /// stream — the count is only reset by the operations that settle or
    /// write off every outstanding producer.
    pub closed spec fn well_formed(&self) -> bool {
        &&& self.runtime.well_formed()
        &&& (self@.count == 0 ==> self@.engine.stream.outstanding == 0)
    }

    /// A fresh group whose engine polls child tasks on `workers` worker
    /// threads; a pool needs at least one.
    pub fn new(workers: usize) -> (g: Self)
        requires
            workers > 0,
        ensures
            g@ == group_initial::<ValueType>(workers as nat),
            g.well_formed(),
    {
        SpawnGroup {
            is_cancelled: false,
            wait_at_drop: true,
            count: 0,
            runtime: RuntimeEngine::new(workers),
        }
    }

    /// Opts out of the implicit wait when the group is dropped.
    pub fn dont_wait_at_drop(&mut self)
        ensures
            final(self)@ == (GroupView { wait_at_drop: false, ..old(self)@ }),
            final(self).well_formed() == old(self).well_formed(),
    {
        self.wait_at_drop = false;
    }

    /// What the group's drop must do: wait for every child exactly when the
    /// implicit wait was not opted out of.
    pub fn drop_mode(&self) -> (a: DropAction)
        ensures
            a == DropAction::WaitForAll <==> self@.wait_at_drop,
    {
        if self.wait_at_drop {
            DropAction::WaitForAll
        } else {
            DropAction::End
        }
    }

    /// Spawns a new child task of the given priority into the group,
    /// unconditionally. Returns the child's task id.
    pub fn spawn_task(&mut self, priority: Priority) -> (id: usize)
        requires
            old(self).well_formed(),
            old(self)@.count < usize::MAX,
            engine_has_capacity(old(self)@.engine),
        ensures
            final(self).well_formed(),
            id == old(self)@.engine.tasks.len(),
            final(self)@ == group_spawn(old(self)@, priority),
    {
        self.count = self.count + 1;
        self.runtime.write_task(priority)
    }

    /// Spawns a new child task only if the group has not been cancelled;
    /// otherwise the group is left exactly as it was. Returns whether the
    /// child was spawned.
    pub fn spawn_task_unlessed_cancelled(&mut self, priority: Priority) -> (spawned: bool)
        requires
            old(self).well_formed(),
            !old(self)@.is_cancelled ==> old(self)@.count < usize::MAX && engine_has_capacity(
                old(self)@.engine,
            ),
        ensures
            final(self).well_formed(),
            spawned == !old(self)@.is_cancelled,
            old(self)@.is_cancelled ==> final(self)@ == old(self)@,
            !old(self)@.is_cancelled ==> final(self)@ == group_spawn(old(self)@, priority),
    {
        if self.is_cancelled {
            return false;
        }
        self.spawn_task(priority);
        true
    }

    /// Cancels every running child task: pending work is discarded, in-flight
    /// children get their cancellation flag raised, the pool quiesces, and
    /// the stream is cancelled — results already buffered stay readable.
    pub fn cancel_all(&mut self)
        requires
            old(self).well_formed(),
        ensures
            final(self).well_formed(),
            final(self)@ == group_cancel(old(self)@),
    {
        self.runtime.cancel();
        self.is_cancelled = true;
        self.count = 0;
    }

    /// Waits for every remaining child task to finish: residuals are driven
    /// to completion in priority order on the calling thread, the pool
    /// quiesces behind its barrier, and the group's count reverts to zero.
    pub fn wait_for_all(&mut self)
        requires
            old(self).well_formed(),
            inboxes_within_capacity(old(self)@.engine),
        ensures
            final(self).well_formed(),
            final(self)@ == group_wait(old(self)@),
    {
        self.runtime.wait_for_all_tasks();
        self.count = 0;
    }

    /// Whether the group has no remaining child task: true exactly when no
    /// spawned child's result is still outstanding.
    pub fn is_empty(&self) -> (r: bool)
        requires
            self.well_formed(),
        ensures
            r == (self@.engine.stream.outstanding == 0),
    {
        self.count == 0 || self.runtime.task_count() == 0
    }

    /// A finished child's result lands in the group's stream; returns whether
    /// the caller must invoke the consumer's waker it was handed.
    pub fn deliver(&mut self, value: ValueType) -> (woke: bool)
        requires
            old(self).well_formed(),
            old(self)@.engine.stream.buffer.len() < usize::MAX,
        ensures
            final(self).well_formed(),
            final(self)@ == (GroupView {
                engine: EngineView {
                    stream: stream_insert(old(self)@.engine.stream, value),
                    ..old(self)@.engine
                },
                ..old(self)@
            }),
            woke == stream_insert_wakes(old(self)@.engine.stream),
    {
        self.runtime.deliver(value)
    }

    /// One poll of the group's stream: results in completion order, then the
    /// end of the stream once nothing is owed and nothing is buffered.
    pub fn poll_next(&mut self) -> (r: StreamPoll<ValueType>)
        requires
            old(self).well_formed(),
        ensures
            final(self).well_formed(),
            final(self)@ == (GroupView {
                engine: EngineView {
                    stream: stream_poll_state(old(self)@.engine.stream),
                    ..old(self)@.engine
                },
                ..old(self)@
            }),
            r == stream_poll_result(old(self)@.engine.stream),
    {
        self.runtime.poll_stream()
    }

    /// The oldest buffered result, consumed, or `None` when nothing is
    /// buffered; never suspends, and stays usable after a cancellation.
    pub fn first(&mut self) -> (r: Option<ValueType>)
        requires
            old(self).well_formed(),
        ensures
            final(self).well_formed(),
            old(self)@.engine.stream.buffer.len() == 0 ==> r is None && final(self)@ == old(
                self,
            )@,
            old(self)@.engine.stream.buffer.len() > 0 ==> r == Some(
                old(self)@.engine.stream.buffer[0],
            ) && final(self)@ == (GroupView {
                engine: EngineView {
                    stream: stream_poll_state(old(self)@.engine.stream),
                    ..old(self)@.engine
                },
                ..old(self)@
            }),
    {
        self.runtime.first()
    }

    /// Shuts the engine down without waiting: every inbox is closed, the
    /// workers leave their loops, and running children are abandoned to
    /// finish or observe cancellation on their own.
    pub fn end(&mut self)
        requires
            old(self).well_formed(),
        ensures
            final(self).well_formed(),
            final(self)@ == (GroupView { engine: engine_end(old(self)@.engine), ..old(self)@ }),
    {
        self.runtime.end();
    }
}

} // verus!
