use vstd::prelude::*;

use crate::engine::engine_end;
use crate::engine::engine_has_capacity;
use crate::engine::inboxes_within_capacity;
use crate::engine::EngineView;
use crate::engine::RuntimeEngine;
use crate::priority::Priority;
use crate::spawn_group::group_cancel;
use crate::spawn_group::group_initial;
use crate::spawn_group::group_spawn;
use crate::spawn_group::group_wait;
use crate::spawn_group::DropAction;
use crate::spawn_group::GroupView;
use crate::stream::stream_insert;
use crate::stream::stream_insert_wakes;
use crate::stream::stream_poll_result;
use crate::stream::stream_poll_state;
use crate::stream::StreamPoll;

verus! {

/// A scoped group of fallible child tasks: each child's result is a
/// `Result<ValueType, ErrorType>`, consumed from the group's stream in
/// completion order. Errors are values of the stream, not out-of-band
/// failures.
///
/// Unless `dont_wait_at_drop` was called, the group's drop waits for every
/// spawned child before releasing the engine.
pub struct ErrSpawnGroup<ValueType, ErrorType> {
    /// Whether the group has been cancelled.
    pub is_cancelled: bool,
    wait_at_drop: bool,
    count: usize,
    runtime: RuntimeEngine<Result<ValueType, ErrorType>>,
}

impl<ValueType, ErrorType> View for ErrSpawnGroup<ValueType, ErrorType> {
    type V = GroupView<Result<ValueType, ErrorType>>;

    closed spec fn view(&self) -> GroupView<Result<ValueType, ErrorType>> {
        GroupView {
            is_cancelled: self.is_cancelled,
            wait_at_drop: self.wait_at_drop,
            count: self.count as nat,
            engine: self.runtime@,
        }
    }
}

impl<ValueType, ErrorType> ErrSpawnGroup<ValueType, ErrorType> {
    /// The group invariant: its engine keeps the engine invariant, and the
    /// group's own spawn count can only be zero when nothing is owed to the
    /// stream — the count is only reset by the operations that settle or
    /// write off every outstanding producer.
    pub closed spec fn well_formed(&self) -> bool {
        &&& self.runtime.well_formed()
        &&& (self@.count == 0 ==> self@.engine.stream.outstanding == 0)
    }

    /// A fresh group whose engine polls child tasks on `num_of_threads`
    /// worker threads; a pool needs at least one.
    pub fn new(num_of_threads: usize) -> (g: Self)
        requires
            num_of_threads > 0,
        ensures
            g@ == group_initial::<Result<ValueType, ErrorType>>(num_of_threads as nat),
            g.well_formed(),
    {
        ErrSpawnGroup {
            is_cancelled: false,
            wait_at_drop: true,
            count: 0,
            runtime: RuntimeEngine::new(num_of_threads),
        }
    }

    /// Opts out of the implicit wait when the group is dropped.
    pub fn dont_wait_at_drop(&mut self)
        ensures
            final(self)@ == (GroupView { wait_at_drop: false, ..old(self)@ }),
            final(self).well_formed() == old(self).well_formed(),
    {
        self.wait_at_drop = false;
    }

    /// What the group's drop must do: wait for every child exactly when the
    /// implicit wait was not opted out of.
    pub fn drop_mode(&self) -> (a: DropAction)
        ensures
            a == DropAction::WaitForAll <==> self@.wait_at_drop,
    {
        if self.wait_at_drop {
            DropAction::WaitForAll
        } else {
            DropAction::End
        }
    }

    /// Spawns a new fallible child task of the given priority into the
    /// group, unconditionally. Returns the child's task id.
    pub fn spawn_task(&mut self, priority: Priority) -> (id: usize)
        requires
            old(self).well_formed(),
            old(self)@.count < usize::MAX,
            engine_has_capacity(old(self)@.engine),
        ensures
            final(self).well_formed(),
            id == old(self)@.engine.tasks.len(),
            final(self)@ == group_spawn(old(self)@, priority),
    {
        self.count = self.count + 1;
        self.runtime.write_task(priority)
    }

    /// Spawns a new child task only if the group has not been cancelled;
    /// otherwise the group is left exactly as it was. Returns whether the
    /// child was spawned.
    pub fn spawn_task_unlessed_cancelled(&mut self, priority: Priority) -> (spawned: bool)
        requires
            old(self).well_formed(),
            !old(self)@.is_cancelled ==> old(self)@.count < usize::MAX && engine_has_capacity(
                old(self)@.engine,
            ),
        ensures
            final(self).well_formed(),
            spawned == !old(self)@.is_cancelled,
            old(self)@.is_cancelled ==> final(self)@ == old(self)@,
            !old(self)@.is_cancelled ==> final(self)@ == group_spawn(old(self)@, priority),
    {
        if self.is_cancelled {
            return false;
        }
        self.spawn_task(priority);
        true
    }

    /// Cancels every running child task: pending work is discarded, in-flight
    /// children get their cancellation flag raised, the pool quiesces, and
    /// the stream is cancelled — results already buffered stay readable.
    pub fn cancel_all(&mut self)
        requires
            old(self).well_formed(),
        ensures
            final(self).well_formed(),
            final(self)@ == group_cancel(old(self)@),
    {
        self.runtime.cancel();
        self.is_cancelled = true;
        self.count = 0;
    }

    /// Waits for every remaining child task to finish in a non-awaiting
    /// context: residuals are driven to completion in priority order on the
    /// calling thread and the pool quiesces behind its barrier.
    pub fn wait_non_async(&mut self)
        requires
            old(self).well_formed(),
            inboxes_within_capacity(old(self)@.engine),
        ensures
            final(self).well_formed(),
            final(self)@ == group_wait(old(self)@),
    {
        self.runtime.wait_for_all_tasks();
        self.count = 0;
    }

    /// Waits for every remaining child task to finish.
    pub fn wait_for_all(&mut self)
        requires
            old(self).well_formed(),
            inboxes_within_capacity(old(self)@.engine),
        ensures
            final(self).well_formed(),
            final(self)@ == group_wait(old(self)@),
    {
        self.wait_non_async()
    }

    /// Whether the group has no remaining child task: true exactly when no
    /// spawned child's result is still outstanding.
    pub fn is_empty(&self) -> (r: bool)
        requires
            self.well_formed(),
        ensures
            r == (self@.engine.stream.outstanding == 0),
    {
        self.count == 0 || self.runtime.task_count() == 0
    }

    /// A finished child's result — a value or an error — lands in the
    /// group's stream; returns whether the caller must invoke the consumer's
    /// waker it was handed.
    pub fn deliver(&mut self, value: Result<ValueType, ErrorType>) -> (woke: bool)
        requires
            old(self).well_formed(),
            old(self)@.engine.stream.buffer.len() < usize::MAX,
        ensures
            final(self).well_formed(),
            final(self)@ == (GroupView {
                engine: EngineView {
                    stream: stream_insert(old(self)@.engine.stream, value),
                    ..old(self)@.engine
                },
                ..old(self)@
            }),
            woke == stream_insert_wakes(old(self)@.engine.stream),
    {
        self.runtime.deliver(value)
    }

    /// One poll of the group's stream: results in completion order, then the
    /// end of the stream once nothing is owed and nothing is buffered.
    pub fn poll_next(&mut self) -> (r: StreamPoll<Result<ValueType, ErrorType>>)
        requires
            old(self).well_formed(),
        ensures
            final(self).well_formed(),
            final(self)@ == (GroupView {
                engine: EngineView {
                    stream: stream_poll_state(old(self)@.engine.stream),
                    ..old(self)@.engine
                },
                ..old(self)@
            }),
            r == stream_poll_result(old(self)@.engine.stream),
    {
        self.runtime.poll_stream()
    }

    /// The oldest buffered result, consumed, or `None` when nothing is
    /// buffered; never suspends, and stays usable after a cancellation.
    pub fn first(&mut self) -> (r: Option<Result<ValueType, ErrorType>>)
        requires
            old(self).well_formed(),
        ensures
            final(self).well_formed(),
            old(self)@.engine.stream.buffer.len() == 0 ==> r is None && final(self)@ == old(
                self,
            )@,
            old(self)@.engine.stream.buffer.len() > 0 ==> r == Some(
                old(self)@.engine.stream.buffer[0],
            ) && final(self)@ == (GroupView {
                engine: EngineView {
                    stream: stream_poll_state(old(self)@.engine.stream),
                    ..old(self)@.engine
                },
                ..old(self)@
            }),
    {
        self.runtime.first()
    }

    /// Shuts the engine down: every inbox is closed and the workers leave
    /// their loops.
    pub fn end(&mut self)
        requires
            old(self).well_formed(),
        ensures
            final(self).well_formed(),
            final(self)@ == (GroupView { engine: engine_end(old(self)@.engine), ..old(self)@ }),
    {
        self.runtime.end();
    }
}

} // verus!
