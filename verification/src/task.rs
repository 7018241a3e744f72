use vstd::prelude::*;

verus! {

/// The control state of one erased, polled-to-completion unit of work: its
/// two monotone flags and the number of poll invocations currently inside
/// the poll latch.
pub struct TaskState {
    pub completed: bool,
    pub cancelled: bool,
    pub pollers: nat,
}

/// The initial state of a freshly created task.
pub open spec fn initial_task() -> TaskState {
    TaskState { completed: false, cancelled: false, pollers: 0 }
}

/// One observable step of a task's life.
pub enum TaskEvent {
    /// A poller won the latch. The latch is won only for a task not yet
    /// completed: a racing poller backs off once it observes completion.
    Acquire,
    /// The poll inside the latch returned; `ready` tells whether the erased
    /// future finished, which sets the completion flag. The latch is
    /// released.
    Finish { ready: bool },
    /// The cancellation flag is raised.
    Cancel,
}

/// Whether `event` may happen in state `s`.
pub open spec fn task_enabled(s: TaskState, event: TaskEvent) -> bool {
    match event {
        TaskEvent::Acquire => s.pollers == 0 && !s.completed,
        TaskEvent::Finish { ready } => s.pollers == 1,
        TaskEvent::Cancel => true,
    }
}

/// The state after `event` happens in state `s`.
pub open spec fn task_step(s: TaskState, event: TaskEvent) -> TaskState {
    match event {
        TaskEvent::Acquire => TaskState { pollers: 1, ..s },
        TaskEvent::Finish { ready } => TaskState {
            pollers: 0,
            completed: s.completed || ready,
            ..s
        },
        TaskEvent::Cancel => TaskState { cancelled: true, ..s },
    }
}

/// Whether every event of `events` is enabled in turn, starting from `s`.
pub open spec fn task_trace_valid(s: TaskState, events: Seq<TaskEvent>) -> bool
    decreases events.len(),
{
    events.len() == 0 || (task_enabled(s, events[0]) && task_trace_valid(
        task_step(s, events[0]),
        events.drop_first(),
    ))
}

/// The state after running `events` from `s`.
pub open spec fn task_run(s: TaskState, events: Seq<TaskEvent>) -> TaskState
    decreases events.len(),
{
    if events.len() == 0 {
        s
    } else {
        task_run(task_step(s, events[0]), events.drop_first())
    }
}

/// How many events of `events` complete the task.
pub open spec fn completions(events: Seq<TaskEvent>) -> nat
    decreases events.len(),
{
    if events.len() == 0 {
        0
    } else {
        (if events[0] matches TaskEvent::Finish { ready: true } {
            1nat
        } else {
            0nat
        }) + completions(events.drop_first())
    }
}

/// The state property every reachable task state satisfies: at most one
/// poller holds the latch, and while one does the task is not yet completed.
pub open spec fn task_inv(s: TaskState) -> bool {
    s.pollers <= 1 && (s.pollers == 1 ==> !s.completed)
}

/// One enabled step preserves the task invariant.
proof fn lemma_task_step_preserves_inv(s: TaskState, event: TaskEvent)
    requires
        task_inv(s),
        task_enabled(s, event),
    ensures
        task_inv(task_step(s, event)),
{
}

/// Single-poller discipline: at every point of a valid trace, at most one
/// poll invocation is inside the latch.
pub proof fn lemma_single_poller(s: TaskState, events: Seq<TaskEvent>, i: int)
    requires
        task_inv(s),
        task_trace_valid(s, events),
        0 <= i <= events.len(),
    ensures
        task_inv(task_run(s, events.take(i))),
        task_run(s, events.take(i)).pollers <= 1,
    decreases i,
{
    if i == 0 {
        assert(events.take(0) =~= Seq::<TaskEvent>::empty());
    } else {
        lemma_task_step_preserves_inv(s, events[0]);
        lemma_single_poller(task_step(s, events[0]), events.drop_first(), i - 1);
        assert(events.take(i).drop_first() =~= events.drop_first().take(i - 1));
        assert(task_run(s, events.take(i)) == task_run(
            task_step(s, events.take(i)[0]),
            events.take(i).drop_first(),
        ));
    }
}

/// The completion flag is monotone: once a valid trace reaches a completed
/// state, every longer run of the same trace is still completed.
pub proof fn lemma_completed_monotone(s: TaskState, events: Seq<TaskEvent>)
    requires
        s.completed,
    ensures
        task_run(s, events).completed,
    decreases events.len(),
{
    if events.len() > 0 {
        lemma_completed_monotone(task_step(s, events[0]), events.drop_first());
    }
}

/// At-most-once completion: a valid trace from a state satisfying the task
/// invariant completes the task at most once, and a trace from an already
/// completed quiescent state never completes it again.
pub proof fn lemma_completion_at_most_once(s: TaskState, events: Seq<TaskEvent>)
    requires
        task_inv(s),
        task_trace_valid(s, events),
    ensures
        completions(events) <= 1,
        s.completed && s.pollers == 0 ==> completions(events) == 0,
    decreases events.len(),
{
    if events.len() > 0 {
        lemma_task_step_preserves_inv(s, events[0]);
        lemma_completion_at_most_once(task_step(s, events[0]), events.drop_first());
    }
}

/// Nothing polls a completed task: from the point of a valid trace where the
/// task is completed and the latch is free, every later event is a
/// cancellation — the latch is never won again and no poll ever finishes.
pub proof fn lemma_no_poll_after_completion(s: TaskState, events: Seq<TaskEvent>, i: int)
    requires
        task_inv(s),
        task_trace_valid(s, events),
        s.completed,
        s.pollers == 0,
        0 <= i < events.len(),
    ensures
        events[i] is Cancel,
    decreases i,
{
    if i == 0 {
    } else {
        lemma_no_poll_after_completion(task_step(s, events[0]), events.drop_first(), i - 1);
    }
}

/// The executable control block of a task: the completion and cancellation
/// flags and the poll latch. In the blocking shell the flags are shared
/// atomics; each method here is the logic of one atomic transition, and the
/// view is the task state it acts on.
pub struct Task {
    completed: bool,
    cancelled: bool,
    polling: bool,
}

impl View for Task {
    type V = TaskState;

    closed spec fn view(&self) -> TaskState {
        TaskState {
            completed: self.completed,
            cancelled: self.cancelled,
            pollers: if self.polling {
                1
            } else {
                0
            },
        }
    }
}

impl Task {
    /// A fresh task: not completed, not cancelled, latch free.
    pub fn new() -> (t: Self)
        ensures
            t@ == initial_task(),
    {
        Task { completed: false, cancelled: false, polling: false }
    }

    /// One attempt to win the poll latch, as the spinning poller makes it.
    /// Callers only poll tasks they have not seen completed.
    pub fn try_acquire_poll(&mut self) -> (won: bool)
        requires
            !old(self)@.completed,
        ensures
            won == (old(self)@.pollers == 0),
            won ==> task_enabled(old(self)@, TaskEvent::Acquire) && final(self)@ == task_step(
                old(self)@,
                TaskEvent::Acquire,
            ),
            !won ==> final(self)@ == old(self)@,
    {
        if self.polling {
            false
        } else {
            self.polling = true;
            true
        }
    }

    /// Records the outcome of the poll made inside the latch and releases
    /// the latch; a ready poll completes the task.
    pub fn finish_poll(&mut self, ready: bool)
        requires
            old(self)@.pollers == 1,
        ensures
            task_enabled(old(self)@, TaskEvent::Finish { ready }),
            final(self)@ == task_step(old(self)@, TaskEvent::Finish { ready }),
    {
        self.polling = false;
        if ready {
            self.completed = true;
        }
    }

    /// Raises the cancellation flag; raising it again changes nothing.
    pub fn cancel(&mut self)
        ensures
            final(self)@ == task_step(old(self)@, TaskEvent::Cancel),
    {
        self.cancelled = true;
    }

    /// Whether the task has completed.
    pub fn is_completed(&self) -> (r: bool)
        ensures
            r == self@.completed,
    {
        self.completed
    }

    /// Whether the task has been cancelled.
    pub fn is_cancelled(&self) -> (r: bool)
        ensures
            r == self@.cancelled,
    {
        self.cancelled
    }
}

} // verus!
