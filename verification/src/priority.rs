use vstd::prelude::*;

verus! {

/// Importance level attached to a spawned child task.
///
/// Spawn groups use it to rank their child tasks: within a worker's inbox a
/// task of higher priority is served before one of lower priority. The total
/// order is `BACKGROUND < LOW < UTILITY < MEDIUM < HIGH < USERINITIATED`,
/// and the default level for user tasks is `MEDIUM`.
#[derive(Clone, Copy, Debug, PartialEq, Eq, Structural)]
pub enum Priority {
    BACKGROUND,
    LOW,
    UTILITY,
    MEDIUM,
    HIGH,
    USERINITIATED,
}

/// Position of a user-visible priority within the total order; a larger rank
/// is served earlier. Rank 0 is reserved for the internal wait sentinel.
pub open spec fn priority_rank(p: Priority) -> nat {
    match p {
        Priority::BACKGROUND => 1,
        Priority::LOW => 2,
        Priority::UTILITY => 3,
        Priority::MEDIUM => 4,
        Priority::HIGH => 5,
        Priority::USERINITIATED => 6,
    }
}

impl Priority {
    /// Numeric rank of this priority within the total order.
    pub fn rank(&self) -> (r: u8)
        ensures
            r as nat == priority_rank(*self),
    {
        match self {
            Priority::BACKGROUND => 1,
            Priority::LOW => 2,
            Priority::UTILITY => 3,
            Priority::MEDIUM => 4,
            Priority::HIGH => 5,
            Priority::USERINITIATED => 6,
        }
    }
}

impl Default for Priority {
    /// The default level for user tasks.
    fn default() -> (d: Self)
        ensures
            d == Priority::MEDIUM,
    {
        Priority::MEDIUM
    }
}

/// Priority as stored in a worker's inbox: the user-visible levels plus the
/// internal `Wait` level carried only by barrier sentinels, which sorts below
/// all user work so that a sentinel is served only once the inbox holds no
/// user task dispatched before the collective wait began.
#[derive(Clone, Copy, Debug, PartialEq, Eq, Structural)]
pub enum TaskPriority {
    Wait,
    Background,
    Low,
    Utility,
    Medium,
    High,
    UserInitiated,
}

/// Position of an inbox priority within the total order
/// `Wait < Background < Low < Utility < Medium < High < UserInitiated`.
pub open spec fn task_priority_rank(p: TaskPriority) -> nat {
    match p {
        TaskPriority::Wait => 0,
        TaskPriority::Background => 1,
        TaskPriority::Low => 2,
        TaskPriority::Utility => 3,
        TaskPriority::Medium => 4,
        TaskPriority::High => 5,
        TaskPriority::UserInitiated => 6,
    }
}

impl TaskPriority {
    /// Numeric rank of this inbox priority; the heap of an inbox orders its
    /// entries by this key, largest first.
    pub fn rank(&self) -> (r: u8)
        ensures
            r as nat == task_priority_rank(*self),
    {
        match self {
            TaskPriority::Wait => 0,
            TaskPriority::Background => 1,
            TaskPriority::Low => 2,
            TaskPriority::Utility => 3,
            TaskPriority::Medium => 4,
            TaskPriority::High => 5,
            TaskPriority::UserInitiated => 6,
        }
    }
}

/// The inbox level of a user-visible priority: each user level maps to the
/// inbox level directly above `Wait` in the same order.
pub open spec fn task_priority_of(p: Priority) -> TaskPriority {
    match p {
        Priority::BACKGROUND => TaskPriority::Background,
        Priority::LOW => TaskPriority::Low,
        Priority::UTILITY => TaskPriority::Utility,
        Priority::MEDIUM => TaskPriority::Medium,
        Priority::HIGH => TaskPriority::High,
        Priority::USERINITIATED => TaskPriority::UserInitiated,
    }
}

impl From<Priority> for TaskPriority {
    fn from(value: Priority) -> (r: Self)
        ensures
            r == task_priority_of(value),
    {
        match value {
            Priority::BACKGROUND => TaskPriority::Background,
            Priority::LOW => TaskPriority::Low,
            Priority::UTILITY => TaskPriority::Utility,
            Priority::MEDIUM => TaskPriority::Medium,
            Priority::HIGH => TaskPriority::High,
            Priority::USERINITIATED => TaskPriority::UserInitiated,
        }
    }
}

impl vstd::std_specs::convert::FromSpecImpl<Priority> for TaskPriority {
    open spec fn obeys_from_spec() -> bool {
        true
    }

    open spec fn from_spec(v: Priority) -> Self {
        task_priority_of(v)
    }
}

/// Mapping a user priority into the inbox order keeps the user order intact
/// and places every user task strictly above the wait sentinel.
pub proof fn lemma_task_priority_of_preserves_order(a: Priority, b: Priority)
    ensures
        priority_rank(a) <= priority_rank(b) <==> task_priority_rank(task_priority_of(a))
            <= task_priority_rank(task_priority_of(b)),
        task_priority_rank(task_priority_of(a)) > task_priority_rank(TaskPriority::Wait),
{
}

} // verus!
