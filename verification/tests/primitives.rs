use spawn_groups::arc_lock::{ARCLock, CustomArc};
use spawn_groups::notifier::Notifier;
use spawn_groups::priority::{Priority, TaskPriority};
use spawn_groups::queue::{QueueOrder, ThreadSafeQueue};
use spawn_groups::suspender::{SuspendDecision, Suspender};
use spawn_groups::task::Task;
use spawn_groups::wait_group::WaitGroup;

#[test]
fn priority_ranks_are_totally_ordered() {
    let levels = [
        Priority::BACKGROUND,
        Priority::LOW,
        Priority::UTILITY,
        Priority::MEDIUM,
        Priority::HIGH,
        Priority::USERINITIATED,
    ];
    for window in levels.windows(2) {
        assert!(window[0].rank() < window[1].rank());
    }
    assert_eq!(Priority::BACKGROUND.rank(), 1);
    assert_eq!(Priority::USERINITIATED.rank(), 6);
}

#[test]
fn default_priority_is_medium() {
    assert_eq!(Priority::default(), Priority::MEDIUM);
}

#[test]
fn wait_rank_sits_below_every_user_priority() {
    assert_eq!(TaskPriority::Wait.rank(), 0);
    let levels = [
        Priority::BACKGROUND,
        Priority::LOW,
        Priority::UTILITY,
        Priority::MEDIUM,
        Priority::HIGH,
        Priority::USERINITIATED,
    ];
    for level in levels {
        let inbox_level = TaskPriority::from(level);
        assert!(inbox_level.rank() > TaskPriority::Wait.rank());
        assert_eq!(inbox_level.rank(), level.rank());
    }
    assert_eq!(TaskPriority::from(Priority::HIGH), TaskPriority::High);
}

#[test]
fn first_out_queue_serves_in_arrival_order() {
    let mut q: ThreadSafeQueue<u32> = ThreadSafeQueue::new(QueueOrder::FirstOut);
    assert_eq!(q.len(), 0);
    q.enqueue(1);
    q.enqueue(2);
    q.enqueue(3);
    assert_eq!(q.dequeue(), Some(1));
    assert_eq!(q.dequeue(), Some(2));
    assert_eq!(q.dequeue(), Some(3));
    assert_eq!(q.dequeue(), None);
}

#[test]
fn last_out_queue_serves_in_reverse_order() {
    let mut q: ThreadSafeQueue<&str> = ThreadSafeQueue::new(QueueOrder::LastOut);
    q.enqueue("a");
    q.enqueue("b");
    assert_eq!(q.dequeue(), Some("b"));
    assert_eq!(q.dequeue(), Some("a"));
    assert_eq!(q.dequeue(), None);
}

#[test]
fn suspender_blocks_when_nothing_is_pending() {
    let mut s = Suspender::new();
    assert_eq!(s.begin_suspend(), SuspendDecision::Block);
}

#[test]
fn resume_before_suspend_is_absorbed() {
    let mut s = Suspender::new();
    let wake = s.resume();
    assert!(!wake, "nobody was parked, no wake needed");
    assert_eq!(s.begin_suspend(), SuspendDecision::Continue);
    // the pair is reset and can be used again
    assert_eq!(s.begin_suspend(), SuspendDecision::Block);
}

#[test]
fn resume_wakes_a_parked_owner_once() {
    let mut s = Suspender::new();
    assert_eq!(s.begin_suspend(), SuspendDecision::Block);
    let wake = s.resume();
    assert!(wake, "the owner is parked and must be woken");
    let again = s.resume();
    assert!(!again, "a repeated resume is a no-op");
    s.finish_suspend();
    assert_eq!(s.begin_suspend(), SuspendDecision::Block);
}

#[test]
fn notifier_signals_only_the_first_wake() {
    let mut n = Notifier::new();
    assert!(n.wake(), "first wake signals the condition variable");
    assert!(!n.wake(), "a wake storm costs one signal");
    assert!(n.try_wait(), "the notification is consumed");
    assert!(!n.try_wait(), "nothing pending: the caller parks");
}

#[test]
fn wait_group_releases_when_the_last_party_leaves() {
    let mut w = WaitGroup::new();
    assert!(w.try_wait());
    w.enter();
    w.enter();
    assert!(!w.try_wait());
    assert!(!w.leave(), "one party is still inside");
    assert!(w.leave(), "the last leave releases the waiters");
    assert!(w.try_wait());
}

#[test]
fn custom_arc_hands_back_its_value() {
    let a = CustomArc::new(42u64);
    assert_eq!(*a.get(), 42);
}

#[test]
fn arc_lock_guards_its_value() {
    let mut l = ARCLock::new(String::from("first"));
    assert!(l.try_lock());
    assert!(!l.try_lock(), "a held lock refuses a second acquisition");
    assert_eq!(l.read(), "first");
    let prev = l.replace(String::from("second"));
    assert_eq!(prev, "first");
    assert_eq!(l.read(), "second");
    l.unlock();
    assert!(l.try_lock());
}

#[test]
fn task_completes_at_most_once() {
    let mut t = Task::new();
    assert!(!t.is_completed());
    assert!(!t.is_cancelled());

    // one pending poll round
    assert!(t.try_acquire_poll(), "the latch is free");
    t.finish_poll(false);
    assert!(!t.is_completed());

    // a ready poll completes the task
    assert!(t.try_acquire_poll());
    t.finish_poll(true);
    assert!(t.is_completed());
}

#[test]
fn poll_latch_admits_a_single_poller() {
    let mut t = Task::new();
    assert!(t.try_acquire_poll(), "the first poller wins the latch");
    assert!(!t.try_acquire_poll(), "a racing poller backs off");
    t.finish_poll(false);
    assert!(t.try_acquire_poll(), "the latch is free again");
    t.finish_poll(false);
}

#[test]
fn cancellation_is_monotone() {
    let mut t = Task::new();
    t.cancel();
    assert!(t.is_cancelled());
    t.cancel();
    assert!(t.is_cancelled());
    assert!(!t.is_completed());
}
