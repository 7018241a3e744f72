use spawn_groups::channel::{Channel, DequeueOutcome};
use spawn_groups::pool::{worker_step, Indexer, PoolItem, ThreadPool, WorkerAction};
use spawn_groups::priority::TaskPriority;
use spawn_groups::priority_queue::PriorityQueue;
use spawn_groups::stream::{AsyncStream, StreamPoll};

#[test]
fn heap_pops_the_highest_key_first() {
    let mut q: PriorityQueue<&str> = PriorityQueue::new();
    assert!(q.is_empty());
    q.push(2, "low");
    q.push(5, "high");
    q.push(3, "utility");
    assert_eq!(q.len(), 3);
    assert_eq!(q.pop(), Some((5, "high")));
    assert_eq!(q.pop(), Some((3, "utility")));
    assert_eq!(q.pop(), Some((2, "low")));
    assert_eq!(q.pop(), None);
}

#[test]
fn heap_drains_in_non_increasing_key_order() {
    let keys = [3u64, 1, 4, 1, 5, 9, 2, 6, 5, 3, 5, 0, 7];
    let mut q: PriorityQueue<u64> = PriorityQueue::new();
    for (i, k) in keys.iter().enumerate() {
        q.push(*k, i as u64);
    }
    let mut drained: Vec<u64> = Vec::new();
    while let Some((k, _)) = q.pop() {
        drained.push(k);
    }
    assert_eq!(drained.len(), keys.len());
    for window in drained.windows(2) {
        assert!(window[0] >= window[1], "pops must never climb in priority");
    }
    let mut sorted = keys.to_vec();
    sorted.sort();
    sorted.reverse();
    assert_eq!(drained, sorted);
}

#[test]
fn heap_keeps_equal_keys() {
    let mut q: PriorityQueue<u8> = PriorityQueue::new();
    q.push(4, 10);
    q.push(4, 20);
    let a = q.pop().unwrap();
    let b = q.pop().unwrap();
    assert_eq!(a.0, 4);
    assert_eq!(b.0, 4);
    let mut values = vec![a.1, b.1];
    values.sort();
    assert_eq!(values, vec![10, 20]);
}

#[test]
fn heap_clear_discards_everything() {
    let mut q: PriorityQueue<u8> = PriorityQueue::new();
    q.push(1, 1);
    q.push(2, 2);
    q.clear();
    assert!(q.is_empty());
    assert_eq!(q.pop(), None);
}

#[test]
fn inbox_serves_by_priority_and_signals_producers() {
    let mut c: Channel<&str> = Channel::new();
    assert!(c.enqueue(2, "low"));
    assert!(c.enqueue(6, "urgent"));
    match c.try_dequeue() {
        DequeueOutcome::Item(k, v) => {
            assert_eq!(k, 6);
            assert_eq!(v, "urgent");
        }
        _ => panic!("an entry was pending"),
    }
    match c.try_dequeue() {
        DequeueOutcome::Item(k, v) => {
            assert_eq!(k, 2);
            assert_eq!(v, "low");
        }
        _ => panic!("an entry was pending"),
    }
    assert!(matches!(c.try_dequeue(), DequeueOutcome::Block));
}

#[test]
fn closed_inbox_drops_work_and_releases_its_worker() {
    let mut c: Channel<u8> = Channel::new();
    c.enqueue(3, 1);
    c.close();
    assert!(matches!(c.try_dequeue(), DequeueOutcome::Closed));
    assert!(!c.enqueue(5, 2), "an enqueue into a closed inbox is dropped");
    assert!(matches!(c.try_dequeue(), DequeueOutcome::Closed));
}

#[test]
fn cleared_inbox_stays_open() {
    let mut c: Channel<u8> = Channel::new();
    c.enqueue(1, 1);
    c.clear();
    assert!(matches!(c.try_dequeue(), DequeueOutcome::Block));
}

#[test]
fn indexer_walks_round_robin() {
    let mut ix = Indexer::new(3);
    assert_eq!(ix.next(), 0);
    assert_eq!(ix.next(), 1);
    assert_eq!(ix.next(), 2);
    assert_eq!(ix.next(), 0);
}

#[test]
fn pool_places_submissions_round_robin() {
    let mut pool: ThreadPool<u32> = ThreadPool::new(3);
    assert_eq!(pool.workers(), 3);
    assert_eq!(pool.submit(TaskPriority::Medium, 100), 0);
    assert_eq!(pool.submit(TaskPriority::High, 101), 1);
    assert_eq!(pool.submit(TaskPriority::Low, 102), 2);
    assert_eq!(pool.submit(TaskPriority::Medium, 103), 0);
}

#[test]
fn worker_dispatch_decision() {
    assert!(matches!(
        worker_step(DequeueOutcome::Item(4, PoolItem::Job(7u32))),
        WorkerAction::Drive(7)
    ));
    assert!(matches!(
        worker_step::<u32>(DequeueOutcome::Item(0, PoolItem::Sentinel)),
        WorkerAction::AwaitBarrier
    ));
    assert!(matches!(
        worker_step::<u32>(DequeueOutcome::Closed),
        WorkerAction::Exit
    ));
    assert!(matches!(
        worker_step::<u32>(DequeueOutcome::Block),
        WorkerAction::Sleep
    ));
}

#[test]
fn stream_yields_results_in_push_order() {
    let mut s: AsyncStream<i64> = AsyncStream::new();
    for _ in 0..=10u32 {
        s.increment();
    }
    for i in 0..=10i64 {
        s.insert_item(i);
    }
    let mut total: i64 = 0;
    let mut yielded: Vec<i64> = Vec::new();
    loop {
        match s.poll_next() {
            StreamPoll::Ready(v) => {
                total += v;
                yielded.push(v);
            }
            StreamPoll::Finished => break,
            StreamPoll::Pending => panic!("every owed result was delivered"),
        }
    }
    assert_eq!(total, 55);
    assert_eq!(yielded, (0..=10).collect::<Vec<i64>>());
    assert_eq!(s.item_count(), 0);
}

#[test]
fn empty_stream_with_producers_suspends_the_consumer() {
    let mut s: AsyncStream<u8> = AsyncStream::new();
    s.increment();
    assert!(matches!(s.poll_next(), StreamPoll::Pending));
    let woke = s.insert_item(9);
    assert!(woke, "the parked consumer must be woken");
    assert!(matches!(s.poll_next(), StreamPoll::Ready(9)));
    assert!(matches!(s.poll_next(), StreamPoll::Finished));
}

#[test]
fn a_push_wakes_at_most_once_per_empty_transition() {
    let mut s: AsyncStream<u8> = AsyncStream::new();
    s.increment();
    s.increment();
    assert!(matches!(s.poll_next(), StreamPoll::Pending));
    assert!(s.insert_item(1), "the stored waker is invoked");
    assert!(!s.insert_item(2), "no waker is stored any more: no second wake");
}

#[test]
fn first_consumes_the_oldest_buffered_result() {
    let mut s: AsyncStream<u8> = AsyncStream::new();
    assert_eq!(s.first(), None);
    s.increment();
    s.increment();
    assert_eq!(s.first(), None, "nothing buffered yet");
    s.insert_item(5);
    s.insert_item(6);
    assert_eq!(s.first(), Some(5));
    assert_eq!(s.first(), Some(6));
    assert_eq!(s.first(), None);
}

#[test]
fn first_reaches_buffered_results_after_cancellation() {
    let mut s: AsyncStream<u8> = AsyncStream::new();
    s.increment();
    s.increment();
    s.insert_item(7);
    s.cancel_tasks();
    assert_eq!(s.item_count(), 0);
    assert_eq!(s.first(), Some(7), "a delivered result stays available");
    assert_eq!(s.first(), None);
}

#[test]
fn cancelled_stream_keeps_buffered_results() {
    let mut s: AsyncStream<u8> = AsyncStream::new();
    s.increment();
    s.increment();
    s.increment();
    s.insert_item(1);
    s.cancel_tasks();
    assert!(s.is_cancelled());
    assert_eq!(s.item_count(), 0, "pending producers are written off");
    assert!(matches!(s.poll_next(), StreamPoll::Ready(1)));
    assert!(matches!(s.poll_next(), StreamPoll::Finished));
}
