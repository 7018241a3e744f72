use spawn_groups::discarding_spawn_group::DiscardingSpawnGroup;
use spawn_groups::engine::RuntimeEngine;
use spawn_groups::err_spawn_group::ErrSpawnGroup;
use spawn_groups::priority::Priority;
use spawn_groups::spawn_group::{DropAction, SpawnGroup};
use spawn_groups::stream::StreamPoll;

#[derive(Debug, PartialEq)]
enum DivisibleByError {
    Three,
    Five,
}

#[test]
fn engine_tracks_written_and_delivered_tasks() {
    let mut engine: RuntimeEngine<u32> = RuntimeEngine::new(1);
    assert_eq!(engine.task_count(), 0);
    assert_eq!(engine.write_task(Priority::MEDIUM), 0);
    assert_eq!(engine.write_task(Priority::HIGH), 1);
    assert_eq!(engine.task_count(), 2);
    engine.deliver(7);
    match engine.poll_stream() {
        StreamPoll::Ready(v) => assert_eq!(v, 7),
        _ => panic!("a result was buffered"),
    }
    assert_eq!(engine.task_count(), 1);
    engine.cancel();
    assert_eq!(engine.task_count(), 0);
}

#[test]
fn engine_first_skips_nothing() {
    let mut engine: RuntimeEngine<&str> = RuntimeEngine::new(2);
    assert_eq!(engine.first(), None);
    engine.write_task(Priority::LOW);
    engine.deliver("done");
    assert_eq!(engine.first(), Some("done"));
    assert_eq!(engine.first(), None);
}

#[test]
fn value_group_folds_eleven_children_to_fifty_five() {
    let mut group: SpawnGroup<i64> = SpawnGroup::new(2);
    assert!(group.is_empty());
    for _ in 0..=10u32 {
        group.spawn_task(Priority::default());
    }
    assert!(!group.is_empty());
    for i in 0..=10i64 {
        group.deliver(i);
    }
    let mut accumulator: i64 = 0;
    loop {
        match group.poll_next() {
            StreamPoll::Ready(v) => accumulator += v,
            StreamPoll::Finished => break,
            StreamPoll::Pending => panic!("every child delivered"),
        }
    }
    assert_eq!(accumulator, 55);
    assert!(group.is_empty());
}

#[test]
fn err_group_classifies_results() {
    let mut group: ErrSpawnGroup<u8, DivisibleByError> = ErrSpawnGroup::new(1);
    for i in 1..=10u8 {
        group.spawn_task(Priority::default());
        if i % 3 == 0 {
            group.deliver(Err(DivisibleByError::Three));
        } else if i % 5 == 0 {
            group.deliver(Err(DivisibleByError::Five));
        } else {
            group.deliver(Ok(i));
        }
    }
    group.wait_for_all();
    let mut sum_result: u32 = 0;
    let mut divisible_by_three: u32 = 0;
    let mut divisible_by_five: u32 = 0;
    loop {
        match group.poll_next() {
            StreamPoll::Ready(Ok(v)) => sum_result += v as u32,
            StreamPoll::Ready(Err(DivisibleByError::Three)) => divisible_by_three += 1,
            StreamPoll::Ready(Err(DivisibleByError::Five)) => divisible_by_five += 1,
            StreamPoll::Finished => break,
            StreamPoll::Pending => panic!("every child delivered"),
        }
    }
    assert_eq!(sum_result, 22);
    assert_eq!(divisible_by_three, 3);
    assert_eq!(divisible_by_five, 2);
}

#[test]
fn cancel_stops_later_spawns() {
    let mut group: SpawnGroup<u32> = SpawnGroup::new(1);
    group.spawn_task(Priority::LOW);
    group.spawn_task(Priority::HIGH);
    group.cancel_all();
    assert!(group.is_cancelled);
    assert!(group.is_empty());
    let spawned = group.spawn_task_unlessed_cancelled(Priority::MEDIUM);
    assert!(!spawned, "a cancelled group spawns nothing");
    assert!(matches!(group.poll_next(), StreamPoll::Finished));
}

#[test]
fn cancelling_twice_changes_nothing_more() {
    let mut once: SpawnGroup<u32> = SpawnGroup::new(2);
    let mut twice: SpawnGroup<u32> = SpawnGroup::new(2);
    for g in [&mut once, &mut twice] {
        g.spawn_task(Priority::MEDIUM);
        g.spawn_task(Priority::HIGH);
        g.deliver(3);
        g.cancel_all();
    }
    twice.cancel_all();
    assert_eq!(once.is_cancelled, twice.is_cancelled);
    assert_eq!(once.is_empty(), twice.is_empty());
    // the buffered result survives either way, then the stream ends
    assert!(matches!(once.poll_next(), StreamPoll::Ready(3)));
    assert!(matches!(twice.poll_next(), StreamPoll::Ready(3)));
    assert!(matches!(once.poll_next(), StreamPoll::Finished));
    assert!(matches!(twice.poll_next(), StreamPoll::Finished));
}

#[test]
fn cancellation_keeps_delivered_results_readable() {
    let mut group: SpawnGroup<u32> = SpawnGroup::new(1);
    group.spawn_task(Priority::MEDIUM);
    group.spawn_task(Priority::MEDIUM);
    group.deliver(1);
    group.cancel_all();
    assert!(matches!(group.poll_next(), StreamPoll::Ready(1)));
    assert!(matches!(group.poll_next(), StreamPoll::Finished));
}

#[test]
fn discarding_group_settles_a_hundred_children() {
    let mut group = DiscardingSpawnGroup::new(4);
    for _ in 0..100u32 {
        group.spawn_task(Priority::default());
    }
    for _ in 0..100u32 {
        group.deliver();
    }
    group.wait_for_all();
    assert!(group.is_empty());
}

#[test]
fn drop_waits_unless_opted_out() {
    let mut group: SpawnGroup<u8> = SpawnGroup::new(1);
    assert_eq!(group.drop_mode(), DropAction::WaitForAll);
    group.dont_wait_at_drop();
    assert_eq!(group.drop_mode(), DropAction::End);

    let mut errs: ErrSpawnGroup<u8, u8> = ErrSpawnGroup::new(1);
    assert_eq!(errs.drop_mode(), DropAction::WaitForAll);
    errs.dont_wait_at_drop();
    assert_eq!(errs.drop_mode(), DropAction::End);

    let mut discarding = DiscardingSpawnGroup::new(1);
    assert_eq!(discarding.drop_mode(), DropAction::WaitForAll);
    discarding.dont_wait_at_drop();
    assert_eq!(discarding.drop_mode(), DropAction::End);
}

#[test]
fn wait_for_all_resets_the_group() {
    let mut group: SpawnGroup<u8> = SpawnGroup::new(2);
    group.spawn_task(Priority::MEDIUM);
    group.spawn_task(Priority::LOW);
    group.deliver(1);
    group.wait_for_all();
    assert!(group.is_empty());
    // the buffered result is still consumed, then the stream ends
    assert!(matches!(group.poll_next(), StreamPoll::Ready(1)));
    assert!(matches!(group.poll_next(), StreamPoll::Finished));
}

#[test]
fn err_group_wait_non_async_matches_wait_for_all() {
    let mut group: ErrSpawnGroup<u8, u8> = ErrSpawnGroup::new(1);
    group.spawn_task(Priority::MEDIUM);
    group.deliver(Ok(1));
    group.wait_non_async();
    assert!(group.is_empty());
}
