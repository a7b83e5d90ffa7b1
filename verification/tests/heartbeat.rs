use chorus::gateway::heartbeat::{
    add_delay, HeartbeatAction, HeartbeatPhase, HeartbeatScheduler, JITTER_SCALE,
};

#[test]
fn first_beat_is_jittered_and_later_beats_wait_a_full_interval() {
    let mut scheduler = HeartbeatScheduler::new(41250, 500_000).unwrap();
    assert_eq!(scheduler.phase(), HeartbeatPhase::Idle);
    assert_eq!(scheduler.interval_ms(), 41250);
    scheduler.arm(1_000);
    assert_eq!(scheduler.phase(), HeartbeatPhase::Armed);
    assert_eq!(scheduler.deadline(), 1_000 + 20_625);
    assert_eq!(scheduler.poll(21_624, Some(7)), HeartbeatAction::Wait);
    assert_eq!(
        scheduler.poll(21_625, Some(7)),
        HeartbeatAction::Beat { sequence: Some(7) }
    );
    assert_eq!(scheduler.phase(), HeartbeatPhase::AwaitingAck);
    assert_eq!(scheduler.deadline(), 21_625 + 41_250);
    assert!(scheduler.acknowledge(21_700));
    assert_eq!(scheduler.phase(), HeartbeatPhase::Armed);
    assert_eq!(scheduler.deadline(), 21_700 + 41_250);
    assert_eq!(scheduler.poll(62_949, None), HeartbeatAction::Wait);
    assert_eq!(scheduler.poll(62_950, None), HeartbeatAction::Beat { sequence: None });
    assert_eq!(scheduler.deadline(), 62_950 + 41_250);
}

#[test]
fn first_delay_is_the_interval_scaled_and_rounded_down() {
    for (jitter, delay) in [(0u32, 0u64), (1, 0), (25, 1), (333_333, 13_749), (1_000_000, 41_250)] {
        let mut scheduler = HeartbeatScheduler::new(41250, jitter).unwrap();
        scheduler.arm(0);
        assert_eq!(scheduler.deadline(), delay, "{jitter}");
    }
    let mut scheduler = HeartbeatScheduler::new(u64::MAX, JITTER_SCALE).unwrap();
    scheduler.arm(0);
    assert_eq!(scheduler.deadline(), u64::MAX);
}

#[test]
fn jitter_above_one_is_refused() {
    assert!(HeartbeatScheduler::new(41250, JITTER_SCALE).is_some());
    assert!(HeartbeatScheduler::new(41250, JITTER_SCALE + 1).is_none());
    assert!(HeartbeatScheduler::new(0, 0).is_some());
}

#[test]
fn missed_ack_is_signalled_exactly_once() {
    let mut scheduler = HeartbeatScheduler::new(1_000, JITTER_SCALE).unwrap();
    scheduler.arm(0);
    assert_eq!(scheduler.poll(1_000, None), HeartbeatAction::Beat { sequence: None });
    assert_eq!(scheduler.poll(1_500, None), HeartbeatAction::Wait);
    assert_eq!(scheduler.poll(1_999, None), HeartbeatAction::Wait);
    assert_eq!(scheduler.poll(2_000, None), HeartbeatAction::Zombie);
    assert_eq!(scheduler.phase(), HeartbeatPhase::Missed);
    assert_eq!(scheduler.poll(2_001, None), HeartbeatAction::Wait);
    assert_eq!(scheduler.poll(9_000, None), HeartbeatAction::Wait);
    assert_eq!(scheduler.poll(u64::MAX, None), HeartbeatAction::Wait);
    assert!(!scheduler.acknowledge(9_001));
    assert_eq!(scheduler.phase(), HeartbeatPhase::Missed);
}

#[test]
fn ack_in_time_prevents_the_zombie() {
    let mut scheduler = HeartbeatScheduler::new(1_000, 0).unwrap();
    scheduler.arm(0);
    assert_eq!(scheduler.poll(0, Some(1)), HeartbeatAction::Beat { sequence: Some(1) });
    assert!(scheduler.acknowledge(999));
    assert_eq!(scheduler.poll(1_000, Some(1)), HeartbeatAction::Wait);
    assert_eq!(scheduler.poll(1_999, Some(2)), HeartbeatAction::Beat { sequence: Some(2) });
}

#[test]
fn stray_ack_changes_nothing() {
    let mut scheduler = HeartbeatScheduler::new(1_000, 0).unwrap();
    assert!(!scheduler.acknowledge(5));
    assert_eq!(scheduler.phase(), HeartbeatPhase::Idle);
    scheduler.arm(10);
    let before = scheduler;
    assert!(!scheduler.acknowledge(20));
    assert_eq!(scheduler, before);
}

#[test]
fn idle_scheduler_never_beats() {
    let mut scheduler = HeartbeatScheduler::new(1_000, 0).unwrap();
    assert_eq!(scheduler.poll(u64::MAX, None), HeartbeatAction::Wait);
    scheduler.arm(0);
    scheduler.stop();
    assert_eq!(scheduler.phase(), HeartbeatPhase::Idle);
    assert_eq!(scheduler.poll(u64::MAX, None), HeartbeatAction::Wait);
    scheduler.arm(50);
    assert_eq!(scheduler.poll(50, None), HeartbeatAction::Beat { sequence: None });
}

#[test]
fn deadlines_saturate_at_the_end_of_time() {
    assert_eq!(add_delay(5, 7), 12);
    assert_eq!(add_delay(u64::MAX - 1, 1), u64::MAX);
    assert_eq!(add_delay(u64::MAX - 1, 2), u64::MAX);
    assert_eq!(add_delay(u64::MAX, u64::MAX), u64::MAX);
    let mut scheduler = HeartbeatScheduler::new(1_000, 0).unwrap();
    scheduler.arm(u64::MAX - 10);
    assert_eq!(scheduler.poll(u64::MAX - 10, None), HeartbeatAction::Beat { sequence: None });
    assert_eq!(scheduler.deadline(), u64::MAX);
}
