use pomo_cli::timer::{Timer, TimerEvent, TimerState, TimerType};

#[test]
fn new_timer_is_stopped_with_full_duration() {
    let t = Timer::new(TimerType::Work, 1000);
    assert!(matches!(t.state, TimerState::Stopped));
    assert_eq!(t.remaining, 1000);
    assert_eq!(t.total_duration, 1000);
    assert_eq!(t.epoch, 0);
    assert_eq!(t.time_left(12345), 1000);
}

#[test]
fn time_left_is_monotonically_non_increasing_while_running() {
    let mut t = Timer::new(TimerType::Work, 1000);
    t.start(100);
    let samples = [100u64, 100, 350, 600, 600, 1099, 1100, 1500];
    let mut prev = t.time_left(samples[0]);
    for &now in samples.iter() {
        let left = t.time_left(now);
        assert!(left <= prev);
        prev = left;
    }
}

#[test]
fn time_left_reaches_exactly_zero_at_natural_expiry() {
    let mut t = Timer::new(TimerType::Break, 500);
    t.start(0);
    assert_eq!(t.time_left(499), 1);
    assert_eq!(t.time_left(500), 0);
    assert_eq!(t.time_left(501), 0);
}

#[test]
fn pause_then_start_is_lossless() {
    let mut t = Timer::new(TimerType::Work, 1000);
    t.start(0);
    t.pause(400);
    assert_eq!(t.remaining, 600);
    t.start(400);
    assert_eq!(t.time_left(400), 600);
}

#[test]
fn pause_stores_the_live_remainder() {
    let mut t = Timer::new(TimerType::Work, 1000);
    t.start(100);
    let eff = t.pause(350);
    assert!(matches!(t.state, TimerState::Paused));
    assert_eq!(t.remaining, 750);
    assert_eq!(t.time_left(9999), 750);
    assert!(eff.cancel);
    assert!(eff.schedule.is_none());
}

#[test]
fn pause_of_a_stopped_timer_is_a_no_op() {
    let mut t = Timer::new(TimerType::Work, 1000);
    t.on(TimerEvent::Pause, 5);
    let eff = t.pause(200);
    assert!(matches!(t.state, TimerState::Stopped));
    assert_eq!(t.remaining, 1000);
    assert_eq!(t.epoch, 0);
    assert!(eff.emits.is_empty());
    assert!(!eff.cancel);
}

#[test]
fn start_while_running_is_a_no_op() {
    let mut t = Timer::new(TimerType::Work, 1000);
    t.on(TimerEvent::Start, 3);
    let first = t.start(0);
    assert_eq!(first.emits.len(), 1);
    let epoch_after_first = t.epoch;
    let second = t.start(50);
    assert_eq!(t.epoch, epoch_after_first);
    assert!(second.emits.is_empty());
    assert!(second.schedule.is_none());
}

#[test]
fn start_schedules_the_remainder_under_the_new_epoch() {
    let mut t = Timer::new(TimerType::Work, 1000);
    t.start(0);
    t.pause(400);
    let eff = t.start(1000);
    let sched = eff.schedule.expect("a schedule");
    assert_eq!(sched.delay, 600);
    assert_eq!(sched.epoch, t.epoch);
    assert_eq!(t.time_left(1300), 300);
}

#[test]
fn stop_keeps_the_remainder_and_emits_stop_not_finish() {
    let mut t = Timer::new(TimerType::Work, 1000);
    t.on(TimerEvent::Stop, 8);
    t.on(TimerEvent::Finish, 9);
    t.start(0);
    let eff = t.stop();
    assert!(matches!(t.state, TimerState::Stopped));
    assert_eq!(t.remaining, 1000);
    assert!(eff.cancel);
    assert!(!eff.finished);
    assert_eq!(eff.emits.len(), 1);
    assert_eq!(eff.emits[0].handler, 8);
    assert!(matches!(eff.emits[0].event, TimerEvent::Stop));
}

#[test]
fn matching_completion_expires_the_timer() {
    let mut t = Timer::new(TimerType::Work, 1000);
    t.on(TimerEvent::Finish, 4);
    let eff = t.start(0);
    let stamp = eff.schedule.expect("a schedule").epoch;
    let done = t.complete(stamp);
    assert!(matches!(t.state, TimerState::Stopped));
    assert_eq!(t.remaining, 0);
    assert_eq!(t.time_left(5000), 0);
    assert!(done.finished);
    assert_eq!(done.emits.len(), 1);
    assert_eq!(done.emits[0].handler, 4);
    assert!(matches!(done.emits[0].event, TimerEvent::Finish));
}

#[test]
fn stale_completion_after_stop_changes_nothing() {
    let mut t = Timer::new(TimerType::Work, 1000);
    t.on(TimerEvent::Finish, 4);
    let eff = t.start(0);
    let stamp = eff.schedule.expect("a schedule").epoch;
    t.stop();
    let state_before = t.state;
    let remaining_before = t.remaining;
    let stale = t.complete(stamp);
    assert!(matches!(t.state, TimerState::Stopped));
    assert!(matches!(state_before, TimerState::Stopped));
    assert_eq!(t.remaining, remaining_before);
    assert!(!stale.finished);
    assert!(stale.emits.is_empty());
}

#[test]
fn stale_completion_after_pause_changes_nothing() {
    let mut t = Timer::new(TimerType::Work, 1000);
    t.on(TimerEvent::Finish, 4);
    let eff = t.start(0);
    let stamp = eff.schedule.expect("a schedule").epoch;
    t.pause(250);
    let stale = t.complete(stamp);
    assert!(matches!(t.state, TimerState::Paused));
    assert_eq!(t.remaining, 750);
    assert!(!stale.finished);
    assert!(stale.emits.is_empty());
}

#[test]
fn start_notifies_handlers_in_registration_order() {
    let mut t = Timer::new(TimerType::Work, 1000);
    t.on(TimerEvent::Start, 11);
    t.on(TimerEvent::Start, 22);
    t.on(TimerEvent::Stop, 33);
    let eff = t.start(0);
    let handlers: Vec<u64> = eff.emits.iter().map(|e| e.handler).collect();
    assert_eq!(handlers, vec![11, 22]);
    for e in eff.emits.iter() {
        assert!(matches!(e.event, TimerEvent::Start));
        assert!(matches!(e.timer_type, TimerType::Work));
    }
}

#[test]
fn clone_copies_the_countdown_but_no_handlers() {
    let mut t = Timer::new(TimerType::Break, 800);
    t.on(TimerEvent::Start, 1);
    t.start(0);
    t.pause(300);
    let mut copy = t.clone();
    assert!(matches!(copy.timer_type, TimerType::Break));
    assert_eq!(copy.remaining, 500);
    assert!(matches!(copy.state, TimerState::Paused));
    let eff = copy.start(400);
    assert!(eff.emits.is_empty());
}

#[test]
fn label_names_work_and_break() {
    assert_eq!(TimerType::Work.label(), "work");
    assert_eq!(TimerType::Break.label(), "break");
    assert_eq!(TimerType::LongBreak.label(), "break");
}
