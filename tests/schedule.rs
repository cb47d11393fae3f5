use pushel::motion::MotionTracker;
use pushel::schedule::{ReminderTimer, TickOutcome};

fn count(outcomes: &[TickOutcome], wanted: TickOutcome) -> usize {
    outcomes.iter().filter(|o| **o == wanted).count()
}

#[test]
fn first_evaluation_after_one_interval() {
    let m = MotionTracker::new();
    let mut t = ReminderTimer::start(60, 1000);
    assert_eq!(t.poll(1000, &m), TickOutcome::Wait(60));
    assert_eq!(t.poll(1059, &m), TickOutcome::Wait(1));
    assert_eq!(t.poll(1060, &m), TickOutcome::Suppress);
    assert_eq!(t.poll(1061, &m), TickOutcome::Wait(59));
    assert_eq!(t.interval(), 60);
}

#[test]
fn suppressed_without_activity_then_delivered() {
    let mut m = MotionTracker::new();
    let mut t = ReminderTimer::start(1, 0);
    let mut outcomes = Vec::new();
    for now in 1..=3u64 {
        outcomes.push(t.poll(now, &m));
    }
    assert_eq!(count(&outcomes, TickOutcome::Deliver), 0);
    assert_eq!(count(&outcomes, TickOutcome::Suppress), 3);
    m.update_motion(3);
    assert_eq!(t.poll(4, &m), TickOutcome::Deliver);
}

#[test]
fn late_wake_up_is_not_caught_up() {
    let mut m = MotionTracker::new();
    m.update_motion(0);
    let mut t = ReminderTimer::start(10, 0);
    // woken long after three intervals passed: one evaluation only
    assert_eq!(t.poll(35, &m), TickOutcome::Deliver);
    assert_eq!(t.poll(36, &m), TickOutcome::Wait(9));
    assert_eq!(t.poll(45, &m), TickOutcome::Deliver);
}

#[test]
fn independent_intervals_over_five_seconds() {
    let m = MotionTracker::new();
    let mut fast = ReminderTimer::start(1, 100);
    let mut slow = ReminderTimer::start(5, 100);
    let mut fast_evals = 0;
    let mut slow_evals = 0;
    for now in 101..=105u64 {
        if !matches!(fast.poll(now, &m), TickOutcome::Wait(_)) {
            fast_evals += 1;
        }
        if !matches!(slow.poll(now, &m), TickOutcome::Wait(_)) {
            slow_evals += 1;
        }
    }
    assert_eq!(fast_evals, 5);
    assert_eq!(slow_evals, 1);
}

#[test]
fn due_time_saturates() {
    let m = MotionTracker::new();
    let mut t = ReminderTimer::start(u64::MAX, 10);
    assert_eq!(t.poll(10, &m), TickOutcome::Wait(u64::MAX - 10));
}

#[test]
fn outside_window_is_suppressed() {
    let mut m = MotionTracker::new();
    m.update_motion(0);
    let mut t = ReminderTimer::start(901, 0);
    assert_eq!(t.poll(901, &m), TickOutcome::Suppress);
}
