//! One reminder's timer: it waits one interval, then evaluates, and waits one
//! interval again after each evaluation. Late wake-ups are not caught up.
use vstd::prelude::*;
use vstd::arithmetic::div_mod::{lemma_basic_div_specific_divisor, lemma_div_plus_one};
use crate::motion::{recently_active, MotionTracker, TrackerModel, ACTIVITY_WINDOW_SECS};

verus! {

/// What a timer asks for when woken.
#[derive(Debug, Clone, Copy, PartialEq, Eq, Structural)]
pub enum TickOutcome {
    /// Not due yet: sleep this many seconds more.
    Wait(u64),
    /// Due, and the user was active recently: show the reminder.
    Deliver,
    /// Due, but the user was not active recently: skip it.
    Suppress,
}

/// What a `ReminderTimer` holds: its interval and the time of its next
/// evaluation, in seconds on the daemon's clock.
pub struct TimerModel {
    pub interval: int,
    pub next_due: int,
}

/// `a + b`, held at the largest `u64`.
pub open spec fn saturating_sum(a: int, b: int) -> int {
    if a + b > u64::MAX {
        u64::MAX as int
    } else {
        a + b
    }
}

/// A timer with interval `interval` started at `now`.
pub open spec fn started(interval: int, now: int) -> TimerModel {
    TimerModel { interval, next_due: saturating_sum(now, interval) }
}

/// One wake-up at `now`: the timer afterwards and what it asks for.
pub open spec fn poll_step(t: TimerModel, m: TrackerModel, now: int) -> (TimerModel, TickOutcome) {
    if now < t.next_due {
        (t, TickOutcome::Wait((t.next_due - now) as u64))
    } else {
        (
            TimerModel { interval: t.interval, next_due: saturating_sum(now, t.interval) },
            if recently_active(m.last_motion, now, ACTIVITY_WINDOW_SECS as int) {
                TickOutcome::Deliver
            } else {
                TickOutcome::Suppress
            },
        )
    }
}

/// How many of the wake-ups `wakes` deliver the reminder, the activity signal
/// being `m` throughout.
pub open spec fn deliveries(t: TimerModel, m: TrackerModel, wakes: Seq<int>) -> nat
    decreases wakes.len(),
{
    if wakes.len() == 0 {
        0
    } else {
        let (next, outcome) = poll_step(t, m, wakes[0]);
        (if outcome == TickOutcome::Deliver {
            1nat
        } else {
            0nat
        }) + deliveries(next, m, wakes.drop_first())
    }
}

/// How many of the wake-ups `wakes` evaluate the reminder (deliver or skip).
pub open spec fn evaluations(t: TimerModel, m: TrackerModel, wakes: Seq<int>) -> nat
    decreases wakes.len(),
{
    if wakes.len() == 0 {
        0
    } else {
        let (next, outcome) = poll_step(t, m, wakes[0]);
        (if outcome is Wait {
            0nat
        } else {
            1nat
        }) + evaluations(next, m, wakes.drop_first())
    }
}

/// The wake-ups `first`, `first + 1`, ..., one each second, `n` of them.
pub open spec fn every_second(first: int, n: nat) -> Seq<int> {
    Seq::new(n, |k: int| first + k)
}

/// The timer of one reminder.
pub struct ReminderTimer {
    interval: u64,
    next_due: u64,
}

impl View for ReminderTimer {
    type V = TimerModel;

    closed spec fn view(&self) -> TimerModel {
        TimerModel { interval: self.interval as int, next_due: self.next_due as int }
    }
}

impl ReminderTimer {
    /// A timer whose first evaluation comes one interval after `now`.
    pub fn start(interval: u64, now: u64) -> (r: ReminderTimer)
        ensures
            r@ == started(interval as int, now as int),
    {
        ReminderTimer { interval, next_due: now.saturating_add(interval) }
    }

    /// Wakes the timer at `now`. Before its time it asks to wait; at or after
    /// it, it evaluates once against the activity signal and sets the next
    /// evaluation one interval after `now`.
    pub fn poll(&mut self, now: u64, tracker: &MotionTracker) -> (r: TickOutcome)
        ensures
            (final(self)@, r) == poll_step(old(self)@, tracker@, now as int),
    {
        if now < self.next_due {
            TickOutcome::Wait(self.next_due - now)
        } else {
            self.next_due = now.saturating_add(self.interval);
            if tracker.should_notify(now) {
                TickOutcome::Deliver
            } else {
                TickOutcome::Suppress
            }
        }
    }

    /// The interval in seconds.
    pub fn interval(&self) -> (r: u64)
        ensures
            r == self@.interval,
    {
        self.interval
    }
}

/// Without any recorded activity no wake-up ever delivers the reminder,
/// however many there are.
pub proof fn lemma_no_activity_no_delivery(t: TimerModel, m: TrackerModel, wakes: Seq<int>)
    requires
        m.last_motion is None,
    ensures
        deliveries(t, m, wakes) == 0,
    decreases wakes.len(),
{
    if wakes.len() > 0 {
        let (next, _) = poll_step(t, m, wakes[0]);
        lemma_no_activity_no_delivery(next, m, wakes.drop_first());
    }
}

/// Once activity is recorded at `t0`, a wake-up at or after the due time and
/// within the activity window of `t0` delivers the reminder.
pub proof fn lemma_due_after_activity_delivers(t: TimerModel, m: TrackerModel, t0: int, now: int)
    requires
        t.next_due <= now,
        now - t0 <= ACTIVITY_WINDOW_SECS,
    ensures
        poll_step(t, m.recorded(t0), now).1 == TickOutcome::Deliver,
{
}

/// Polled once a second from `first` on, `n` times, a timer due at or after
/// `first` evaluates at its due time and then once per interval.
proof fn lemma_evaluations_every_second(t: TimerModel, m: TrackerModel, first: int, n: nat)
    requires
        t.interval >= 1,
        first <= t.next_due,
        first + n + t.interval <= u64::MAX,
    ensures
        evaluations(t, m, every_second(first, n)) == if t.next_due <= first + n - 1 {
            (first + n - 1 - t.next_due) / t.interval + 1
        } else {
            0
        },
    decreases n,
{
    if n > 0 {
        let wakes = every_second(first, n);
        assert(wakes.drop_first() =~= every_second(first + 1, (n - 1) as nat));
        let (next, _) = poll_step(t, m, first);
        lemma_evaluations_every_second(next, m, first + 1, (n - 1) as nat);
        if first == t.next_due {
            let i = t.interval;
            let x = n - 1;
            if i <= x {
                lemma_div_plus_one(x - i, i);
            } else {
                lemma_basic_div_specific_divisor(i);
            }
        }
    }
}

/// A timer started at `start` and woken every second for `seconds` seconds
/// evaluates `seconds / interval` times, whatever the activity signal and
/// whatever other timers do: an interval of 1 gives 5 evaluations in 5
/// seconds, an interval of 5 gives 1.
pub proof fn lemma_independent_timing(interval: int, start: int, seconds: nat, m: TrackerModel)
    requires
        interval >= 1,
        0 <= start,
        start + seconds + 2 * interval <= u64::MAX,
    ensures
        evaluations(started(interval, start), m, every_second(start + 1, seconds)) == (
            seconds as int) / interval,
{
    let t = started(interval, start);
    lemma_evaluations_every_second(t, m, start + 1, seconds);
    if interval <= seconds {
        lemma_div_plus_one(seconds - interval, interval);
    } else {
        lemma_basic_div_specific_divisor(interval);
    }
}

} // verus!
