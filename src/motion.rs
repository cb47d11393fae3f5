//! The activity signal: when the user was last seen active, and the coarse
//! presence state reported to the outside.
use vstd::prelude::*;

verus! {

/// How long after the last observed activity reminders are still delivered.
pub const ACTIVITY_WINDOW_SECS: u64 = 900;

/// An idle time below this counts as activity.
pub const IDLE_THRESHOLD_SECS: u64 = 10;

/// The pause between two idle-time queries.
pub const IDLE_POLL_SECS: u64 = 10;

/// Coarse presence of the user.
#[derive(Debug, Clone, Copy, PartialEq, Eq, Structural)]
pub enum MotionStatus {
    Active,
    Inactive,
}

impl MotionStatus {
    /// The name under which the state is reported.
    pub open spec fn name(self) -> Seq<char> {
        match self {
            MotionStatus::Active => "active"@,
            MotionStatus::Inactive => "inactive"@,
        }
    }

    pub fn as_str(&self) -> (r: &'static str)
        ensures
            r@ == self.name(),
    {
        match self {
            MotionStatus::Active => "active",
            MotionStatus::Inactive => "inactive",
        }
    }
}

/// A change of presence state, from one poll result to the next.
#[derive(Debug, Clone, Copy, PartialEq, Eq, Structural)]
pub struct Transition {
    pub from: MotionStatus,
    pub to: MotionStatus,
}

/// Whether activity was seen at most `window` seconds before `now`. Nothing
/// recorded means not active.
pub open spec fn recently_active(last: Option<int>, now: int, window: int) -> bool {
    match last {
        Some(t) => now - t <= window,
        None => false,
    }
}

/// What a `MotionTracker` holds: the time of the last activity (in seconds on
/// the daemon's clock), if any, and the presence state.
pub struct TrackerModel {
    pub last_motion: Option<int>,
    pub status: MotionStatus,
}

impl TrackerModel {
    /// A tracker that has seen nothing yet.
    pub open spec fn initial() -> TrackerModel {
        TrackerModel { last_motion: None, status: MotionStatus::Inactive }
    }

    /// The tracker after activity was observed at `now`.
    pub open spec fn recorded(self, now: int) -> TrackerModel {
        TrackerModel { last_motion: Some(now), status: self.status }
    }

    /// The transition that setting the presence to `s` reports.
    pub open spec fn transition(self, s: MotionStatus) -> Option<Transition> {
        if self.status != s {
            Some(Transition { from: self.status, to: s })
        } else {
            None
        }
    }

    /// The tracker after the presence was set to `s`.
    pub open spec fn with_presence(self, s: MotionStatus) -> TrackerModel {
        TrackerModel { last_motion: self.last_motion, status: s }
    }

    /// The tracker after one idle-time reading of `idle` seconds at `now`.
    pub open spec fn observed(self, idle: int, now: int) -> TrackerModel {
        if idle < IDLE_THRESHOLD_SECS {
            self.recorded(now).with_presence(MotionStatus::Active)
        } else {
            self.with_presence(MotionStatus::Inactive)
        }
    }

    /// The transition that one idle-time reading of `idle` seconds reports.
    pub open spec fn observed_transition(self, idle: int) -> Option<Transition> {
        if idle < IDLE_THRESHOLD_SECS {
            self.transition(MotionStatus::Active)
        } else {
            self.transition(MotionStatus::Inactive)
        }
    }
}

/// The shared activity signal. Its two fields change independently:
/// `update_motion` writes the time of the last activity, `update_status` the
/// presence state.
pub struct MotionTracker {
    last_motion: Option<u64>,
    current_status: MotionStatus,
}

impl View for MotionTracker {
    type V = TrackerModel;

    closed spec fn view(&self) -> TrackerModel {
        TrackerModel {
            last_motion: match self.last_motion {
                Some(t) => Some(t as int),
                None => None,
            },
            status: self.current_status,
        }
    }
}

impl MotionTracker {
    pub fn new() -> (r: MotionTracker)
        ensures
            r@ == TrackerModel::initial(),
    {
        MotionTracker { last_motion: None, current_status: MotionStatus::Inactive }
    }

    /// Records activity observed at `now`.
    pub fn update_motion(&mut self, now: u64)
        ensures
            final(self)@ == old(self)@.recorded(now as int),
    {
        self.last_motion = Some(now);
    }

    /// Whether activity was recorded at most `window` seconds before `now`.
    pub fn is_recently_active(&self, now: u64, window: u64) -> (r: bool)
        ensures
            r == recently_active(self@.last_motion, now as int, window as int),
    {
        match self.last_motion {
            Some(t) => now <= t || now - t <= window,
            None => false,
        }
    }

    /// Whether a reminder due at `now` is delivered: activity within the
    /// fixed window.
    pub fn should_notify(&self, now: u64) -> (r: bool)
        ensures
            r == recently_active(self@.last_motion, now as int, ACTIVITY_WINDOW_SECS as int),
    {
        self.is_recently_active(now, ACTIVITY_WINDOW_SECS)
    }

    /// Sets the presence state, and returns the transition when it changed.
    pub fn update_status(&mut self, new_status: MotionStatus) -> (r: Option<Transition>)
        ensures
            r == old(self)@.transition(new_status),
            final(self)@ == old(self)@.with_presence(new_status),
    {
        if self.current_status != new_status {
            let from = self.current_status;
            self.current_status = new_status;
            Some(Transition { from, to: new_status })
        } else {
            None
        }
    }

    /// Takes one idle-time reading: below the threshold it records activity at
    /// `now` and sets the presence to active, otherwise it sets it to inactive
    /// and leaves the activity time as it was. Returns the transition, if any.
    pub fn observe_idle(&mut self, idle_seconds: u64, now: u64) -> (r: Option<Transition>)
        ensures
            final(self)@ == old(self)@.observed(idle_seconds as int, now as int),
            r == old(self)@.observed_transition(idle_seconds as int),
            final(self)@.status == MotionStatus::Active ==> final(self)@.last_motion == Some(
                now as int,
            ),
    {
        if idle_seconds < IDLE_THRESHOLD_SECS {
            self.update_motion(now);
            self.update_status(MotionStatus::Active)
        } else {
            self.update_status(MotionStatus::Inactive)
        }
    }

    /// The current presence state.
    pub fn status(&self) -> (r: MotionStatus)
        ensures
            r == self@.status,
    {
        self.current_status
    }
}

/// After activity at `t0`, the tracker counts as recently active at `now`
/// exactly when `now` is at most `window` seconds after `t0`.
pub proof fn lemma_activity_window(m: TrackerModel, t0: int, now: int, window: int)
    ensures
        recently_active(m.recorded(t0).last_motion, now, window) <==> now - t0 <= window,
{
}

/// A tracker that never saw activity is not recently active, at any time and
/// for any window.
pub proof fn lemma_no_activity_is_inactive(now: int, window: int)
    ensures
        !recently_active(TrackerModel::initial().last_motion, now, window),
{
}

/// Setting the same presence twice in a row reports at most one transition:
/// the first call reports one exactly when the state differed, the second
/// never does. From a fresh tracker, setting `Active` twice reports exactly one.
pub proof fn lemma_presence_edge_triggered(m: TrackerModel, s: MotionStatus)
    ensures
        m.transition(s) is Some <==> m.status != s,
        m.with_presence(s).transition(s) is None,
        TrackerModel::initial().transition(MotionStatus::Active) == Some(
            Transition { from: MotionStatus::Inactive, to: MotionStatus::Active },
        ),
        TrackerModel::initial().with_presence(MotionStatus::Active).transition(
            MotionStatus::Active,
        ) is None,
{
}

} // verus!
