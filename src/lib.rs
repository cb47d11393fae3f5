//! A desktop reminder daemon's core: recurring reminders gated on recent user
//! activity, edge-triggered presence reporting, and the text it hands to the
//! notifier and to the home-automation endpoint.
pub mod interval;
pub mod motion;
pub mod schedule;
pub mod notify;
pub mod presence;
