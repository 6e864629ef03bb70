//! The activity monitor's state and its single-step transition.
//!
//! The monitor is a polled state machine. Each poll hands it the current
//! pointer position and the current time; the step decides the next state and
//! whether an inactivity notification is due. Time is a monotone tick count
//! (the driving loop uses milliseconds); the monitor never reads a clock
//! itself, so it can be driven deterministically.

use vstd::prelude::*;

verus! {

/// Duration of no pointer movement after which the user counts as idle,
/// in milliseconds.
pub const DEFAULT_IDLE_THRESHOLD_MILLIS: u64 = 300_000;

/// Cadence at which the driving loop samples the pointer, in milliseconds.
pub const DEFAULT_POLL_INTERVAL_MILLIS: u64 = 30_000;

/// A global pointer coordinate pair.
#[derive(Clone, Copy, PartialEq, Eq, Structural, Debug)]
pub struct Position {
    pub x: i32,
    pub y: i32,
}

/// The activity monitor's whole state.
///
/// `is_active` is seeded `true` at startup and flips to `false` exactly once
/// per idle period, at the first poll whose elapsed time since
/// `last_activity` strictly exceeds `idle_threshold`; any observed movement
/// flips it back and resets the timer.
pub struct Monitor {
    /// Duration of no movement after which the user counts as idle.
    pub idle_threshold: u64,
    /// Last observed pointer position.
    pub last_position: Position,
    /// Time of the most recent observed position change (or of startup).
    pub last_activity: u64,
    /// Whether the user currently counts as active.
    pub is_active: bool,
}

/// Whether a sampled position counts as movement: it differs from the last
/// observed one. A pointer that returns to exactly its previous sampled
/// coordinate does not count, since only positions are compared.
pub open spec fn step_moves(m: Monitor, sample: Position) -> bool {
    sample != m.last_position
}

/// Whether a poll emits the inactivity notification: no movement observed,
/// the monitor still counts the user active, and the elapsed time since the
/// last activity strictly exceeds the threshold.
pub open spec fn step_notifies(m: Monitor, sample: Position, now: u64) -> bool {
    &&& !step_moves(m, sample)
    &&& m.is_active
    &&& now > m.last_activity + m.idle_threshold
}

/// The monitor's state after one poll with the given sample and time.
pub open spec fn step_state(m: Monitor, sample: Position, now: u64) -> Monitor {
    if step_moves(m, sample) {
        Monitor {
            idle_threshold: m.idle_threshold,
            last_position: sample,
            last_activity: now,
            is_active: true,
        }
    } else if step_notifies(m, sample, now) {
        Monitor {
            idle_threshold: m.idle_threshold,
            last_position: m.last_position,
            last_activity: m.last_activity,
            is_active: false,
        }
    } else {
        m
    }
}

impl Monitor {
    /// Creates the monitor from the first sample. The monitor starts active,
    /// whatever the initial pointer position, with its idle timer anchored at
    /// `now`.
    pub fn new(initial: Position, now: u64, idle_threshold: u64) -> (m: Monitor)
        ensures
            m.is_active,
            m.last_position == initial,
            m.last_activity == now,
            m.idle_threshold == idle_threshold,
    {
        Monitor { idle_threshold, last_position: initial, last_activity: now, is_active: true }
    }

    /// One poll: observes the current pointer position at time `now`, updates
    /// the state as `step_state` says, and returns whether the caller must
    /// emit the inactivity notification, which `step_notifies` pins down:
    /// exactly at the transition from active to idle, never again while the
    /// pointer stays put, and never when the elapsed time merely equals the
    /// threshold.
    pub fn poll(&mut self, sample: Position, now: u64) -> (notify: bool)
        requires
            now >= old(self).last_activity,
        ensures
            *final(self) == step_state(*old(self), sample, now),
            notify == step_notifies(*old(self), sample, now),
    {
        if sample != self.last_position {
            self.last_position = sample;
            self.last_activity = now;
            self.is_active = true;
        }
        if self.is_active && now - self.last_activity > self.idle_threshold {
            self.is_active = false;
            true
        } else {
            false
        }
    }
}

} // verus!
