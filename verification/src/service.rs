//! The idle-timeout state machine: turns "did any activity arrive before the
//! deadline" polls into on/off decisions and fade orders. The surrounding
//! binary owns the clock and the channel wait; every decision is made here.

use vstd::prelude::*;

use crate::config::General;

verus! {

/// The orchestrator's state: the current on/off state, the time of the most
/// recent poll, and the idle timeout. Times are milliseconds on the caller's
/// monotonic clock.
#[derive(Clone, Copy, PartialEq, Eq, Structural, Debug)]
pub struct Service {
    /// Whether the backlight is currently on.
    pub on: bool,
    /// When the most recent poll completed, in milliseconds.
    pub last_change_ms: u64,
    /// The idle timeout, in milliseconds.
    pub timeout_ms: u64,
}

/// The idle timeout in milliseconds for the configured timeout in seconds.
pub fn timeout_ms_of(general: &General) -> (r: u64)
    ensures
        r == general.spec_timeout() * 1000,
        r >= 1000,
{
    (general.timeout() as u64) * 1000
}

/// The state after one orchestrator decision made at time `now_ms`: the
/// backlight is on exactly when an activity signal was observed, and the
/// rolling inactivity window restarts at `now_ms` whether or not the state
/// changed.
pub open spec fn spec_step_state(s: Service, activity: bool, now_ms: u64) -> Service {
    Service { on: activity, last_change_ms: now_ms, timeout_ms: s.timeout_ms }
}

/// The fade order that decision gives: a fade toward the new state exactly
/// when the state changed, nothing otherwise.
pub open spec fn spec_step_action(s: Service, activity: bool) -> Option<bool> {
    if s.on != activity {
        Some(activity)
    } else {
        None
    }
}

impl Service {
    /// A fresh service: off, with the inactivity window starting now.
    pub fn new(timeout_ms: u64, now_ms: u64) -> (r: Service)
        ensures
            !r.on,
            r.last_change_ms == now_ms,
            r.timeout_ms == timeout_ms,
    {
        Service { on: false, last_change_ms: now_ms, timeout_ms }
    }

    /// The absolute deadline of the next poll: the last poll time plus the
    /// idle timeout, saturating at the end of the clock's range.
    pub open spec fn spec_deadline(self) -> int {
        if self.last_change_ms + self.timeout_ms <= u64::MAX {
            self.last_change_ms + self.timeout_ms
        } else {
            u64::MAX as int
        }
    }

    /// The absolute deadline of the next poll.
    pub fn poll_deadline(&self) -> (r: u64)
        ensures
            r == self.spec_deadline(),
    {
        if self.last_change_ms <= u64::MAX - self.timeout_ms {
            self.last_change_ms + self.timeout_ms
        } else {
            u64::MAX
        }
    }

    /// One orchestrator decision: `activity` says whether a notification
    /// arrived before the deadline. The new state is exactly `activity`, the
    /// window restarts now, and a fade toward the new state is ordered
    /// exactly when the state changed.
    pub fn step(&mut self, activity: bool, now_ms: u64) -> (action: Option<bool>)
        ensures
            *final(self) == spec_step_state(*old(self), activity, now_ms),
            action == spec_step_action(*old(self), activity),
    {
        self.last_change_ms = now_ms;
        if self.on != activity {
            self.on = activity;
            Some(activity)
        } else {
            None
        }
    }
}

/// Debounce timing: an activity signal observed at time `t` turns the
/// service on and resets the poll deadline to exactly `t` plus the timeout.
/// The service changes state only inside a poll, and the next poll happens
/// no earlier than that deadline; a silent poll at the deadline turns the
/// service off and orders the fade-off then, not earlier.
pub proof fn lemma_debounce(s: Service, t: u64)
    requires
        t + s.timeout_ms <= u64::MAX,
    ensures
        spec_step_state(s, true, t).on,
        spec_step_state(s, true, t).spec_deadline() == t + s.timeout_ms,
        !spec_step_state(spec_step_state(s, true, t), false, (t + s.timeout_ms) as u64).on,
        spec_step_action(spec_step_state(s, true, t), false) == Some(false),
{
}

} // verus!
