//! The orchestrator's handle on the input side: the consuming end of the
//! coalescing activity channel. The hotplug monitor and the per-device
//! reader threads, which live outside the core, hold the sending end and
//! send one unit notification per burst of device activity.

use std::sync::mpsc::Receiver;
use vstd::prelude::*;

use crate::config::General;

verus! {

/// How long a reader sleeps after draining a burst of events, in
/// milliseconds. The throttle keeps bursty devices such as trackpads from
/// saturating the notification path.
pub const READER_POLL_INTERVAL_MS: u64 = 350;

/// How many event batches a reader drains per wake-up, so a flood of
/// events cannot keep it busy without bound.
pub const READ_BATCHES_PER_WAKEUP: usize = 16;

/// The reader throttle keeps up with the tightest idle timeout: even after
/// sleeping the full interval between wake-ups, a busy device notifies the
/// orchestrator well within the shortest configurable one-second window.
pub proof fn lemma_reader_outpaces_timeout(general: General)
    requires
        general.spec_timeout() >= 1,
    ensures
        READER_POLL_INTERVAL_MS < general.spec_timeout() * 1000,
{
}

#[verifier::external_type_specification]
#[verifier::external_body]
#[verifier::reject_recursive_types(T)]
pub struct ExReceiver<T>(Receiver<T>);

/// Relies on std's `Receiver::recv_timeout`: it returns `Ok` only when a
/// notification arrived before the timeout elapsed. Whether one arrives
/// depends on the reader threads and on real time, so nothing is promised
/// of the result.
#[verifier::external_body]
fn recv_for(recv: &Receiver<()>, ms: u64) -> bool {
    recv.recv_timeout(std::time::Duration::from_millis(ms)).is_ok()
}

/// The wait budget until an absolute deadline: the time remaining from
/// `now_ms`, saturating at zero once the deadline has passed, so a wait
/// with this budget never outlasts the deadline.
pub fn remaining_ms(deadline_ms: u64, now_ms: u64) -> (r: u64)
    ensures
        r == if deadline_ms > now_ms {
            deadline_ms - now_ms
        } else {
            0int
        },
{
    if deadline_ms > now_ms {
        deadline_ms - now_ms
    } else {
        0
    }
}

/// The consuming end of the activity channel.
pub struct InputHandler {
    recv: Receiver<()>,
}

impl InputHandler {
    /// Wraps the consuming end of the activity channel.
    pub fn new(recv: Receiver<()>) -> InputHandler {
        InputHandler { recv }
    }

    /// Waits for an activity notification until the absolute deadline, both
    /// times in milliseconds on the caller's clock. The budget handed to
    /// the underlying wait is exactly `remaining_ms(deadline_ms, now_ms)`:
    /// the wait is bounded by the deadline, and a deadline already in the
    /// past does not wait at all. Whether a notification arrives is up to
    /// the reader threads, so nothing is promised of the result.
    pub fn wait_deadline(&self, deadline_ms: u64, now_ms: u64) -> bool {
        recv_for(&self.recv, remaining_ms(deadline_ms, now_ms))
    }
}

} // verus!
