//! The coalescing activity channel, as a verified model: a single slot that
//! holds at most one pending notification. A send while the slot is full is
//! absorbed — dropped, never queued and never blocking — so the consumer
//! learns only that some activity happened since its last poll, not how
//! much. The real channel carries these notifications between threads; this
//! model fixes what sending and receiving mean.

use vstd::prelude::*;

verus! {

/// The single-slot channel: `pending` says whether a notification is
/// waiting for the consumer.
#[derive(Clone, Copy, PartialEq, Eq, Structural, Debug)]
pub struct ActivityChannel {
    /// Whether a notification is pending.
    pub pending: bool,
}

/// The slot after one send: full, whatever it held before.
pub open spec fn spec_send(c: ActivityChannel) -> ActivityChannel {
    ActivityChannel { pending: true }
}

/// The slot after `n` consecutive sends with no poll in between.
pub open spec fn spec_after_sends(c: ActivityChannel, n: nat) -> ActivityChannel
    decreases n,
{
    if n == 0 {
        c
    } else {
        spec_send(spec_after_sends(c, (n - 1) as nat))
    }
}

impl ActivityChannel {
    /// An empty channel.
    pub fn new() -> (r: ActivityChannel)
        ensures
            !r.pending,
    {
        ActivityChannel { pending: false }
    }

    /// One activity notification from a reader: fills the slot; a send that
    /// finds the slot already full is absorbed. Returns whether this send
    /// was the one that filled the slot.
    pub fn send(&mut self) -> (stored: bool)
        ensures
            *final(self) == spec_send(*old(self)),
            stored == !old(self).pending,
    {
        let stored = !self.pending;
        self.pending = true;
        stored
    }

    /// The consumer's poll: reports whether any activity arrived since the
    /// last poll, and empties the slot.
    pub fn recv(&mut self) -> (r: bool)
        ensures
            r == old(self).pending,
            !final(self).pending,
    {
        let r = self.pending;
        self.pending = false;
        r
    }
}

/// Coalescing: however many sends arrive between two polls — including
/// sends that find the slot already full — exactly one notification is
/// pending afterwards, so the consumer's next poll observes activity, and
/// nothing is queued beyond that one slot.
pub proof fn lemma_coalescing(c: ActivityChannel, n: nat)
    requires
        n >= 1,
    ensures
        spec_after_sends(c, n).pending,
    decreases n,
{
    if n > 1 {
        lemma_coalescing(c, (n - 1) as nat);
    }
}

} // verus!
