use vstd::prelude::*;

verus! {

/// The pong-signal slot: a single-capacity mailbox. Packet dispatch delivers
/// into it on every inbound `Pong`; the heartbeat task is its only consumer.
/// The single slot intentionally coalesces excess signals — liveness is
/// binary, not a counted event. The consumer side must be claimed exactly
/// once, by the one heartbeat task of the socket.
pub struct PongSlot {
    occupied: bool,
    claimed: bool,
}

/// Mathematical state of a pong slot.
pub struct PongModel {
    /// whether an undelivered liveness signal is pending
    pub occupied: bool,
    /// whether a heartbeat task has claimed the consumer side
    pub claimed: bool,
}

/// What delivering a liveness signal does: the slot becomes occupied; a
/// signal already pending is coalesced, never queued and never an error.
pub open spec fn spec_deliver(m: PongModel) -> PongModel {
    PongModel { occupied: true, ..m }
}

/// What consuming the slot does: empties it and reports whether a signal was
/// pending.
pub open spec fn spec_take(m: PongModel) -> (PongModel, bool) {
    (PongModel { occupied: false, ..m }, m.occupied)
}

impl View for PongSlot {
    type V = PongModel;

    closed spec fn view(&self) -> PongModel {
        PongModel { occupied: self.occupied, claimed: self.claimed }
    }
}

impl PongSlot {
    /// A fresh slot: empty and unclaimed.
    pub fn new() -> (s: PongSlot)
        ensures
            s@ == (PongModel { occupied: false, claimed: false }),
    {
        PongSlot { occupied: false, claimed: false }
    }

    /// Delivers a liveness signal, coalescing with any signal already pending.
    pub fn deliver(&mut self)
        ensures
            final(self)@ == spec_deliver(old(self)@),
    {
        self.occupied = true;
    }

    /// Claims the consumer side for the heartbeat task. At most one claimant
    /// may ever exist: a second claim is a lifecycle bug, which the caller
    /// must rule out before calling.
    pub fn claim(&mut self)
        requires
            !old(self)@.claimed,
        ensures
            final(self)@ == (PongModel { claimed: true, ..old(self)@ }),
    {
        self.claimed = true;
    }

    /// Consumes the slot: reports whether a signal was pending and empties
    /// it. Only the claimant (the heartbeat task) may consume.
    pub fn take(&mut self) -> (r: bool)
        requires
            old(self)@.claimed,
        ensures
            (final(self)@, r) == spec_take(old(self)@),
    {
        let was = self.occupied;
        self.occupied = false;
        was
    }

    /// Whether a heartbeat task has claimed the consumer side.
    pub fn is_claimed(&self) -> (b: bool)
        ensures
            b == self@.claimed,
    {
        self.claimed
    }
}

/// Law: pong signals coalesce. Any number of consecutive deliveries leaves
/// the slot in the same state as a single one; the next take is satisfied
/// exactly once, and a second take without a new delivery finds nothing.
pub proof fn lemma_pong_coalescing(m: PongModel)
    ensures
        spec_deliver(spec_deliver(m)) == spec_deliver(m),
        spec_take(spec_deliver(m)).1 == true,
        spec_take(spec_deliver(m)).0.occupied == false,
        spec_take(spec_take(spec_deliver(m)).0).1 == false,
{
}

} // verus!
