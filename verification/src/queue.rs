use vstd::prelude::*;

use crate::packet::{Packet, PacketView, SendStatus};

verus! {

/// Capacity of the outbound packet queue of one socket.
pub const OUTBOUND_CAPACITY: usize = 100;

/// The socket's outbound packet queue: an ordered, bounded buffer with a
/// producer side (the socket's send operations) and a consumer side (the
/// transport's flush loop). `open` records whether the consumer side still
/// exists; once it is discarded every enqueue fails.
pub struct OutboundQueue {
    items: Vec<Packet>,
    open: bool,
}

/// Mathematical state of an outbound queue.
pub struct QueueModel {
    /// queued packets, front first
    pub packets: Seq<PacketView>,
    /// whether the consumer side still exists
    pub open: bool,
}

/// What one enqueue does to a queue state: appends when the queue is open and
/// below capacity, reports `Full` at capacity, and `Closed` once the consumer
/// side is gone.
pub open spec fn spec_enqueue(m: QueueModel, p: PacketView) -> (QueueModel, SendStatus) {
    if !m.open {
        (m, SendStatus::Closed)
    } else if m.packets.len() >= OUTBOUND_CAPACITY {
        (m, SendStatus::Full)
    } else {
        (QueueModel { packets: m.packets.push(p), ..m }, SendStatus::Sent)
    }
}

/// What one dequeue does to a queue state: removes and returns the front
/// packet, or returns nothing when the queue is empty.
pub open spec fn spec_dequeue(m: QueueModel) -> (QueueModel, Option<PacketView>) {
    if m.packets.len() == 0 {
        (m, None)
    } else {
        (QueueModel { packets: m.packets.drop_first(), ..m }, Some(m.packets[0]))
    }
}

impl View for OutboundQueue {
    type V = QueueModel;

    closed spec fn view(&self) -> QueueModel {
        QueueModel {
            packets: self.items@.map(|i: int, p: Packet| p@),
            open: self.open,
        }
    }
}

impl OutboundQueue {
    /// The queue never holds more packets than its capacity.
    pub open spec fn wf(&self) -> bool {
        self@.packets.len() <= OUTBOUND_CAPACITY
    }

    /// A fresh queue: empty, with its consumer side alive.
    pub fn new() -> (q: OutboundQueue)
        ensures
            q@.packets == Seq::<PacketView>::empty(),
            q@.open,
            q.wf(),
    {
        let q = OutboundQueue { items: Vec::new(), open: true };
        proof {
            assert(q@.packets =~= Seq::<PacketView>::empty());
        }
        q
    }

    /// Appends one packet if the queue is open and has room; otherwise leaves
    /// the queue unchanged and reports why.
    pub fn try_enqueue(&mut self, p: Packet) -> (r: SendStatus)
        requires
            old(self).wf(),
        ensures
            final(self).wf(),
            (final(self)@, r) == spec_enqueue(old(self)@, p@),
    {
        if !self.open {
            SendStatus::Closed
        } else if self.items.len() >= OUTBOUND_CAPACITY {
            SendStatus::Full
        } else {
            let ghost pre = self.items@;
            self.items.push(p);
            proof {
                assert(self@.packets =~= pre.map(|i: int, q: Packet| q@).push(p@));
            }
            SendStatus::Sent
        }
    }

    /// Removes and returns the front packet; returns nothing when the queue is
    /// empty. Models the consumer side, which exists only while the queue is
    /// open.
    pub fn dequeue(&mut self) -> (r: Option<Packet>)
        requires
            old(self).wf(),
            old(self)@.open,
        ensures
            final(self).wf(),
            r matches Some(p) ==> spec_dequeue(old(self)@) == (final(self)@, Some(p@)),
            r is None ==> spec_dequeue(old(self)@) == (final(self)@, Option::<PacketView>::None),
    {
        if self.items.len() == 0 {
            None
        } else {
            let ghost pre = self.items@;
            let p = self.items.remove(0);
            proof {
                assert(self@.packets =~= pre.map(|i: int, q: Packet| q@).drop_first());
            }
            Some(p)
        }
    }

    /// Discards the consumer side: every later enqueue reports `Closed`.
    pub fn close(&mut self)
        requires
            old(self).wf(),
        ensures
            final(self).wf(),
            final(self)@ == (QueueModel { open: false, ..old(self)@ }),
    {
        self.open = false;
    }

    /// Number of packets currently queued.
    pub fn len(&self) -> (n: usize)
        ensures
            n == self@.packets.len(),
    {
        self.items.len()
    }

    /// Whether the consumer side still exists.
    pub fn is_open(&self) -> (b: bool)
        ensures
            b == self@.open,
    {
        self.open
    }
}

/// Folds a run of enqueues over a queue state.
pub open spec fn spec_enqueue_run(m: QueueModel, ps: Seq<PacketView>) -> QueueModel
    decreases ps.len(),
{
    if ps.len() == 0 {
        m
    } else {
        spec_enqueue_run(spec_enqueue(m, ps[0]).0, ps.drop_first())
    }
}

/// Whether every enqueue of a run reports `Sent`.
pub open spec fn spec_run_all_sent(m: QueueModel, ps: Seq<PacketView>) -> bool
    decreases ps.len(),
{
    ps.len() == 0 || {
        &&& spec_enqueue(m, ps[0]).1 == SendStatus::Sent
        &&& spec_run_all_sent(spec_enqueue(m, ps[0]).0, ps.drop_first())
    }
}

/// Law: as long as a run of enqueues fits under the capacity of an open
/// queue, every one of them succeeds without suspension, and the queue ends
/// holding the old packets followed by the run, in submission order. In
/// particular, from the empty queue any `n <= 100` sequential enqueues all
/// succeed.
pub proof fn lemma_enqueue_run_succeeds(m: QueueModel, ps: Seq<PacketView>)
    requires
        m.open,
        m.packets.len() + ps.len() <= OUTBOUND_CAPACITY,
    ensures
        spec_run_all_sent(m, ps),
        spec_enqueue_run(m, ps).packets == m.packets + ps,
        spec_enqueue_run(m, ps).open,
    decreases ps.len(),
{
    if ps.len() == 0 {
        assert(spec_enqueue_run(m, ps).packets =~= m.packets + ps);
    } else {
        let m1 = spec_enqueue(m, ps[0]).0;
        lemma_enqueue_run_succeeds(m1, ps.drop_first());
        assert(spec_enqueue_run(m, ps).packets =~= m.packets + ps);
    }
}

/// Law: an enqueue on a full open queue suspends (reports `Full`) and changes
/// nothing, and as soon as the consumer dequeues one packet the same enqueue
/// succeeds.
pub proof fn lemma_full_queue_blocks_until_dequeue(m: QueueModel, p: PacketView)
    requires
        m.open,
        m.packets.len() == OUTBOUND_CAPACITY,
    ensures
        spec_enqueue(m, p) == (m, SendStatus::Full),
        spec_enqueue(spec_dequeue(m).0, p).1 == SendStatus::Sent,
        spec_enqueue(spec_dequeue(m).0, p).0.packets == m.packets.drop_first().push(p),
{
    assert(spec_enqueue(m, p).0 =~= m);
}

} // verus!
