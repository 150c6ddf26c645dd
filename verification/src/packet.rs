use vstd::prelude::*;

verus! {

/// The closed set of protocol packets exchanged over a session.
///
/// Inbound, only `Close`, `Pong` and `Message` are meaningful to the dispatch
/// state machine; every other kind is rejected as a bad packet. Outbound, the
/// socket emits `Noop` (as a `Close` acknowledgment), `Ping` (liveness
/// probes), `Message` and `Binary` payloads, and `Close` itself.
#[derive(Debug, Clone, PartialEq, Eq)]
pub enum Packet {
    /// session-open announcement; not valid inbound on an established session
    Open,
    /// request or acknowledge session termination
    Close,
    /// liveness probe, sent by the heartbeat
    Ping,
    /// liveness response, expected from the peer
    Pong,
    /// application text payload
    Message(String),
    /// application binary payload
    Binary(Vec<u8>),
    /// transport-upgrade announcement; not valid inbound here
    Upgrade,
    /// no-op, used as a `Close` acknowledgment
    Noop,
}

/// Mathematical shape of a packet: payloads abstracted to sequences.
pub enum PacketView {
    Open,
    Close,
    Ping,
    Pong,
    Message(Seq<char>),
    Binary(Seq<u8>),
    Upgrade,
    Noop,
}

impl View for Packet {
    type V = PacketView;

    open spec fn view(&self) -> PacketView {
        match self {
            Packet::Open => PacketView::Open,
            Packet::Close => PacketView::Close,
            Packet::Ping => PacketView::Ping,
            Packet::Pong => PacketView::Pong,
            Packet::Message(s) => PacketView::Message(s@),
            Packet::Binary(b) => PacketView::Binary(b@),
            Packet::Upgrade => PacketView::Upgrade,
            Packet::Noop => PacketView::Noop,
        }
    }
}

/// The error kinds this session core can report.
#[derive(Debug, Clone, Copy, PartialEq, Eq, Structural)]
pub enum Error {
    /// an inbound packet kind the dispatch logic does not accept
    BadPacket,
    /// a probe could not be sent, or no liveness signal arrived in time
    HeartbeatTimeout,
    /// a send was attempted after the queue's consumer side was discarded
    QueueClosed,
}

/// Outcome of enqueueing one packet on the outbound queue.
#[derive(Debug, Clone, Copy, PartialEq, Eq, Structural)]
pub enum SendStatus {
    /// the packet was appended to the queue
    Sent,
    /// the queue is at capacity; the caller must suspend until a dequeue
    /// makes room, then retry
    Full,
    /// the consumer side of the queue no longer exists
    Closed,
}

/// Tells the caller of packet dispatch whether to keep reading from the
/// session.
#[derive(Debug, Clone, Copy, PartialEq, Eq)]
pub enum Flow {
    /// stop reading; the wrapped result is the outcome of the terminal action
    Terminate(Result<(), Error>),
    /// keep reading; the wrapped result is this dispatch's outcome
    Continue(Result<(), Error>),
}

/// One step of packet dispatch.
///
/// Dispatch completes in one step unless it must enqueue on a full queue, in
/// which case the caller suspends until the consumer dequeues at least one
/// packet and then dispatches the same packet again.
#[derive(Debug, Clone, Copy, PartialEq, Eq)]
pub enum DispatchStep {
    /// dispatch finished with this flow decision
    Done(Flow),
    /// the outbound queue is full; wait for a dequeue and retry
    NeedsRoom,
}

} // verus!
