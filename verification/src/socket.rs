use vstd::prelude::*;

use crate::heartbeat::{spec_heartbeat_init, Heartbeat};
use crate::packet::{DispatchStep, Error, Flow, Packet, PacketView, SendStatus};
use crate::pong::{spec_deliver, spec_take, PongModel, PongSlot};
use crate::queue::{spec_enqueue, OutboundQueue, QueueModel, OUTBOUND_CAPACITY};

verus! {

/// Which transport currently carries the session. The only transition is the
/// one-way upgrade `Http -> WebSocket`; no downgrade operation exists, so
/// reversal is structurally impossible.
#[derive(Debug, Clone, Copy, PartialEq, Eq, Structural)]
pub enum ConnectionType {
    /// request/response long-polling: queued packets only flush while a poll
    /// request is actively draining the queue
    Http,
    /// persistent streaming transport with a continuously running writer
    WebSocket,
}

/// One session's socket: identity, connection-type state, the bounded
/// outbound packet queue, and the pong-signal slot, with the operations that
/// dispatch inbound packets, send, and upgrade.
pub struct Socket {
    /// caller-assigned unique session identifier; immutable after
    /// construction
    pub sid: i64,
    conn: ConnectionType,
    outbound: OutboundQueue,
    pong: PongSlot,
}

/// Mathematical state of a socket.
pub struct SocketModel {
    pub sid: i64,
    pub conn: ConnectionType,
    pub outbound: QueueModel,
    pub pong: PongModel,
}

/// The state a socket is constructed in: the given identity and transport,
/// an empty open queue, and an empty unclaimed pong slot.
pub open spec fn spec_socket_new(sid: i64, conn: ConnectionType) -> SocketModel {
    SocketModel {
        sid,
        conn,
        outbound: QueueModel { packets: Seq::empty(), open: true },
        pong: PongModel { occupied: false, claimed: false },
    }
}

/// What sending one packet does to a socket: one enqueue on the outbound
/// queue, everything else untouched.
pub open spec fn spec_send(m: SocketModel, p: PacketView) -> (SocketModel, SendStatus) {
    let (q, st) = spec_enqueue(m.outbound, p);
    (SocketModel { outbound: q, ..m }, st)
}

/// What claiming the pong-slot consumer side does.
pub open spec fn spec_claim_pong(m: SocketModel) -> SocketModel {
    SocketModel { pong: PongModel { claimed: true, ..m.pong }, ..m }
}

/// What consuming the pong slot does, and whether a signal was pending.
pub open spec fn spec_take_pong(m: SocketModel) -> (SocketModel, bool) {
    (SocketModel { pong: spec_take(m.pong).0, ..m }, spec_take(m.pong).1)
}

/// What the one-way transport upgrade does.
pub open spec fn spec_upgrade(m: SocketModel) -> SocketModel {
    SocketModel { conn: ConnectionType::WebSocket, ..m }
}

/// The dispatch state machine for every packet kind that does not involve
/// the handler capability:
/// - `Close`: enqueue a `Noop` acknowledgment, best effort, and terminate
///   wrapping that enqueue's result — or suspend first if the queue is full;
/// - `Pong`: deliver a liveness signal into the pong slot and continue;
/// - every other kind: continue with `BadPacket`, the socket untouched.
///
/// A `Message` is decided by the handler capability, not by this state
/// machine; its arm here is never relied upon, and `handle_packet` states
/// the message outcome separately.
pub open spec fn spec_dispatch(m: SocketModel, p: PacketView) -> (SocketModel, DispatchStep) {
    match p {
        PacketView::Close => {
            let (m1, st) = spec_send(m, PacketView::Noop);
            match st {
                SendStatus::Sent => (m1, DispatchStep::Done(Flow::Terminate(Ok(())))),
                SendStatus::Full => (m, DispatchStep::NeedsRoom),
                SendStatus::Closed => (
                    m,
                    DispatchStep::Done(Flow::Terminate(Err(Error::QueueClosed))),
                ),
            }
        },
        PacketView::Pong => (
            SocketModel { pong: spec_deliver(m.pong), ..m },
            DispatchStep::Done(Flow::Continue(Ok(()))),
        ),
        PacketView::Message(_) => (m, DispatchStep::Done(Flow::Continue(Ok(())))),
        _ => (m, DispatchStep::Done(Flow::Continue(Err(Error::BadPacket)))),
    }
}

/// Wraps a handler's result in the dispatch outcome: the application's `Ok`
/// or `Err` surfaces verbatim inside `Continue` — an application error never
/// by itself ends the session.
pub fn continue_with(r: Result<(), Error>) -> (f: Flow)
    ensures
        f == Flow::Continue(r),
{
    Flow::Continue(r)
}

/// The application-supplied handler capability: an externally implemented
/// strategy that processes application messages. Each dispatch call receives
/// it as an explicit parameter; the socket never owns it. Both entry points
/// get a reference to the originating socket so the application can send or
/// close in response; an implementation must leave the socket well formed and
/// may move its transport forward (upgrade) but never back.
pub trait EngineIoHandler {
    /// Processes one application text message.
    fn handle(&self, msg: String, socket: &mut Socket) -> (r: Result<(), Error>)
        requires
            old(socket).wf(),
        ensures
            final(socket).wf(),
            old(socket)@.conn == ConnectionType::WebSocket ==> final(socket)@.conn
                == ConnectionType::WebSocket,
    ;

    /// Processes one application binary payload.
    fn handle_binary(&self, data: Vec<u8>, socket: &mut Socket) -> (r: Result<(), Error>)
        requires
            old(socket).wf(),
        ensures
            final(socket).wf(),
            old(socket)@.conn == ConnectionType::WebSocket ==> final(socket)@.conn
                == ConnectionType::WebSocket,
    ;
}

impl View for Socket {
    type V = SocketModel;

    closed spec fn view(&self) -> SocketModel {
        SocketModel {
            sid: self.sid,
            conn: self.conn,
            outbound: self.outbound@,
            pong: self.pong@,
        }
    }
}

impl Socket {
    /// The socket's invariant: its outbound queue never exceeds capacity.
    pub open spec fn wf(&self) -> bool {
        self@.outbound.packets.len() <= OUTBOUND_CAPACITY
    }

    /// Creates the socket of a freshly accepted session.
    pub fn new(sid: i64, conn: ConnectionType) -> (s: Socket)
        ensures
            s@ == spec_socket_new(sid, conn),
            s.wf(),
    {
        let s = Socket {
            sid,
            conn,
            outbound: OutboundQueue::new(),
            pong: PongSlot::new(),
        };
        proof {
            assert(s@ =~= spec_socket_new(sid, conn));
        }
        s
    }

    /// Enqueues one packet on the outbound queue. `Full` is the suspension
    /// point: the caller must wait until the consumer dequeues, then retry.
    pub fn send(&mut self, packet: Packet) -> (r: SendStatus)
        requires
            old(self).wf(),
        ensures
            final(self).wf(),
            (final(self)@, r) == spec_send(old(self)@, packet@),
    {
        let r = self.outbound.try_enqueue(packet);
        proof {
            assert(final(self)@ =~= spec_send(old(self)@, packet@).0);
        }
        r
    }

    /// Performs the send, and additionally tells the caller whether it must
    /// hold the flush barrier before reporting completion: on an `Http`
    /// connection long-polling can only deliver queued packets while a poll
    /// request drains the queue, so the caller must not return until some
    /// consumer has had an opportunity to take the queue after this enqueue;
    /// on a `WebSocket` connection the continuously running writer makes the
    /// rendezvous unnecessary and the send completes immediately.
    pub fn send_blocking(&mut self, packet: Packet) -> (r: (SendStatus, bool))
        requires
            old(self).wf(),
        ensures
            final(self).wf(),
            (final(self)@, r.0) == spec_send(old(self)@, packet@),
            r.1 == (old(self)@.conn == ConnectionType::Http),
    {
        let st = self.send(packet);
        let barrier = match self.conn {
            ConnectionType::Http => true,
            ConnectionType::WebSocket => false,
        };
        (st, barrier)
    }

    /// Sends a `Close` packet, asking the peer to end the session.
    pub fn close(&mut self) -> (r: SendStatus)
        requires
            old(self).wf(),
        ensures
            final(self).wf(),
            (final(self)@, r) == spec_send(old(self)@, PacketView::Close),
    {
        self.send(Packet::Close)
    }

    /// Sends one application text message.
    pub fn emit(&mut self, msg: String) -> (r: SendStatus)
        requires
            old(self).wf(),
        ensures
            final(self).wf(),
            (final(self)@, r) == spec_send(old(self)@, PacketView::Message(msg@)),
    {
        self.send(Packet::Message(msg))
    }

    /// Sends one application binary payload.
    pub fn emit_binary(&mut self, data: Vec<u8>) -> (r: SendStatus)
        requires
            old(self).wf(),
        ensures
            final(self).wf(),
            (final(self)@, r) == spec_send(old(self)@, PacketView::Binary(data@)),
    {
        self.send(Packet::Binary(data))
    }

    /// Dispatches one inbound packet: decides whether the caller keeps
    /// reading from this session and performs the packet's effect on the
    /// socket. For a `Message` the handler capability decides the result, and
    /// the outcome is always a `Continue` carrying the handler's result
    /// verbatim — application errors do not by themselves end the session.
    /// For every other kind the outcome is exactly `spec_dispatch`.
    pub fn handle_packet<H: EngineIoHandler>(&mut self, packet: Packet, handler: &H) -> (r:
        DispatchStep)
        requires
            old(self).wf(),
        ensures
            final(self).wf(),
            !(packet@ is Message) ==> (final(self)@, r) == spec_dispatch(old(self)@, packet@),
            packet@ is Message ==> r matches DispatchStep::Done(Flow::Continue(_)),
            old(self)@.conn == ConnectionType::WebSocket ==> final(self)@.conn
                == ConnectionType::WebSocket,
    {
        match packet {
            Packet::Close => {
                let ghost pre = self@;
                let st = self.send(Packet::Noop);
                match st {
                    SendStatus::Sent => DispatchStep::Done(Flow::Terminate(Ok(()))),
                    SendStatus::Full => {
                        proof {
                            assert(final(self)@ =~= pre);
                        }
                        DispatchStep::NeedsRoom
                    },
                    SendStatus::Closed => {
                        proof {
                            assert(final(self)@ =~= pre);
                        }
                        DispatchStep::Done(Flow::Terminate(Err(Error::QueueClosed)))
                    },
                }
            },
            Packet::Pong => {
                self.pong.deliver();
                DispatchStep::Done(Flow::Continue(Ok(())))
            },
            Packet::Message(msg) => DispatchStep::Done(continue_with(handler.handle(msg, self))),
            _ => DispatchStep::Done(Flow::Continue(Err(Error::BadPacket))),
        }
    }

    /// Dispatches one inbound binary payload: forwards it unchanged to the
    /// handler capability's binary entry point, together with this socket,
    /// and returns the handler's result unchanged. Binary frames bypass the
    /// packet dispatch state machine entirely.
    pub fn handle_binary<H: EngineIoHandler>(&mut self, data: Vec<u8>, handler: &H) -> (r: Result<
        (),
        Error,
    >)
        requires
            old(self).wf(),
        ensures
            final(self).wf(),
            old(self)@.conn == ConnectionType::WebSocket ==> final(self)@.conn
                == ConnectionType::WebSocket,
    {
        handler.handle_binary(data, self)
    }

    /// Removes and returns the front outbound packet: the drain access by
    /// which queued packets become transport bytes.
    pub fn dequeue(&mut self) -> (r: Option<Packet>)
        requires
            old(self).wf(),
            old(self)@.outbound.open,
        ensures
            final(self).wf(),
            final(self)@.conn == old(self)@.conn,
            final(self)@.sid == old(self)@.sid,
            final(self)@.pong == old(self)@.pong,
            final(self)@.outbound.open,
            old(self)@.outbound.packets.len() == 0 ==> r is None && final(self)@.outbound.packets
                == old(self)@.outbound.packets,
            old(self)@.outbound.packets.len() > 0 ==> (r matches Some(p) && p@ == old(
                self,
            )@.outbound.packets[0]) && final(self)@.outbound.packets == old(
                self,
            )@.outbound.packets.drop_first(),
    {
        self.outbound.dequeue()
    }

    /// Discards the consumer side of the outbound queue: the session is torn
    /// down on the transport side and every later send reports `Closed`.
    pub fn close_outbound(&mut self)
        requires
            old(self).wf(),
        ensures
            final(self).wf(),
            final(self)@ == (SocketModel {
                outbound: QueueModel { open: false, ..old(self)@.outbound },
                ..old(self)@
            }),
    {
        self.outbound.close();
        proof {
            assert(final(self)@ =~= (SocketModel {
                outbound: QueueModel { open: false, ..old(self)@.outbound },
                ..old(self)@
            }));
        }
    }

    /// Sets the connection type to `WebSocket`. The upgrade is one-way:
    /// calling it again is a no-op, and no downgrade operation exists.
    pub fn upgrade_to_websocket(&mut self)
        requires
            old(self).wf(),
        ensures
            final(self).wf(),
            final(self)@ == spec_upgrade(old(self)@),
    {
        self.conn = ConnectionType::WebSocket;
        proof {
            assert(final(self)@ =~= spec_upgrade(old(self)@));
        }
    }

    /// Whether the session currently runs over the streaming transport.
    pub fn is_ws(&self) -> (b: bool)
        ensures
            b == (self@.conn == ConnectionType::WebSocket),
    {
        match self.conn {
            ConnectionType::WebSocket => true,
            ConnectionType::Http => false,
        }
    }

    /// Whether the session currently runs over long-polling.
    pub fn is_http(&self) -> (b: bool)
        ensures
            b == (self@.conn == ConnectionType::Http),
    {
        match self.conn {
            ConnectionType::Http => true,
            ConnectionType::WebSocket => false,
        }
    }

    /// Starts the heartbeat protocol: claims the pong slot's consumer side
    /// for the one heartbeat task of this socket and hands back the machine
    /// that task drives. Claiming a slot already claimed is a lifecycle bug;
    /// the caller must rule it out (`pong_claimed`) and abort loudly if it
    /// ever holds.
    pub fn spawn_heartbeat(&mut self, interval: u64, timeout: u64) -> (h: Heartbeat)
        requires
            old(self).wf(),
            !old(self)@.pong.claimed,
        ensures
            final(self).wf(),
            final(self)@ == spec_claim_pong(old(self)@),
            h@ == spec_heartbeat_init(interval, timeout),
    {
        self.pong.claim();
        proof {
            assert(final(self)@ =~= spec_claim_pong(old(self)@));
        }
        Heartbeat::new(interval, timeout)
    }

    /// Whether a heartbeat task has already claimed the pong slot.
    pub fn pong_claimed(&self) -> (b: bool)
        ensures
            b == self@.pong.claimed,
    {
        self.pong.is_claimed()
    }

    /// Consumes the pong slot on behalf of the heartbeat task: reports
    /// whether a liveness signal was pending and empties the slot.
    pub fn take_pong(&mut self) -> (r: bool)
        requires
            old(self).wf(),
            old(self)@.pong.claimed,
        ensures
            final(self).wf(),
            (final(self)@, r) == spec_take_pong(old(self)@),
    {
        let r = self.pong.take();
        proof {
            assert(final(self)@ =~= spec_take_pong(old(self)@).0);
        }
        r
    }

    /// Number of packets waiting in the outbound queue.
    pub fn outbound_len(&self) -> (n: usize)
        ensures
            n == self@.outbound.packets.len(),
    {
        self.outbound.len()
    }

    /// Whether the consumer side of the outbound queue still exists.
    pub fn outbound_open(&self) -> (b: bool)
        ensures
            b == self@.outbound.open,
    {
        self.outbound.is_open()
    }
}

/// Law: dispatching `Close` enqueues exactly one `Noop` acknowledgment and
/// terminates wrapping that enqueue's result — `Ok` with the `Noop` appended
/// when the queue has room, `QueueClosed` with the socket untouched when the
/// consumer side is gone — and suspends (leaving the socket untouched) only
/// when the open queue is full.
pub proof fn lemma_close_dispatch(m: SocketModel)
    ensures
        m.outbound.open && m.outbound.packets.len() < OUTBOUND_CAPACITY ==> spec_dispatch(
            m,
            PacketView::Close,
        ) == (
            SocketModel {
                outbound: QueueModel {
                    packets: m.outbound.packets.push(PacketView::Noop),
                    ..m.outbound
                },
                ..m
            },
            DispatchStep::Done(Flow::Terminate(Ok(()))),
        ),
        !m.outbound.open ==> spec_dispatch(m, PacketView::Close) == (
            m,
            DispatchStep::Done(Flow::Terminate(Err(Error::QueueClosed))),
        ),
        m.outbound.open && m.outbound.packets.len() >= OUTBOUND_CAPACITY ==> spec_dispatch(
            m,
            PacketView::Close,
        ) == (m, DispatchStep::NeedsRoom),
{
}

/// Law: dispatching `Pong` always continues with `Ok`, satisfies exactly one
/// outstanding heartbeat wait, and coalesces: any number of consecutive
/// `Pong` dispatches with no intervening heartbeat wait leaves the socket in
/// the same state as a single one — no error and no queueing of extra
/// signals — and after the one wait is satisfied a second finds nothing.
pub proof fn lemma_pong_dispatch_coalesces(m: SocketModel)
    ensures
        spec_dispatch(m, PacketView::Pong).1 == DispatchStep::Done(Flow::Continue(Ok(()))),
        spec_dispatch(spec_dispatch(m, PacketView::Pong).0, PacketView::Pong).0 == spec_dispatch(
            m,
            PacketView::Pong,
        ).0,
        spec_take_pong(spec_dispatch(m, PacketView::Pong).0).1 == true,
        spec_take_pong(spec_take_pong(spec_dispatch(m, PacketView::Pong).0).0).1 == false,
{
}

/// Law: the transport upgrade is permanent and idempotent. After it the
/// socket answers every `is_ws` query true and every `is_http` query false,
/// and a second upgrade changes nothing at all.
pub proof fn lemma_upgrade_permanent(m: SocketModel)
    ensures
        spec_upgrade(m).conn == ConnectionType::WebSocket,
        spec_upgrade(m).conn != ConnectionType::Http,
        spec_upgrade(spec_upgrade(m)) == spec_upgrade(m),
        spec_upgrade(m) == (SocketModel { conn: ConnectionType::WebSocket, ..m }),
{
}

/// Law: no socket operation moves the transport backwards — sending,
/// dispatching any packet, draining the pong slot and claiming it all leave
/// the connection type exactly as it was, so `WebSocket`, once reached, holds
/// for every subsequent read.
pub proof fn lemma_no_downgrade(m: SocketModel, p: PacketView)
    ensures
        spec_send(m, p).0.conn == m.conn,
        spec_dispatch(m, p).0.conn == m.conn,
        spec_take_pong(m).0.conn == m.conn,
        spec_claim_pong(m).conn == m.conn,
{
}

} // verus!
