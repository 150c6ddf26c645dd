use engineio_server::{
    ConnectionType, DispatchStep, EngineIoHandler, Error, Flow, Packet, SendStatus, Socket,
    OUTBOUND_CAPACITY,
};

struct OkHandler;

impl EngineIoHandler for OkHandler {
    fn handle(&self, _msg: String, _socket: &mut Socket) -> Result<(), Error> {
        Ok(())
    }

    fn handle_binary(&self, _data: Vec<u8>, _socket: &mut Socket) -> Result<(), Error> {
        Ok(())
    }
}

/// A handler that fails with an application error on every message.
struct FailingHandler;

impl EngineIoHandler for FailingHandler {
    fn handle(&self, _msg: String, _socket: &mut Socket) -> Result<(), Error> {
        Err(Error::BadPacket)
    }

    fn handle_binary(&self, _data: Vec<u8>, _socket: &mut Socket) -> Result<(), Error> {
        Err(Error::BadPacket)
    }
}

/// A handler that answers every message by emitting it back.
struct EchoHandler;

impl EngineIoHandler for EchoHandler {
    fn handle(&self, msg: String, socket: &mut Socket) -> Result<(), Error> {
        match socket.emit(msg) {
            SendStatus::Sent => Ok(()),
            _ => Err(Error::QueueClosed),
        }
    }

    fn handle_binary(&self, data: Vec<u8>, socket: &mut Socket) -> Result<(), Error> {
        match socket.emit_binary(data) {
            SendStatus::Sent => Ok(()),
            _ => Err(Error::QueueClosed),
        }
    }
}

#[test]
fn new_socket_initial_state() {
    let s = Socket::new(42, ConnectionType::Http);
    assert_eq!(s.sid, 42);
    assert!(s.is_http());
    assert!(!s.is_ws());
    assert_eq!(s.outbound_len(), 0);
    assert!(s.outbound_open());
    assert!(!s.pong_claimed());
}

#[test]
fn hundred_enqueues_succeed_then_full_until_dequeue() {
    let mut s = Socket::new(1, ConnectionType::Http);
    for i in 0..OUTBOUND_CAPACITY {
        assert_eq!(s.outbound_len(), i);
        assert_eq!(s.send(Packet::Ping), SendStatus::Sent);
    }
    assert_eq!(s.outbound_len(), OUTBOUND_CAPACITY);
    // enqueue 101 would suspend: it reports Full and changes nothing
    assert_eq!(s.send(Packet::Noop), SendStatus::Full);
    assert_eq!(s.outbound_len(), OUTBOUND_CAPACITY);
    // as soon as the consumer dequeues one packet, the send succeeds
    assert_eq!(s.dequeue(), Some(Packet::Ping));
    assert_eq!(s.send(Packet::Noop), SendStatus::Sent);
    assert_eq!(s.outbound_len(), OUTBOUND_CAPACITY);
}

#[test]
fn dequeue_preserves_submission_order() {
    let mut s = Socket::new(1, ConnectionType::Http);
    assert_eq!(s.emit(String::from("first")), SendStatus::Sent);
    assert_eq!(s.emit_binary(vec![1, 2, 3]), SendStatus::Sent);
    assert_eq!(s.close(), SendStatus::Sent);
    assert_eq!(s.dequeue(), Some(Packet::Message(String::from("first"))));
    assert_eq!(s.dequeue(), Some(Packet::Binary(vec![1, 2, 3])));
    assert_eq!(s.dequeue(), Some(Packet::Close));
    assert_eq!(s.dequeue(), None);
}

#[test]
fn send_after_consumer_gone_reports_closed() {
    let mut s = Socket::new(1, ConnectionType::Http);
    s.close_outbound();
    assert!(!s.outbound_open());
    assert_eq!(s.send(Packet::Ping), SendStatus::Closed);
    assert_eq!(s.emit(String::from("x")), SendStatus::Closed);
    assert_eq!(s.emit_binary(vec![0]), SendStatus::Closed);
    assert_eq!(s.close(), SendStatus::Closed);
    assert_eq!(s.outbound_len(), 0);
}

#[test]
fn close_dispatch_enqueues_one_noop_and_terminates() {
    let mut s = Socket::new(1, ConnectionType::Http);
    let step = s.handle_packet(Packet::Close, &OkHandler);
    assert_eq!(step, DispatchStep::Done(Flow::Terminate(Ok(()))));
    assert_eq!(s.outbound_len(), 1);
    assert_eq!(s.dequeue(), Some(Packet::Noop));
    assert_eq!(s.dequeue(), None);
}

#[test]
fn close_dispatch_on_closed_queue_carries_the_error() {
    let mut s = Socket::new(1, ConnectionType::Http);
    s.close_outbound();
    let step = s.handle_packet(Packet::Close, &OkHandler);
    assert_eq!(
        step,
        DispatchStep::Done(Flow::Terminate(Err(Error::QueueClosed)))
    );
    assert_eq!(s.outbound_len(), 0);
}

#[test]
fn close_dispatch_on_full_queue_needs_room() {
    let mut s = Socket::new(1, ConnectionType::Http);
    for _ in 0..OUTBOUND_CAPACITY {
        assert_eq!(s.send(Packet::Ping), SendStatus::Sent);
    }
    let step = s.handle_packet(Packet::Close, &OkHandler);
    assert_eq!(step, DispatchStep::NeedsRoom);
    assert_eq!(s.outbound_len(), OUTBOUND_CAPACITY);
    // the consumer makes room; retrying the same dispatch then completes
    assert_eq!(s.dequeue(), Some(Packet::Ping));
    let step = s.handle_packet(Packet::Close, &OkHandler);
    assert_eq!(step, DispatchStep::Done(Flow::Terminate(Ok(()))));
}

#[test]
fn pong_dispatch_continues_and_coalesces() {
    let mut s = Socket::new(1, ConnectionType::Http);
    let _hb = s.spawn_heartbeat(25, 20);
    // several pongs with no intervening heartbeat wait behave as one
    for _ in 0..5 {
        let step = s.handle_packet(Packet::Pong, &OkHandler);
        assert_eq!(step, DispatchStep::Done(Flow::Continue(Ok(()))));
    }
    // exactly one outstanding wait is satisfied
    assert!(s.take_pong());
    assert!(!s.take_pong());
    // nothing was queued on the outbound side
    assert_eq!(s.outbound_len(), 0);
}

#[test]
fn message_dispatch_returns_handler_result_verbatim() {
    let mut s = Socket::new(1, ConnectionType::Http);
    let step = s.handle_packet(Packet::Message(String::from("hi")), &OkHandler);
    assert_eq!(step, DispatchStep::Done(Flow::Continue(Ok(()))));
}

#[test]
fn message_dispatch_with_failing_handler_does_not_terminate() {
    let mut s = Socket::new(1, ConnectionType::Http);
    let step = s.handle_packet(Packet::Message(String::from("hi")), &FailingHandler);
    // an application error surfaces inside Continue: the session goes on
    assert_eq!(step, DispatchStep::Done(Flow::Continue(Err(Error::BadPacket))));
    // the socket still works after the failed dispatch
    assert_eq!(s.emit(String::from("still alive")), SendStatus::Sent);
}

#[test]
fn message_dispatch_hands_the_socket_to_the_handler() {
    let mut s = Socket::new(1, ConnectionType::Http);
    let step = s.handle_packet(Packet::Message(String::from("echo me")), &EchoHandler);
    assert_eq!(step, DispatchStep::Done(Flow::Continue(Ok(()))));
    assert_eq!(s.dequeue(), Some(Packet::Message(String::from("echo me"))));
}

#[test]
fn invalid_inbound_kinds_are_bad_packets() {
    let mut s = Socket::new(1, ConnectionType::Http);
    let bad = [
        Packet::Open,
        Packet::Ping,
        Packet::Upgrade,
        Packet::Noop,
        Packet::Binary(vec![1]),
    ];
    for p in bad {
        let step = s.handle_packet(p, &OkHandler);
        assert_eq!(step, DispatchStep::Done(Flow::Continue(Err(Error::BadPacket))));
    }
    assert_eq!(s.outbound_len(), 0);
}

#[test]
fn handle_binary_forwards_to_the_handler() {
    let mut s = Socket::new(1, ConnectionType::Http);
    assert_eq!(s.handle_binary(vec![9, 8], &OkHandler), Ok(()));
    assert_eq!(
        s.handle_binary(vec![9, 8], &FailingHandler),
        Err(Error::BadPacket)
    );
    assert_eq!(s.handle_binary(vec![7], &EchoHandler), Ok(()));
    assert_eq!(s.dequeue(), Some(Packet::Binary(vec![7])));
}

#[test]
fn upgrade_is_permanent_and_idempotent() {
    let mut s = Socket::new(1, ConnectionType::Http);
    assert!(s.is_http());
    s.upgrade_to_websocket();
    assert!(s.is_ws());
    assert!(!s.is_http());
    // reads stay post-upgrade across further operations
    assert_eq!(s.emit(String::from("x")), SendStatus::Sent);
    let _ = s.handle_packet(Packet::Pong, &OkHandler);
    assert!(s.is_ws());
    assert!(!s.is_http());
    // a second call is a no-op
    s.upgrade_to_websocket();
    assert!(s.is_ws());
    assert!(!s.is_http());
}

#[test]
fn send_blocking_holds_the_barrier_only_on_http() {
    let mut s = Socket::new(1, ConnectionType::Http);
    // long-polling: the call must rendezvous with the consumer before
    // reporting completion
    let (st, barrier) = s.send_blocking(Packet::Message(String::from("a")));
    assert_eq!(st, SendStatus::Sent);
    assert!(barrier);
    // streaming transport: completion as soon as the enqueue succeeds, with
    // no dependency on consumer activity
    s.upgrade_to_websocket();
    let (st, barrier) = s.send_blocking(Packet::Message(String::from("a")));
    assert_eq!(st, SendStatus::Sent);
    assert!(!barrier);
}

#[test]
fn constructor_accepts_either_transport() {
    let s = Socket::new(5, ConnectionType::WebSocket);
    assert!(s.is_ws());
    assert!(!s.is_http());
}

#[test]
fn spawn_heartbeat_claims_the_pong_slot_once() {
    let mut s = Socket::new(1, ConnectionType::Http);
    assert!(!s.pong_claimed());
    let _hb = s.spawn_heartbeat(100, 50);
    // the claim is recorded; a second heartbeat would be a lifecycle bug and
    // the driver must refuse to start one
    assert!(s.pong_claimed());
}
