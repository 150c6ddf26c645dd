//! Verified session core of an engine.io-style bidirectional transport.
//!
//! One `Socket` per session multiplexes two transport kinds (HTTP long-polling
//! and WebSocket) behind a single logical abstraction: a bounded outbound
//! packet queue, a single-slot pong-signal mailbox, a one-way connection-type
//! upgrade, a packet dispatch state machine, and a timeout-bound heartbeat.
//!
//! The core is sequential and fully verified; the asynchronous driver that
//! supplies timers, suspension and cross-task signalling lives outside it and
//! interacts with the core only through the contracts stated here.

mod heartbeat;
mod packet;
mod pong;
mod queue;
mod socket;

pub use heartbeat::{
    lemma_heartbeat_failed_is_absorbing, lemma_heartbeat_no_pong_times_out,
    spec_heartbeat_action, spec_heartbeat_init, spec_heartbeat_step, spec_sat_add, spec_sat_inc,
    Heartbeat, HeartbeatAction, HeartbeatEvent, HeartbeatModel, HeartbeatPhase,
};
pub use packet::{DispatchStep, Error, Flow, Packet, PacketView, SendStatus};
pub use pong::{lemma_pong_coalescing, spec_deliver, spec_take, PongModel, PongSlot};
pub use socket::{
    continue_with, lemma_close_dispatch, lemma_no_downgrade, lemma_pong_dispatch_coalesces,
    lemma_upgrade_permanent, spec_claim_pong, spec_dispatch, spec_send, spec_socket_new,
    spec_take_pong, spec_upgrade, ConnectionType, EngineIoHandler, Socket, SocketModel,
};
pub use queue::{
    lemma_enqueue_run_succeeds, lemma_full_queue_blocks_until_dequeue, spec_dequeue,
    spec_enqueue, spec_enqueue_run, spec_run_all_sent, OutboundQueue, QueueModel,
    OUTBOUND_CAPACITY,
};
