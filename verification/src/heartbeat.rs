use vstd::prelude::*;

use crate::packet::Error;

verus! {

/// Where the heartbeat protocol stands between two events.
#[derive(Debug, Clone, Copy, PartialEq, Eq, Structural)]
pub enum HeartbeatPhase {
    /// waiting out the initial grace period of one interval
    Grace,
    /// waiting for the next tick of the interval clock
    AwaitTick,
    /// a `Ping` probe must be enqueued now
    SendPing,
    /// waiting, bounded by the timeout, for a pong signal
    AwaitPong,
    /// the heartbeat has failed with `HeartbeatTimeout`; terminal
    Failed,
}

/// The events the heartbeat driver reports to the state machine.
#[derive(Debug, Clone, Copy, PartialEq, Eq, Structural)]
pub enum HeartbeatEvent {
    /// the initial grace period elapsed
    GraceElapsed,
    /// the interval clock ticked
    Tick,
    /// the `Ping` probe was enqueued successfully
    PingSent,
    /// the `Ping` probe could not be enqueued (consumer side gone)
    PingSendFailed,
    /// a pong signal arrived within the timeout
    PongReceived,
    /// the timeout elapsed with no pong signal
    PongTimedOut,
    /// the pong signal source is permanently closed
    PongSourceClosed,
}

/// What the driver must do next, determined by the phase the machine is in.
#[derive(Debug, Clone, Copy, PartialEq, Eq, Structural)]
pub enum HeartbeatAction {
    /// sleep for `interval` milliseconds, then report `GraceElapsed`
    WaitGrace,
    /// await the next tick of the interval clock, then report `Tick`
    WaitTick,
    /// enqueue a `Ping` on the socket and report whether it was sent
    SendPing,
    /// await a pong signal for at most `timeout` milliseconds and report
    /// what happened
    WaitPong,
    /// the heartbeat has failed; stop the task
    Stop,
}

/// The heartbeat protocol of one socket as an event-driven state machine.
///
/// One instance runs per socket. The driver performs the waiting (grace
/// period, interval ticks, bounded pong waits) and feeds the outcome of each
/// wait back as an event; the machine decides what happens and what to do
/// next. `elapsed` accumulates a verified lower bound on the real time spent,
/// in milliseconds: the grace period and a full pong timeout are counted
/// exactly, every other wait conservatively as zero.
pub struct Heartbeat {
    interval: u64,
    timeout: u64,
    phase: HeartbeatPhase,
    pings_sent: u64,
    elapsed: u128,
}

/// Mathematical state of a heartbeat machine.
pub struct HeartbeatModel {
    /// milliseconds between probes
    pub interval: u64,
    /// milliseconds the peer has to answer a probe
    pub timeout: u64,
    pub phase: HeartbeatPhase,
    /// probes enqueued so far (saturating)
    pub pings_sent: u64,
    /// lower bound on milliseconds elapsed since the task started (saturating)
    pub elapsed: u128,
}

/// Addition on the elapsed-time bound, saturating at the type's maximum.
pub open spec fn spec_sat_add(a: u128, b: u64) -> u128 {
    if a + b <= u128::MAX {
        (a + b) as u128
    } else {
        u128::MAX
    }
}

/// Saturating increment of the probe counter.
pub open spec fn spec_sat_inc(a: u64) -> u64 {
    if a < u64::MAX {
        (a + 1) as u64
    } else {
        u64::MAX
    }
}

/// The state a heartbeat machine starts in.
pub open spec fn spec_heartbeat_init(interval: u64, timeout: u64) -> HeartbeatModel {
    HeartbeatModel { interval, timeout, phase: HeartbeatPhase::Grace, pings_sent: 0, elapsed: 0 }
}

/// The heartbeat transition relation, exactly as the protocol prescribes:
/// after the grace period the interval clock's first tick fires immediately,
/// so the first probe goes out at once; each probe must be answered within
/// the timeout or the machine fails; a failed send fails the machine; the
/// failed phase is terminal. An event that does not belong to the current
/// phase changes nothing.
pub open spec fn spec_heartbeat_step(m: HeartbeatModel, e: HeartbeatEvent) -> HeartbeatModel {
    match (m.phase, e) {
        (HeartbeatPhase::Grace, HeartbeatEvent::GraceElapsed) => HeartbeatModel {
            phase: HeartbeatPhase::SendPing,
            elapsed: spec_sat_add(m.elapsed, m.interval),
            ..m
        },
        (HeartbeatPhase::AwaitTick, HeartbeatEvent::Tick) => HeartbeatModel {
            phase: HeartbeatPhase::SendPing,
            ..m
        },
        (HeartbeatPhase::SendPing, HeartbeatEvent::PingSent) => HeartbeatModel {
            phase: HeartbeatPhase::AwaitPong,
            pings_sent: spec_sat_inc(m.pings_sent),
            ..m
        },
        (HeartbeatPhase::SendPing, HeartbeatEvent::PingSendFailed) => HeartbeatModel {
            phase: HeartbeatPhase::Failed,
            ..m
        },
        (HeartbeatPhase::AwaitPong, HeartbeatEvent::PongReceived) => HeartbeatModel {
            phase: HeartbeatPhase::AwaitTick,
            ..m
        },
        (HeartbeatPhase::AwaitPong, HeartbeatEvent::PongTimedOut) => HeartbeatModel {
            phase: HeartbeatPhase::Failed,
            elapsed: spec_sat_add(m.elapsed, m.timeout),
            ..m
        },
        (HeartbeatPhase::AwaitPong, HeartbeatEvent::PongSourceClosed) => HeartbeatModel {
            phase: HeartbeatPhase::Failed,
            ..m
        },
        _ => m,
    }
}

/// The action the driver must perform in a given phase.
pub open spec fn spec_heartbeat_action(p: HeartbeatPhase) -> HeartbeatAction {
    match p {
        HeartbeatPhase::Grace => HeartbeatAction::WaitGrace,
        HeartbeatPhase::AwaitTick => HeartbeatAction::WaitTick,
        HeartbeatPhase::SendPing => HeartbeatAction::SendPing,
        HeartbeatPhase::AwaitPong => HeartbeatAction::WaitPong,
        HeartbeatPhase::Failed => HeartbeatAction::Stop,
    }
}

impl View for Heartbeat {
    type V = HeartbeatModel;

    closed spec fn view(&self) -> HeartbeatModel {
        HeartbeatModel {
            interval: self.interval,
            timeout: self.timeout,
            phase: self.phase,
            pings_sent: self.pings_sent,
            elapsed: self.elapsed,
        }
    }
}

impl Heartbeat {
    /// A heartbeat machine at task start, in its grace period.
    pub fn new(interval: u64, timeout: u64) -> (h: Heartbeat)
        ensures
            h@ == spec_heartbeat_init(interval, timeout),
    {
        Heartbeat {
            interval,
            timeout,
            phase: HeartbeatPhase::Grace,
            pings_sent: 0,
            elapsed: 0,
        }
    }

    /// Advances the machine by one event and tells the driver what to do
    /// next.
    pub fn step(&mut self, e: HeartbeatEvent) -> (a: HeartbeatAction)
        ensures
            final(self)@ == spec_heartbeat_step(old(self)@, e),
            a == spec_heartbeat_action(final(self)@.phase),
    {
        match (self.phase, e) {
            (HeartbeatPhase::Grace, HeartbeatEvent::GraceElapsed) => {
                self.elapsed = if self.elapsed <= u128::MAX - self.interval as u128 {
                    self.elapsed + self.interval as u128
                } else {
                    u128::MAX
                };
                self.phase = HeartbeatPhase::SendPing;
            }
            (HeartbeatPhase::AwaitTick, HeartbeatEvent::Tick) => {
                self.phase = HeartbeatPhase::SendPing;
            }
            (HeartbeatPhase::SendPing, HeartbeatEvent::PingSent) => {
                self.pings_sent = if self.pings_sent < u64::MAX {
                    self.pings_sent + 1
                } else {
                    u64::MAX
                };
                self.phase = HeartbeatPhase::AwaitPong;
            }
            (HeartbeatPhase::SendPing, HeartbeatEvent::PingSendFailed) => {
                self.phase = HeartbeatPhase::Failed;
            }
            (HeartbeatPhase::AwaitPong, HeartbeatEvent::PongReceived) => {
                self.phase = HeartbeatPhase::AwaitTick;
            }
            (HeartbeatPhase::AwaitPong, HeartbeatEvent::PongTimedOut) => {
                self.elapsed = if self.elapsed <= u128::MAX - self.timeout as u128 {
                    self.elapsed + self.timeout as u128
                } else {
                    u128::MAX
                };
                self.phase = HeartbeatPhase::Failed;
            }
            (HeartbeatPhase::AwaitPong, HeartbeatEvent::PongSourceClosed) => {
                self.phase = HeartbeatPhase::Failed;
            }
            _ => {}
        }
        match self.phase {
            HeartbeatPhase::Grace => HeartbeatAction::WaitGrace,
            HeartbeatPhase::AwaitTick => HeartbeatAction::WaitTick,
            HeartbeatPhase::SendPing => HeartbeatAction::SendPing,
            HeartbeatPhase::AwaitPong => HeartbeatAction::WaitPong,
            HeartbeatPhase::Failed => HeartbeatAction::Stop,
        }
    }

    /// The phase the machine is in.
    pub fn phase(&self) -> (p: HeartbeatPhase)
        ensures
            p == self@.phase,
    {
        self.phase
    }

    /// How many probes have been enqueued so far.
    pub fn pings_sent(&self) -> (n: u64)
        ensures
            n == self@.pings_sent,
    {
        self.pings_sent
    }

    /// The verified lower bound on milliseconds elapsed since task start.
    pub fn elapsed_lower_bound(&self) -> (n: u128)
        ensures
            n == self@.elapsed,
    {
        self.elapsed
    }

    /// The heartbeat's failure, once it has failed.
    pub fn failure(&self) -> (r: Option<Error>)
        ensures
            self@.phase == HeartbeatPhase::Failed ==> r == Some(Error::HeartbeatTimeout),
            self@.phase != HeartbeatPhase::Failed ==> r is None,
    {
        match self.phase {
            HeartbeatPhase::Failed => Some(Error::HeartbeatTimeout),
            _ => None,
        }
    }
}

/// Law: with no pong ever delivered, the heartbeat fails with
/// `HeartbeatTimeout` after exactly one probe. Its run is: the grace period
/// elapses, the interval clock's immediate first tick sends a `Ping`, and the
/// full timeout passes unanswered — so failure comes no earlier than
/// `interval + timeout` milliseconds after task start, exactly one `Ping`
/// was sent, and (with `lemma_heartbeat_failed_is_absorbing`) no further
/// `Ping` is ever sent.
pub proof fn lemma_heartbeat_no_pong_times_out(interval: u64, timeout: u64)
    ensures
        ({
            let m0 = spec_heartbeat_init(interval, timeout);
            let m1 = spec_heartbeat_step(m0, HeartbeatEvent::GraceElapsed);
            let m2 = spec_heartbeat_step(m1, HeartbeatEvent::PingSent);
            let m3 = spec_heartbeat_step(m2, HeartbeatEvent::PongTimedOut);
            &&& m1.phase == HeartbeatPhase::SendPing
            &&& m2.phase == HeartbeatPhase::AwaitPong
            &&& m3.phase == HeartbeatPhase::Failed
            &&& m3.pings_sent == 1
            &&& m3.elapsed == interval as int + timeout as int
        }),
{
}

/// Law: the failed phase is terminal. No event moves a failed heartbeat, so
/// once it has failed it never sends another `Ping` and its probe count and
/// elapsed-time bound stand still.
pub proof fn lemma_heartbeat_failed_is_absorbing(m: HeartbeatModel, e: HeartbeatEvent)
    requires
        m.phase == HeartbeatPhase::Failed,
    ensures
        spec_heartbeat_step(m, e) == m,
{
}

} // verus!
