//! The output pipeline's decision logic: the queue of serialized
//! traces, the per-connection state machine, the classification of
//! handshake outcomes, and the bounded exponential backoff policy.
//!
//! The pipeline's sockets, sleeps and threads live outside the
//! library; they feed the machine what the network did and perform the
//! action the machine asks for. Every decision — when a trace is
//! dequeued, retransmitted, acknowledged, when a reconnect happens,
//! when the pipeline gives up — is made here, under contract.

use std::collections::VecDeque;

use crate::spans::{sat_add, saturating_add_u64};
use vstd::prelude::*;
use vstd::string::StringExecFns;

verus! {

/// The sender's view of one collector connection: the address to dial
/// and the authentication token, the token already terminated by the
/// line break the wire format wants.
pub struct PamCollectorOutput {
    pub addr: String,
    pub token: String,
}

impl PamCollectorOutput {
    pub fn new(token: String, addr: String) -> (r: PamCollectorOutput)
        ensures
            r.addr == addr,
            r.token@ == token@ + "\r\n"@,
    {
        let mut token = token;
        token.append("\r\n");
        PamCollectorOutput { addr, token }
    }
}

/// The pipeline's error value: any failure, wrapped as its message.
pub struct OutputError {
    pub message: String,
}

/// Wrap a failure's rendered message as the pipeline's error value.
pub fn new_io_err(err: String) -> (r: OutputError)
    ensures
        r.message == err,
{
    OutputError { message: err }
}

/// What the network did during one handshake attempt: the connect, the
/// token write, then the read of the collector's reply.
#[derive(Clone, Copy, Debug, PartialEq, Eq, Structural)]
pub enum HandshakeEvent {
    ConnectFailed,
    WriteFailed,
    ReadFailed,
    Read(usize),
}

/// How the attempt is treated: transient failures are retried under
/// backoff, a zero-byte reply means the token was rejected — a
/// permanent failure — and a non-empty reply authenticates.
#[derive(Clone, Copy, Debug, PartialEq, Eq, Structural)]
pub enum HandshakeOutcome {
    Transient,
    TokenRejected,
    Established,
}

pub open spec fn spec_classify_handshake(ev: HandshakeEvent) -> HandshakeOutcome {
    match ev {
        HandshakeEvent::ConnectFailed => HandshakeOutcome::Transient,
        HandshakeEvent::WriteFailed => HandshakeOutcome::Transient,
        HandshakeEvent::ReadFailed => HandshakeOutcome::Transient,
        HandshakeEvent::Read(n) => if n == 0 {
            HandshakeOutcome::TokenRejected
        } else {
            HandshakeOutcome::Established
        },
    }
}

/// Classify one handshake attempt: an I/O failure anywhere before
/// authentication completes is transient; a reply of zero bytes is a
/// rejected token, permanent; a reply of at least one byte
/// authenticates.
pub fn classify_handshake(ev: &HandshakeEvent) -> (r: HandshakeOutcome)
    ensures
        r == spec_classify_handshake(*ev),
{
    match ev {
        HandshakeEvent::ConnectFailed => HandshakeOutcome::Transient,
        HandshakeEvent::WriteFailed => HandshakeOutcome::Transient,
        HandshakeEvent::ReadFailed => HandshakeOutcome::Transient,
        HandshakeEvent::Read(n) => {
            if *n == 0 {
                HandshakeOutcome::TokenRejected
            } else {
                HandshakeOutcome::Established
            }
        },
    }
}

/// What the network did after one frame was written: the read of the
/// collector's acknowledgment.
#[derive(Clone, Copy, Debug, PartialEq, Eq, Structural)]
pub enum AckEvent {
    ReadFailed,
    Read(usize),
}

/// The sender's connection state. `Stopped` is the permanent state a
/// rejected token leaves the pipeline in.
#[derive(Clone, Copy, Debug, PartialEq, Eq, Structural)]
pub enum SenderState {
    Disconnected,
    Streaming,
    Stopped,
}

/// A frame as it goes on the wire: the payload with the line
/// terminator appended.
pub fn framed(payload: &str) -> (r: String)
    ensures
        r@ == payload@ + "\r\n"@,
{
    let mut s = payload.to_owned();
    s.append("\r\n");
    s
}

/// The sender's state between two interactions with the network: the
/// FIFO of serialized traces the producers filled, the frame currently
/// in flight (dequeued, written, not yet acknowledged — it is
/// retransmitted after a reconnect rather than lost), the connection
/// state, and counters for established connections and acknowledged
/// frames. Two ghost histories — everything ever enqueued, everything
/// ever acknowledged — carry the conservation law.
pub struct SenderMachine {
    pub queue: VecDeque<String>,
    pub pending: Option<String>,
    pub state: SenderState,
    pub connections: u64,
    pub acked: u64,
    pub hist_enqueued: Ghost<Seq<Seq<char>>>,
    pub hist_acked: Ghost<Seq<Seq<char>>>,
}

impl SenderMachine {
    /// The frames handed to the pipeline and not yet acknowledged: the
    /// one in flight, then the queue, in order.
    pub open spec fn spec_outstanding(self) -> Seq<Seq<char>> {
        (match self.pending {
            Option::Some(p) => seq![p@],
            Option::None => Seq::<Seq<char>>::empty(),
        }) + self.queue@.map_values(|s: String| s@)
    }

    /// The conservation invariant: every frame ever enqueued is either
    /// acknowledged or still outstanding, in order — none lost, none
    /// duplicated.
    pub open spec fn wf(self) -> bool {
        self.hist_enqueued@ == self.hist_acked@ + self.spec_outstanding()
    }

    pub fn new() -> (r: SenderMachine)
        ensures
            r.wf(),
            r.queue@.len() == 0,
            r.pending is None,
            r.state == SenderState::Disconnected,
            r.connections == 0,
            r.acked == 0,
            r.hist_enqueued@ == Seq::<Seq<char>>::empty(),
            r.hist_acked@ == Seq::<Seq<char>>::empty(),
    {
        let r = SenderMachine {
            queue: VecDeque::new(),
            pending: Option::None,
            state: SenderState::Disconnected,
            connections: 0,
            acked: 0,
            hist_enqueued: Ghost(Seq::empty()),
            hist_acked: Ghost(Seq::empty()),
        };
        proof {
            assert(r.queue@.map_values(|s: String| s@) =~= Seq::<Seq<char>>::empty());
            assert(r.hist_enqueued@ =~= r.hist_acked@ + r.spec_outstanding());
        }
        r
    }

    /// A producer hands the pipeline one serialized trace. Producers
    /// only ever append; they never wait on network state.
    pub fn enqueue(&mut self, frame: String)
        requires
            old(self).wf(),
        ensures
            final(self).wf(),
            final(self).queue@ == old(self).queue@.push(frame),
            final(self).pending == old(self).pending,
            final(self).state == old(self).state,
            final(self).connections == old(self).connections,
            final(self).acked == old(self).acked,
            final(self).hist_enqueued@ == old(self).hist_enqueued@.push(frame@),
            final(self).hist_acked@ == old(self).hist_acked@,
    {
        self.queue.push_back(frame);
        proof {
            self.hist_enqueued@ = self.hist_enqueued@.push(frame@);
            assert(self.queue@.map_values(|s: String| s@) =~= old(self).queue@.map_values(
                |s: String| s@,
            ).push(frame@));
            assert(self.spec_outstanding() =~= old(self).spec_outstanding().push(frame@));
            assert(self.hist_enqueued@ =~= self.hist_acked@ + self.spec_outstanding());
        }
    }

    /// Feed the machine the outcome of one handshake attempt. On
    /// authentication the sender starts (or resumes) streaming and the
    /// connection count rises; a rejected token stops the pipeline for
    /// good; a transient failure leaves it disconnected, to be retried
    /// under backoff.
    pub fn on_handshake(&mut self, outcome: &HandshakeOutcome)
        requires
            old(self).wf(),
            old(self).state == SenderState::Disconnected,
        ensures
            final(self).wf(),
            final(self).queue == old(self).queue,
            final(self).pending == old(self).pending,
            final(self).acked == old(self).acked,
            final(self).hist_enqueued@ == old(self).hist_enqueued@,
            final(self).hist_acked@ == old(self).hist_acked@,
            match *outcome {
                HandshakeOutcome::Established => final(self).state == SenderState::Streaming
                    && final(self).connections == sat_add(old(self).connections, 1),
                HandshakeOutcome::TokenRejected => final(self).state == SenderState::Stopped
                    && final(self).connections == old(self).connections,
                HandshakeOutcome::Transient => final(self).state == SenderState::Disconnected
                    && final(self).connections == old(self).connections,
            },
    {
        match outcome {
            HandshakeOutcome::Established => {
                self.state = SenderState::Streaming;
                self.connections = saturating_add_u64(self.connections, 1);
            },
            HandshakeOutcome::TokenRejected => {
                self.state = SenderState::Stopped;
            },
            HandshakeOutcome::Transient => {},
        }
    }

    /// The frame the sender should write next: the one already in
    /// flight if an earlier write went unacknowledged (retransmission
    /// after a reconnect), else the queue's front, which moves to the
    /// in-flight slot. None when the machine is not streaming or
    /// nothing is waiting — the caller then polls again after a short
    /// sleep.
    pub fn next_to_send(&mut self) -> (r: Option<String>)
        requires
            old(self).wf(),
        ensures
            final(self).wf(),
            final(self).state == old(self).state,
            final(self).connections == old(self).connections,
            final(self).acked == old(self).acked,
            final(self).hist_enqueued@ == old(self).hist_enqueued@,
            final(self).hist_acked@ == old(self).hist_acked@,
            old(self).state != SenderState::Streaming ==> r is None && *final(self) == *old(self),
            old(self).state == SenderState::Streaming ==> match old(self).pending {
                Option::Some(p) => r == Option::Some(p) && *final(self) == *old(self),
                Option::None => {
                    if old(self).queue@.len() == 0 {
                        r is None && *final(self) == *old(self)
                    } else {
                        &&& r == Option::Some(old(self).queue@[0])
                        &&& final(self).pending == Option::Some(old(self).queue@[0])
                        &&& final(self).queue@ == old(self).queue@.drop_first()
                    }
                },
            },
    {
        match self.state {
            SenderState::Streaming => {},
            _ => {
                return Option::None;
            },
        }
        match &self.pending {
            Option::Some(p) => {
                return Option::Some(p.clone());
            },
            Option::None => {},
        }
        if self.queue.len() == 0 {
            return Option::None;
        }
        let front = self.queue.pop_front();
        match front {
            Option::Some(f) => {
                let out = f.clone();
                self.pending = Option::Some(f);
                proof {
                    assert(self.queue@ =~= old(self).queue@.drop_first());
                    assert(self.queue@.map_values(|s: String| s@) =~= old(
                        self,
                    ).queue@.map_values(|s: String| s@).drop_first());
                    assert(self.spec_outstanding() =~= old(self).spec_outstanding());
                }
                Option::Some(out)
            },
            Option::None => {
                proof {
                    assert(false);
                }
                Option::None
            },
        }
    }

    /// Feed the machine what the read after one frame write returned.
    /// A reply of at least one byte acknowledges the in-flight frame;
    /// a zero-byte reply or a failed read means the connection is gone:
    /// the sender goes back to `Disconnected` and the frame stays in
    /// flight, to be retransmitted once a new connection authenticates.
    pub fn on_send_result(&mut self, ev: &AckEvent)
        requires
            old(self).wf(),
            old(self).state == SenderState::Streaming,
            old(self).pending is Some,
        ensures
            final(self).wf(),
            final(self).queue == old(self).queue,
            final(self).connections == old(self).connections,
            final(self).hist_enqueued@ == old(self).hist_enqueued@,
            match *ev {
                AckEvent::Read(n) => if n > 0 {
                    &&& final(self).state == SenderState::Streaming
                    &&& final(self).pending is None
                    &&& final(self).acked == sat_add(old(self).acked, 1)
                    &&& final(self).hist_acked@ == old(self).hist_acked@.push(
                        old(self).pending->0@,
                    )
                } else {
                    &&& final(self).state == SenderState::Disconnected
                    &&& final(self).pending == old(self).pending
                    &&& final(self).acked == old(self).acked
                    &&& final(self).hist_acked@ == old(self).hist_acked@
                },
                AckEvent::ReadFailed => {
                    &&& final(self).state == SenderState::Disconnected
                    &&& final(self).pending == old(self).pending
                    &&& final(self).acked == old(self).acked
                    &&& final(self).hist_acked@ == old(self).hist_acked@
                },
            },
    {
        let acknowledged = match ev {
            AckEvent::Read(n) => *n > 0,
            AckEvent::ReadFailed => false,
        };
        if acknowledged {
            proof {
                self.hist_acked@ = self.hist_acked@.push(self.pending->0@);
            }
            self.pending = Option::None;
            self.acked = saturating_add_u64(self.acked, 1);
            proof {
                assert(old(self).spec_outstanding() =~= seq![old(self).pending->0@]
                    + self.spec_outstanding());
                assert(self.hist_enqueued@ =~= self.hist_acked@ + self.spec_outstanding());
            }
        } else {
            self.state = SenderState::Disconnected;
        }
    }
}

/// The conservation law of the output pipeline: at every reachable
/// state, the frames ever enqueued are exactly the frames already
/// acknowledged followed by the frames still outstanding (the one in
/// flight, then the queue), in order. No trace handed to the pipeline
/// is lost or duplicated, whatever the network does.
pub proof fn lemma_no_trace_lost_or_duplicated(m: SenderMachine)
    requires
        m.wf(),
    ensures
        m.hist_enqueued@ == m.hist_acked@ + m.spec_outstanding(),
{
}

/// The backoff policy for transient handshake failures, as a pure
/// state: the next delay, and the delay time spent so far. The delay
/// starts at half a second, grows by half each attempt, and is capped
/// at a minute; after fifteen minutes of accumulated delay the policy
/// gives up.
pub struct BackoffPolicy {
    pub delay_ms: u64,
    pub elapsed_ms: u64,
}

pub open spec fn spec_next_backoff(d: u64) -> u64 {
    if d >= 40000 {
        60000
    } else {
        (d + d / 2) as u64
    }
}

impl BackoffPolicy {
    pub fn new() -> (r: BackoffPolicy)
        ensures
            r.delay_ms == 500,
            r.elapsed_ms == 0,
    {
        BackoffPolicy { delay_ms: 500, elapsed_ms: 0 }
    }

    /// The delay to sleep before the next attempt, or None when the
    /// policy has given up. Each draw accounts its delay and grows the
    /// next one.
    pub fn next_delay(&mut self) -> (r: Option<u64>)
        ensures
            old(self).elapsed_ms >= 900000 ==> r is None && *final(self) == *old(self),
            old(self).elapsed_ms < 900000 ==> {
                &&& r == Option::Some(old(self).delay_ms)
                &&& final(self).delay_ms == spec_next_backoff(old(self).delay_ms)
                &&& final(self).elapsed_ms == sat_add(old(self).elapsed_ms, old(self).delay_ms)
            },
    {
        if self.elapsed_ms >= 900000 {
            return Option::None;
        }
        let d = self.delay_ms;
        self.elapsed_ms = saturating_add_u64(self.elapsed_ms, d);
        self.delay_ms = if d >= 40000 {
            60000
        } else {
            d + d / 2
        };
        Option::Some(d)
    }
}

} // verus!
