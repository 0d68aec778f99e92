//! The daemon core's state machine.
//!
//! The long-running daemon accepts rendezvous connections in triples (input,
//! output, diagnostic), pumps application envelopes in and out through the
//! framing codec, forwards diagnostic bytes, and shuts itself down after an
//! idle period with no connected proxy. A connection's I/O error is never
//! fatal: it only returns the daemon to `AwaitingConnection`, keeping the
//! process and every envelope still queued on the outbound channel, so that a
//! fresh attach resumes delivery where the last one stopped.

use crate::protocol::{encode_message, payload_fits, spec_encode, Envelope};
use vstd::prelude::*;

verus! {

/// How long the daemon waits in `AwaitingConnection` before giving up and
/// terminating: ten minutes, measured from the moment it has no triple.
pub const IDLE_WINDOW_MILLIS: u64 = 600000;

/// The daemon's three lifecycle states.
#[derive(Clone, Copy, Debug, PartialEq, Eq, Structural)]
pub enum DaemonPhase {
    /// No connection triple; racing new connections, the idle timer and the
    /// app-quit signal.
    AwaitingConnection,
    /// One connection triple; running the three pump duties against it.
    Active,
    /// Terminal: the hosting process exits.
    Terminating,
}

/// The three events that can end one `AwaitingConnection` round.
#[derive(Clone, Copy, Debug, PartialEq, Eq, Structural)]
pub enum AwaitEvent {
    /// All three listeners produced a new connection: a full triple arrived.
    TripleAccepted,
    /// The idle window elapsed with no triple.
    IdleElapsed,
    /// The external app-quit signal arrived.
    AppQuit,
}

/// The daemon core as its contracts see it: the lifecycle phase, the three
/// internal channels as sequences of payloads (oldest first), and whether the
/// daemon has asked its hosting process to shut down.
#[verifier::ext_equal]
pub ghost struct DaemonView {
    pub phase: DaemonPhase,
    /// Envelopes decoded off the input socket, not yet consumed by the hosted
    /// application.
    pub inbound: Seq<Seq<u8>>,
    /// Envelopes submitted by the hosted application, not yet written to an
    /// output socket.
    pub outbound: Seq<Seq<u8>>,
    /// Raw diagnostic chunks not yet forwarded to a diagnostic socket.
    pub diagnostics: Seq<Seq<u8>>,
    pub shutdown_requested: bool,
}

/// The daemon core: lifecycle phase plus the internal channels that outlive
/// any single connection triple.
pub struct DaemonCore {
    phase: DaemonPhase,
    inbound: Vec<Envelope>,
    outbound: Vec<Envelope>,
    diagnostics: Vec<Vec<u8>>,
    shutdown_requested: bool,
}

/// The payloads of a queue of envelopes, oldest first.
pub open spec fn payloads_of(q: Seq<Envelope>) -> Seq<Seq<u8>> {
    q.map_values(|e: Envelope| e@)
}

/// The views of a queue of byte buffers, oldest first.
pub open spec fn chunks_of(q: Seq<Vec<u8>>) -> Seq<Seq<u8>> {
    q.map_values(|c: Vec<u8>| c@)
}

/// The wire frames of a queue of payloads, in queue order.
pub open spec fn frames_of(q: Seq<Seq<u8>>) -> Seq<Seq<u8>> {
    q.map_values(|p: Seq<u8>| spec_encode(p))
}

/// What one `AwaitingConnection` round does to the daemon: a new triple makes
/// it `Active`; the idle window elapsing terminates it and additionally asks
/// the hosting process to shut down; app-quit terminates it. The channels are
/// never touched.
pub open spec fn spec_await_step(v: DaemonView, ev: AwaitEvent) -> DaemonView
    recommends
        v.phase == DaemonPhase::AwaitingConnection,
{
    match ev {
        AwaitEvent::TripleAccepted => DaemonView { phase: DaemonPhase::Active, ..v },
        AwaitEvent::IdleElapsed => DaemonView {
            phase: DaemonPhase::Terminating,
            shutdown_requested: true,
            ..v
        },
        AwaitEvent::AppQuit => DaemonView { phase: DaemonPhase::Terminating, ..v },
    }
}

/// Which event ends one `AwaitingConnection` round: a triple whose three
/// connections all arrived within the idle window wins the race; with no
/// triple in time the idle timer fires; the quit signal preempts both.
pub open spec fn await_outcome(triple_at_millis: Option<u64>, quit: bool) -> AwaitEvent {
    if quit {
        AwaitEvent::AppQuit
    } else if triple_at_millis is Some && triple_at_millis->0 < IDLE_WINDOW_MILLIS {
        AwaitEvent::TripleAccepted
    } else {
        AwaitEvent::IdleElapsed
    }
}

impl View for DaemonCore {
    type V = DaemonView;

    closed spec fn view(&self) -> DaemonView {
        DaemonView {
            phase: self.phase,
            inbound: payloads_of(self.inbound@),
            outbound: payloads_of(self.outbound@),
            diagnostics: chunks_of(self.diagnostics@),
            shutdown_requested: self.shutdown_requested,
        }
    }
}

impl DaemonCore {
    /// Every queued outbound envelope can be framed.
    pub open spec fn wf(&self) -> bool {
        forall|i: int| 0 <= i < self@.outbound.len() ==> payload_fits(#[trigger] self@.outbound[i])
    }

    /// A fresh daemon core: awaiting its first connection triple, with empty
    /// channels, its idle window just armed.
    pub fn new() -> (r: DaemonCore)
        ensures
            r.wf(),
            r@ == (DaemonView {
                phase: DaemonPhase::AwaitingConnection,
                inbound: Seq::<Seq<u8>>::empty(),
                outbound: Seq::<Seq<u8>>::empty(),
                diagnostics: Seq::<Seq<u8>>::empty(),
                shutdown_requested: false,
            }),
    {
        let r = DaemonCore {
            phase: DaemonPhase::AwaitingConnection,
            inbound: Vec::new(),
            outbound: Vec::new(),
            diagnostics: Vec::new(),
            shutdown_requested: false,
        };
        proof {
            assert(r@.inbound =~= Seq::<Seq<u8>>::empty());
            assert(r@.outbound =~= Seq::<Seq<u8>>::empty());
            assert(r@.diagnostics =~= Seq::<Seq<u8>>::empty());
        }
        r
    }

    pub fn phase(&self) -> (r: DaemonPhase)
        ensures
            r == self@.phase,
    {
        self.phase
    }

    pub fn shutdown_requested(&self) -> (r: bool)
        ensures
            r == self@.shutdown_requested,
    {
        self.shutdown_requested
    }

    /// Resolves one `AwaitingConnection` round. An elapsed idle window is a
    /// terminal event: the daemon transitions to `Terminating` and requests a
    /// clean hosting-process shutdown. A new triple transitions to `Active`
    /// and never terminates the daemon. No event touches the channels.
    pub fn await_event(&mut self, ev: AwaitEvent)
        requires
            old(self).wf(),
            old(self)@.phase == DaemonPhase::AwaitingConnection,
        ensures
            final(self).wf(),
            final(self)@ == spec_await_step(old(self)@, ev),
    {
        match ev {
            AwaitEvent::TripleAccepted => {
                self.phase = DaemonPhase::Active;
            },
            AwaitEvent::IdleElapsed => {
                self.phase = DaemonPhase::Terminating;
                self.shutdown_requested = true;
            },
            AwaitEvent::AppQuit => {
                self.phase = DaemonPhase::Terminating;
            },
        }
    }

    /// The hosted application submits an envelope for delivery. The envelope
    /// joins the tail of the outbound channel whatever the phase: envelopes
    /// queued while no triple is connected wait for the next one.
    pub fn enqueue_outbound(&mut self, env: Envelope)
        requires
            old(self).wf(),
            payload_fits(env@),
        ensures
            final(self).wf(),
            final(self)@ == (DaemonView { outbound: old(self)@.outbound.push(env@), ..old(self)@ }),
    {
        let ghost pre = self@;
        self.outbound.push(env);
        proof {
            assert(self@.outbound =~= pre.outbound.push(env@));
            assert(self@ =~= (DaemonView { outbound: pre.outbound.push(env@), ..pre }));
        }
    }

    /// The read duty forwards an envelope decoded off the input socket to the
    /// inbound channel for the hosted application.
    pub fn accept_inbound(&mut self, env: Envelope)
        requires
            old(self).wf(),
            old(self)@.phase == DaemonPhase::Active,
        ensures
            final(self).wf(),
            final(self)@ == (DaemonView { inbound: old(self)@.inbound.push(env@), ..old(self)@ }),
    {
        let ghost pre = self@;
        self.inbound.push(env);
        proof {
            assert(self@.inbound =~= pre.inbound.push(env@));
            assert(self@ =~= (DaemonView { inbound: pre.inbound.push(env@), ..pre }));
        }
    }

    /// The hosted application consumes the oldest inbound envelope.
    pub fn take_inbound(&mut self) -> (r: Option<Envelope>)
        requires
            old(self).wf(),
        ensures
            final(self).wf(),
            old(self)@.inbound.len() == 0 ==> r is None && final(self)@ == old(self)@,
            old(self)@.inbound.len() > 0 ==> {
                &&& r is Some
                &&& r->0@ == old(self)@.inbound[0]
                &&& final(self)@ == (DaemonView {
                    inbound: old(self)@.inbound.skip(1),
                    ..old(self)@
                })
            },
    {
        let ghost pre = self@;
        if self.inbound.len() == 0 {
            proof {
                assert(self@ =~= pre);
            }
            None
        } else {
            let env = self.inbound.remove(0);
            proof {
                assert(self@.inbound =~= pre.inbound.skip(1));
                assert(self@ =~= (DaemonView { inbound: pre.inbound.skip(1), ..pre }));
            }
            Some(env)
        }
    }

    /// A diagnostic chunk (a log record's bytes) joins the diagnostic channel.
    pub fn enqueue_diagnostic(&mut self, chunk: Vec<u8>)
        requires
            old(self).wf(),
        ensures
            final(self).wf(),
            final(self)@ == (DaemonView {
                diagnostics: old(self)@.diagnostics.push(chunk@),
                ..old(self)@
            }),
    {
        let ghost pre = self@;
        self.diagnostics.push(chunk);
        proof {
            assert(self@.diagnostics =~= pre.diagnostics.push(chunk@));
            assert(self@ =~= (DaemonView { diagnostics: pre.diagnostics.push(chunk@), ..pre }));
        }
    }

    /// The write duty: takes the oldest outbound envelope and encodes it for
    /// the output socket. Envelopes leave in submission order, already framed.
    pub fn next_outbound_frame(&mut self) -> (r: Option<Vec<u8>>)
        requires
            old(self).wf(),
            old(self)@.phase == DaemonPhase::Active,
        ensures
            final(self).wf(),
            old(self)@.outbound.len() == 0 ==> r is None && final(self)@ == old(self)@,
            old(self)@.outbound.len() > 0 ==> {
                &&& r is Some
                &&& r->0@ == spec_encode(old(self)@.outbound[0])
                &&& final(self)@ == (DaemonView {
                    outbound: old(self)@.outbound.skip(1),
                    ..old(self)@
                })
            },
    {
        let ghost pre = self@;
        if self.outbound.len() == 0 {
            proof {
                assert(self@ =~= pre);
            }
            None
        } else {
            let env = self.outbound.remove(0);
            proof {
                assert(self@.outbound =~= pre.outbound.skip(1));
                assert(self@ =~= (DaemonView { outbound: pre.outbound.skip(1), ..pre }));
                assert(env@ == pre.outbound[0]);
                assert(payload_fits(pre.outbound[0]));
            }
            Some(encode_message(&env.payload))
        }
    }

    /// The forwarding duty: takes the oldest diagnostic chunk for the
    /// diagnostic socket. Chunks leave in write order and are passed through
    /// raw, not re-framed.
    pub fn next_diagnostic_chunk(&mut self) -> (r: Option<Vec<u8>>)
        requires
            old(self).wf(),
            old(self)@.phase == DaemonPhase::Active,
        ensures
            final(self).wf(),
            old(self)@.diagnostics.len() == 0 ==> r is None && final(self)@ == old(self)@,
            old(self)@.diagnostics.len() > 0 ==> {
                &&& r is Some
                &&& r->0@ == old(self)@.diagnostics[0]
                &&& final(self)@ == (DaemonView {
                    diagnostics: old(self)@.diagnostics.skip(1),
                    ..old(self)@
                })
            },
    {
        let ghost pre = self@;
        if self.diagnostics.len() == 0 {
            proof {
                assert(self@ =~= pre);
            }
            None
        } else {
            let chunk = self.diagnostics.remove(0);
            proof {
                assert(self@.diagnostics =~= pre.diagnostics.skip(1));
                assert(self@ =~= (DaemonView { diagnostics: pre.diagnostics.skip(1), ..pre }));
            }
            Some(chunk)
        }
    }

    /// Any I/O error on the current triple (peer closed, broken pipe) ends
    /// the `Active` state and re-enters `AwaitingConnection`, re-arming the
    /// idle window. The process survives and every channel is kept intact:
    /// this is the reconnection point.
    pub fn connection_lost(&mut self)
        requires
            old(self).wf(),
            old(self)@.phase == DaemonPhase::Active,
        ensures
            final(self).wf(),
            final(self)@ == (DaemonView { phase: DaemonPhase::AwaitingConnection, ..old(self)@ }),
    {
        self.phase = DaemonPhase::AwaitingConnection;
    }

    /// Writes out every queued outbound envelope in submission order: the
    /// frames handed back are exactly the frames of the queue, oldest first.
    pub fn drain_outbound(&mut self) -> (r: Vec<Vec<u8>>)
        requires
            old(self).wf(),
            old(self)@.phase == DaemonPhase::Active,
        ensures
            final(self).wf(),
            chunks_of(r@) == frames_of(old(self)@.outbound),
            final(self)@ == (DaemonView { outbound: Seq::<Seq<u8>>::empty(), ..old(self)@ }),
    {
        let ghost pre = self@;
        let mut r: Vec<Vec<u8>> = Vec::new();
        proof {
            assert(chunks_of(r@) =~= frames_of(pre.outbound.take(0)));
            assert(pre.outbound.skip(0) =~= pre.outbound);
        }
        loop
            invariant
                self.wf(),
                self@.phase == DaemonPhase::Active,
                r@.len() <= pre.outbound.len(),
                chunks_of(r@) == frames_of(pre.outbound.take(r@.len() as int)),
                self@ == (DaemonView { outbound: pre.outbound.skip(r@.len() as int), ..pre }),
            ensures
                chunks_of(r@) == frames_of(pre.outbound),
                self@ == (DaemonView { outbound: Seq::<Seq<u8>>::empty(), ..pre }),
            decreases self@.outbound.len(),
        {
            let ghost n = r@.len() as int;
            match self.next_outbound_frame() {
                Some(frame) => {
                    let ghost r_prev = r@;
                    r.push(frame);
                    proof {
                        assert(pre.outbound.skip(n)[0] == pre.outbound[n]);
                        assert(frame@ == spec_encode(pre.outbound[n]));
                        assert forall|i: int| 0 <= i < r@.len() implies #[trigger] chunks_of(r@)[i]
                            == frames_of(pre.outbound.take(n + 1))[i] by {
                            if i < n {
                                assert(r@[i] == r_prev[i]);
                                assert(chunks_of(r_prev)[i] == frames_of(pre.outbound.take(n))[i]);
                                assert(pre.outbound.take(n)[i] == pre.outbound[i]);
                            }
                            assert(pre.outbound.take(n + 1)[i] == pre.outbound[i]);
                        }
                        assert(chunks_of(r@) =~= frames_of(pre.outbound.take(n + 1)));
                        assert(pre.outbound.skip(n).skip(1) =~= pre.outbound.skip(n + 1));
                        assert(self@ =~= (DaemonView {
                            outbound: pre.outbound.skip(n + 1),
                            ..pre
                        }));
                    }
                },
                None => {
                    proof {
                        assert(pre.outbound.take(n) =~= pre.outbound);
                        assert(pre.outbound.skip(n) =~= Seq::<Seq<u8>>::empty());
                    }
                    break ;
                },
            }
        }
        r
    }
}

/// Idle shutdown: a daemon core whose idle window elapses with no connection
/// triple transitions to `Terminating` and requests a hosting-process
/// shutdown; one whose triple arrives within the window transitions to
/// `Active` and does not terminate.
pub proof fn idle_shutdown(v: DaemonView, triple_at_millis: Option<u64>)
    requires
        v.phase == DaemonPhase::AwaitingConnection,
    ensures
        (triple_at_millis is None || triple_at_millis->0 >= IDLE_WINDOW_MILLIS) ==> ({
            let next = spec_await_step(v, await_outcome(triple_at_millis, false));
            next.phase == DaemonPhase::Terminating && next.shutdown_requested
        }),
        (triple_at_millis is Some && triple_at_millis->0 < IDLE_WINDOW_MILLIS) ==> ({
            let next = spec_await_step(v, await_outcome(triple_at_millis, false));
            next.phase == DaemonPhase::Active && next.phase != DaemonPhase::Terminating
        }),
{
}

/// Reconnect resumes delivery: an envelope enqueued on the outbound channel
/// while no triple is connected is still queued, behind every envelope that
/// was pending before it, when a new triple attaches; the write duty then
/// emits the pending frames in exactly that order (`drain_outbound`).
pub proof fn reconnect_resumes_delivery(v: DaemonView, p: Seq<u8>)
    requires
        v.phase == DaemonPhase::AwaitingConnection,
    ensures
        ({
            let queued = DaemonView { outbound: v.outbound.push(p), ..v };
            let attached = spec_await_step(queued, AwaitEvent::TripleAccepted);
            &&& attached.phase == DaemonPhase::Active
            &&& attached.outbound == v.outbound.push(p)
            &&& frames_of(attached.outbound) == frames_of(v.outbound).push(spec_encode(p))
        }),
{
    let queued = DaemonView { outbound: v.outbound.push(p), ..v };
    let attached = spec_await_step(queued, AwaitEvent::TripleAccepted);
    assert(frames_of(attached.outbound) =~= frames_of(v.outbound).push(spec_encode(p)));
}

} // verus!
