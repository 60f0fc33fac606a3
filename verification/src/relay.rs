//! The relay pair: executable state of one session, driven event by event
//! by the two copier tasks and their supervisor. Every transition is pinned
//! to a step function of [`RelayModel`], so the session-level laws proved
//! over the model hold of this code.

use vstd::prelude::*;

use crate::history::concat_payloads;
use crate::history::forwarded_messages;
use crate::history::lemma_concat_push;
use crate::history::lemma_forwarded_push;
use crate::model::RelayModel;
use crate::model::SessionState;
use crate::signal::ShutdownSignal;

verus! {

/// A message received on the WebSocket side. Only Binary payloads are
/// tunneled; Close ends the session cleanly; Text, Ping and Pong carry no
/// relay semantics.
pub enum WsMessage {
    /// Payload to be written, in full, to the TCP peer.
    Binary(Vec<u8>),
    /// Clean shutdown initiated by the remote peer.
    Close,
    /// Ignored by the relay.
    Text,
    /// Ignored by the relay.
    Ping,
    /// Ignored by the relay.
    Pong,
}

/// What the downstream copier must do with the message it just received.
#[derive(Clone, Copy, PartialEq, Eq, Structural, Debug)]
pub enum DownstreamAction {
    /// Write the message's payload to the TCP write half, to completion.
    Write,
    /// Stop the loop: the peer closed cleanly.
    Stop,
    /// Nothing to do for this message.
    Skip,
}

/// Executable state of one relay session. The two copier tasks and their
/// supervisor report each event here and obey the returned decision; the
/// ghost fields carry the byte histories the contracts speak of.
pub struct Relay {
    state: SessionState,
    signal: ShutdownSignal,
    upstream_done: bool,
    downstream_done: bool,
    completion_notified: bool,
    forwarded_count: u64,
    delivered_count: u64,
    pending_off: usize,
    pending_len: usize,
    reads: Ghost<Seq<Seq<u8>>>,
    sent: Ghost<Seq<Seq<u8>>>,
    up_pending: Ghost<Option<Seq<u8>>>,
    received: Ghost<Seq<Seq<u8>>>,
    pending: Ghost<Option<Seq<u8>>>,
    delivered: Ghost<Seq<u8>>,
}

impl View for Relay {
    type V = RelayModel;

    closed spec fn view(&self) -> RelayModel {
        RelayModel {
            state: self.state,
            signal_fired: self.signal.is_fired(),
            upstream_done: self.upstream_done,
            downstream_done: self.downstream_done,
            completion_notified: self.completion_notified,
            reads: self.reads@,
            sent: self.sent@,
            up_pending: self.up_pending@,
            received: self.received@,
            pending: self.pending@,
            pending_off: self.pending_off as nat,
            delivered: self.delivered@,
        }
    }
}

impl Relay {
    /// The session's invariant: the model is well formed and the runtime
    /// counters agree with the ghost histories.
    pub closed spec fn inv(self) -> bool {
        &&& self@.wf()
        &&& self.forwarded_count as nat == self@.sent.len()
        &&& self.delivered_count as nat == self@.delivered.len()
        &&& (self@.pending is Some ==> self.pending_len == self@.pending->0.len())
        &&& (self@.pending is None ==> self.pending_off == 0 && self.pending_len == 0)
    }

    /// A fresh session: TCP dial in progress, nothing relayed.
    pub fn new() -> (r: Relay)
        ensures
            r.inv(),
            r@ == RelayModel::init(),
    {
        let r = Relay {
            state: SessionState::Connecting,
            signal: ShutdownSignal::new(),
            upstream_done: false,
            downstream_done: false,
            completion_notified: false,
            forwarded_count: 0,
            delivered_count: 0,
            pending_off: 0,
            pending_len: 0,
            reads: Ghost(Seq::empty()),
            sent: Ghost(Seq::empty()),
            up_pending: Ghost(None),
            received: Ghost(Seq::empty()),
            pending: Ghost(None),
            delivered: Ghost(Seq::empty()),
        };
        proof {
            assert(r@ =~= RelayModel::init());
        }
        r
    }

    /// The session's lifecycle state.
    pub fn state(&self) -> (s: SessionState)
        ensures
            s == self@.state,
    {
        self.state
    }

    /// Whether the shutdown signal has been fired.
    pub fn signal_fired(&self) -> (fired: bool)
        ensures
            fired == self@.signal_fired,
    {
        self.signal.poll()
    }

    /// How many Binary messages the WebSocket send half has accepted.
    pub fn forwarded_count(&self) -> (n: u64)
        requires
            self.inv(),
        ensures
            n as nat == self@.sent.len(),
    {
        self.forwarded_count
    }

    /// How many bytes the TCP write half has accepted.
    pub fn delivered_count(&self) -> (n: u64)
        requires
            self.inv(),
        ensures
            n as nat == self@.delivered.len(),
    {
        self.delivered_count
    }

    /// Both endpoints are ready: the session becomes active and the two
    /// copiers may start.
    pub fn on_endpoints_ready(&mut self)
        requires
            old(self).inv(),
            old(self)@.state is Connecting,
        ensures
            final(self).inv(),
            final(self)@ == old(self)@.after_ready(),
            final(self)@.state is Active,
    {
        self.state = SessionState::Active;
        proof {
            assert(self@ =~= old(self)@.after_ready());
        }
    }

    /// The TCP dial failed: the session closes immediately, with no bytes
    /// relayed, and the WebSocket connection is to be torn down.
    pub fn on_dial_failure(&mut self)
        requires
            old(self).inv(),
            old(self)@.state is Connecting,
        ensures
            final(self).inv(),
            final(self)@ == old(self)@.after_dial_failure(),
            final(self)@.state is Closed,
            final(self)@.sent.len() == 0,
            final(self)@.delivered.len() == 0,
    {
        self.state = SessionState::Closed;
        self.upstream_done = true;
        self.downstream_done = true;
        proof {
            assert(self@.sent =~= forwarded_messages(self@.reads).subrange(
                0,
                self@.sent.len() as int,
            ));
            assert(concat_payloads(self@.received) =~= self@.delivered.subrange(
                0,
                concat_payloads(self@.received).len() as int,
            ));
            assert(self@ =~= old(self)@.after_dial_failure());
        }
    }

    /// An external, process-level shutdown request: fire the signal so both
    /// copiers drain at their next poll. Requesting shutdown twice is a
    /// silent no-op.
    pub fn request_shutdown(&mut self)
        requires
            old(self).inv(),
        ensures
            final(self).inv(),
            final(self)@ == old(self)@.after_request_shutdown(),
            final(self)@.signal_fired,
    {
        self.signal.fire();
        proof {
            assert(self@ =~= old(self)@.after_request_shutdown());
        }
    }

    /// The upstream copier has exited: record it and advance the lifecycle.
    fn upstream_exited(&mut self)
        requires
            old(self).inv(),
            !old(self)@.upstream_done,
        ensures
            final(self).inv(),
            final(self)@ == old(self)@.with_upstream_done(),
    {
        self.upstream_done = true;
        self.state = if self.downstream_done {
            SessionState::Closed
        } else {
            SessionState::Draining
        };
        self.up_pending = Ghost(None);
        proof {
            match old(self)@.up_pending {
                None => {
                    assert(self@.sent =~= forwarded_messages(self@.reads).subrange(
                        0,
                        self@.sent.len() as int,
                    ));
                },
                Some(p) => {
                    assert(forwarded_messages(self@.reads) == self@.sent.push(p));
                    assert(self@.sent =~= forwarded_messages(self@.reads).subrange(
                        0,
                        self@.sent.len() as int,
                    ));
                },
            }
            assert(self@ =~= old(self)@.with_upstream_done());
        }
    }

    /// The downstream copier has exited: record it and advance the
    /// lifecycle.
    fn downstream_exited(&mut self)
        requires
            old(self).inv(),
            !old(self)@.downstream_done,
        ensures
            final(self).inv(),
            final(self)@ == old(self)@.with_downstream_done(),
    {
        self.downstream_done = true;
        self.state = if self.upstream_done {
            SessionState::Closed
        } else {
            SessionState::Draining
        };
        self.pending = Ghost(None);
        self.pending_off = 0;
        self.pending_len = 0;
        proof {
            match old(self)@.pending {
                None => {
                    assert(concat_payloads(self@.received) =~= self@.delivered.subrange(
                        0,
                        concat_payloads(self@.received).len() as int,
                    ));
                },
                Some(p) => {
                    assert(concat_payloads(self@.received) =~= self@.delivered.subrange(
                        0,
                        concat_payloads(self@.received).len() as int,
                    ));
                },
            }
            assert(self@ =~= old(self)@.with_downstream_done());
        }
    }

    /// The upstream copier's cooperative-cancellation point, checked once
    /// per loop iteration, never mid-read: returns whether the copier may
    /// go on. When the shutdown signal has been fired the copier exits
    /// cleanly, without firing the signal itself.
    pub fn upstream_poll(&mut self) -> (cont: bool)
        requires
            old(self).inv(),
            !old(self)@.upstream_done,
            old(self)@.up_pending is None,
            !(old(self)@.state is Connecting),
        ensures
            final(self).inv(),
            final(self)@ == old(self)@.after_upstream_poll(),
            cont == !old(self)@.signal_fired,
            !cont ==> final(self)@.upstream_done,
            cont ==> *final(self) == *old(self),
    {
        if self.signal.poll() {
            self.upstream_exited();
            false
        } else {
            true
        }
    }

    /// A TCP read delivered `chunk`. A non-empty chunk is owed to the
    /// WebSocket side as exactly one Binary message, with exactly these
    /// bytes; an empty chunk is forwarded as nothing and the copier yields.
    /// Returns whether a message must be sent.
    pub fn upstream_on_read(&mut self, chunk: &[u8]) -> (forward: bool)
        requires
            old(self).inv(),
            !old(self)@.upstream_done,
            old(self)@.up_pending is None,
            !(old(self)@.state is Connecting),
        ensures
            final(self).inv(),
            final(self)@ == old(self)@.after_read(chunk@),
            forward <==> chunk@.len() > 0,
            final(self)@.reads == old(self)@.reads.push(chunk@),
            forward ==> final(self)@.up_pending == Some(chunk@),
            !forward ==> final(self)@.sent == old(self)@.sent,
    {
        proof {
            lemma_forwarded_push(self@.reads, chunk@);
        }
        let forward = chunk.len() > 0;
        self.reads = Ghost(self.reads@.push(chunk@));
        self.up_pending = Ghost(
            if forward {
                Some(chunk@)
            } else {
                None
            },
        );
        proof {
            assert(self@ =~= old(self)@.after_read(chunk@));
        }
        forward
    }

    /// The WebSocket send half accepted the pending message: it now counts
    /// as sent, in read order.
    pub fn upstream_on_send_ok(&mut self)
        requires
            old(self).inv(),
            !old(self)@.upstream_done,
            old(self)@.up_pending is Some,
            old(self)@.sent.len() < u64::MAX,
        ensures
            final(self).inv(),
            final(self)@ == old(self)@.after_send_ok(),
            final(self)@.sent == old(self)@.sent.push(old(self)@.up_pending->0),
    {
        self.forwarded_count = self.forwarded_count + 1;
        self.sent = Ghost(self.sent@.push(self.up_pending@->0));
        self.up_pending = Ghost(None);
        proof {
            assert(self@ =~= old(self)@.after_send_ok());
        }
    }

    /// The TCP read half reached a genuine end-of-stream: the peer closed
    /// cleanly. Not an error — the copier exits and fires the shutdown
    /// signal so its sibling stops too.
    pub fn upstream_on_eof(&mut self)
        requires
            old(self).inv(),
            !old(self)@.upstream_done,
            old(self)@.up_pending is None,
        ensures
            final(self).inv(),
            final(self)@ == old(self)@.upstream_exit_signalling(),
            final(self)@.upstream_done,
            final(self)@.signal_fired,
    {
        self.upstream_exited();
        self.signal.fire();
        proof {
            assert(self@ =~= old(self)@.upstream_exit_signalling());
        }
    }

    /// A hard I/O error on the upstream path — the TCP read failed, or the
    /// WebSocket send half refused the pending message. Terminal for this
    /// copier, never retried, never escalated beyond the session: the
    /// copier exits and fires the shutdown signal.
    pub fn upstream_on_error(&mut self)
        requires
            old(self).inv(),
            !old(self)@.upstream_done,
        ensures
            final(self).inv(),
            final(self)@ == old(self)@.upstream_exit_signalling(),
            final(self)@.upstream_done,
            final(self)@.signal_fired,
    {
        self.upstream_exited();
        self.signal.fire();
        proof {
            assert(self@ =~= old(self)@.upstream_exit_signalling());
        }
    }

    /// The downstream copier's cooperative-cancellation point, checked
    /// between messages: returns whether the copier may go on.
    pub fn downstream_poll(&mut self) -> (cont: bool)
        requires
            old(self).inv(),
            !old(self)@.downstream_done,
            old(self)@.pending is None,
            !(old(self)@.state is Connecting),
        ensures
            final(self).inv(),
            final(self)@ == old(self)@.after_downstream_poll(),
            cont == !old(self)@.signal_fired,
            !cont ==> final(self)@.downstream_done,
            cont ==> *final(self) == *old(self),
    {
        if self.signal.poll() {
            self.downstream_exited();
            false
        } else {
            true
        }
    }

    /// A WebSocket message arrived; decide what the downstream copier does
    /// with it. A Binary payload is owed, in full, to the TCP peer; Close
    /// is the peer's clean shutdown, which stops this copier and tells the
    /// sibling; Text, Ping and Pong are ignored.
    pub fn downstream_on_message(&mut self, msg: &WsMessage) -> (action: DownstreamAction)
        requires
            old(self).inv(),
            !old(self)@.downstream_done,
            old(self)@.pending is None,
            !(old(self)@.state is Connecting),
        ensures
            final(self).inv(),
            match msg {
                WsMessage::Binary(b) => {
                    &&& final(self)@ == old(self)@.after_binary(b@)
                    &&& (action is Write <==> b@.len() > 0)
                    &&& (b@.len() == 0 ==> action is Skip)
                    &&& b@.len() > 0 ==> final(self)@.pending == Some(b@)
                        && final(self)@.pending_off == 0
                },
                WsMessage::Close => {
                    &&& final(self)@ == old(self)@.downstream_exit_signalling()
                    &&& action is Stop
                    &&& final(self)@.downstream_done
                    &&& final(self)@.signal_fired
                },
                _ => {
                    &&& *final(self) == *old(self)
                    &&& action is Skip
                },
            },
    {
        match msg {
            WsMessage::Binary(b) => {
                if b.len() > 0 {
                    self.pending_off = 0;
                    self.pending_len = b.len();
                    self.pending = Ghost(Some(b@));
                    proof {
                        assert(self@.delivered =~= concat_payloads(self@.received)
                            + self@.pending->0.subrange(0, 0));
                        assert(self@ =~= old(self)@.after_binary(b@));
                    }
                    DownstreamAction::Write
                } else {
                    self.received = Ghost(self.received@.push(b@));
                    proof {
                        lemma_concat_push(old(self)@.received, b@);
                        assert(self@.delivered =~= concat_payloads(self@.received));
                        assert(self@ =~= old(self)@.after_binary(b@));
                    }
                    DownstreamAction::Skip
                }
            },
            WsMessage::Close => {
                self.downstream_exited();
                self.signal.fire();
                proof {
                    assert(self@ =~= old(self)@.downstream_exit_signalling());
                }
                DownstreamAction::Stop
            },
            _ => DownstreamAction::Skip,
        }
    }

    /// How many bytes of the pending Binary payload are still owed to the
    /// TCP peer.
    pub fn downstream_remaining(&self) -> (n: usize)
        requires
            self.inv(),
        ensures
            self@.pending is Some ==> n == self@.pending->0.len() - self@.pending_off,
            self@.pending is None ==> n == 0,
    {
        self.pending_len - self.pending_off
    }

    /// The TCP write half accepted `n` more bytes of the pending payload.
    /// A short write is not a loss: the remainder stays owed and the caller
    /// must write again. Returns whether the payload is now fully written.
    pub fn downstream_wrote(&mut self, n: usize) -> (done: bool)
        requires
            old(self).inv(),
            old(self)@.pending is Some,
            1 <= n <= old(self)@.pending->0.len() - old(self)@.pending_off,
            old(self)@.delivered.len() + n <= u64::MAX,
        ensures
            final(self).inv(),
            final(self)@ == old(self)@.after_wrote(n as int),
            done <==> old(self)@.pending_off + n == old(self)@.pending->0.len(),
            final(self)@.delivered == old(self)@.delivered + old(self)@.pending->0.subrange(
                old(self)@.pending_off as int,
                old(self)@.pending_off + n,
            ),
            done ==> final(self)@.pending is None && final(self)@.received == old(
                self,
            )@.received.push(old(self)@.pending->0),
            !done ==> final(self)@.pending == old(self)@.pending,
    {
        let ghost p = self.pending@->0;
        let ghost off0 = self.pending_off as int;
        self.delivered_count = self.delivered_count + (n as u64);
        self.delivered = Ghost(self.delivered@ + p.subrange(off0, off0 + n));
        self.pending_off = self.pending_off + n;
        if self.pending_off == self.pending_len {
            self.received = Ghost(self.received@.push(p));
            self.pending = Ghost(None);
            self.pending_off = 0;
            self.pending_len = 0;
            proof {
                lemma_concat_push(old(self)@.received, p);
                assert(self@.delivered =~= concat_payloads(self@.received));
                assert(self@ =~= old(self)@.after_wrote(n as int));
            }
            true
        } else {
            proof {
                assert(self@.delivered =~= concat_payloads(self@.received) + p.subrange(
                    0,
                    off0 + n,
                ));
                assert(self@ =~= old(self)@.after_wrote(n as int));
            }
            false
        }
    }

    /// The WebSocket receive stream ended without a Close frame, or the
    /// receive itself failed: the peer dropped abnormally. The copier exits
    /// and fires the shutdown signal exactly once — a second fire anywhere
    /// is a no-op.
    pub fn downstream_on_abnormal_end(&mut self)
        requires
            old(self).inv(),
            !old(self)@.downstream_done,
        ensures
            final(self).inv(),
            final(self)@ == old(self)@.downstream_exit_signalling(),
            final(self)@.downstream_done,
            final(self)@.signal_fired,
    {
        self.downstream_exited();
        self.signal.fire();
        proof {
            assert(self@ =~= old(self)@.downstream_exit_signalling());
        }
    }

    /// The TCP write half failed. Terminal for the downstream copier: it
    /// exits — the partly written payload is abandoned, never re-ordered —
    /// and fires the shutdown signal.
    pub fn downstream_on_write_error(&mut self)
        requires
            old(self).inv(),
            !old(self)@.downstream_done,
        ensures
            final(self).inv(),
            final(self)@ == old(self)@.downstream_exit_signalling(),
            final(self)@.downstream_done,
            final(self)@.signal_fired,
    {
        self.downstream_exited();
        self.signal.fire();
        proof {
            assert(self@ =~= old(self)@.downstream_exit_signalling());
        }
    }

    /// The one-shot completion notification toward the acceptor: returns
    /// true exactly on the first call after the session closed, so
    /// per-connection bookkeeping is released exactly once.
    pub fn notify_completion(&mut self) -> (first: bool)
        requires
            old(self).inv(),
            old(self)@.state is Closed,
        ensures
            final(self).inv(),
            final(self)@ == old(self)@.after_notify(),
            first <==> !old(self)@.completion_notified,
    {
        let first = !self.completion_notified;
        self.completion_notified = true;
        proof {
            assert(self@ =~= old(self)@.after_notify());
        }
        first
    }
}

} // verus!
