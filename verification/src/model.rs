//! Abstract state of one relay session: the lifecycle, the shutdown signal,
//! the two copiers' progress, and the byte histories of both directions.
//! Every executable transition of [`crate::relay::Relay`] is pinned to one
//! of the step functions here, so the session-level laws (idempotent
//! shutdown, liveness of the drain, failure isolation) are proved once, over
//! this model.

use vstd::prelude::*;

use crate::history::concat_payloads;
use crate::history::forwarded_messages;
use crate::history::lemma_concat_push;
use crate::history::lemma_forwarded_push;
use crate::history::lemma_forwarding_exact;

verus! {

/// Lifecycle of one session. `Closed` is terminal: both copiers have
/// returned and both endpoint halves are released.
#[derive(Clone, Copy, PartialEq, Eq, Structural, Debug)]
pub enum SessionState {
    /// TCP dial in progress; no bytes relayed yet.
    Connecting,
    /// Both copiers running concurrently.
    Active,
    /// One copier has exited; the session waits for its sibling to observe
    /// the shutdown signal and exit on its own.
    Draining,
    /// Both copiers have returned. Terminal.
    Closed,
}

/// Abstract state of one session.
#[verifier::ext_equal]
pub ghost struct RelayModel {
    /// Lifecycle state.
    pub state: SessionState,
    /// Whether the single-fire shutdown signal has been fired.
    pub signal_fired: bool,
    /// Whether the upstream (TCP to WebSocket) copier has exited.
    pub upstream_done: bool,
    /// Whether the downstream (WebSocket to TCP) copier has exited.
    pub downstream_done: bool,
    /// Whether the one-shot completion notification has been consumed.
    pub completion_notified: bool,
    /// Payloads of the TCP reads delivered to the upstream copier, in order.
    pub reads: Seq<Seq<u8>>,
    /// Binary messages the WebSocket send half has accepted, in order.
    pub sent: Seq<Seq<u8>>,
    /// A chunk that was read and must be forwarded, whose send has not yet
    /// resolved.
    pub up_pending: Option<Seq<u8>>,
    /// WebSocket Binary payloads fully written to the TCP write half.
    pub received: Seq<Seq<u8>>,
    /// A Binary payload currently being written to TCP, if any.
    pub pending: Option<Seq<u8>>,
    /// How many bytes of the pending payload have been written so far.
    pub pending_off: nat,
    /// Bytes the TCP write half has accepted, in order.
    pub delivered: Seq<u8>,
}

impl RelayModel {
    /// Well-formedness: the lifecycle, the copier flags and the byte
    /// histories agree.
    pub open spec fn wf(self) -> bool {
        &&& (!self.upstream_done ==> match self.up_pending {
            None => self.sent == forwarded_messages(self.reads),
            Some(p) => p.len() > 0 && forwarded_messages(self.reads) == self.sent.push(p),
        })
        &&& (self.upstream_done ==> self.up_pending is None && self.sent.is_prefix_of(
            forwarded_messages(self.reads),
        ))
        &&& (!self.downstream_done ==> match self.pending {
            None => self.delivered == concat_payloads(self.received),
            Some(p) => self.pending_off < p.len() && self.delivered == concat_payloads(
                self.received,
            ) + p.subrange(0, self.pending_off as int),
        })
        &&& (self.downstream_done ==> self.pending is None && concat_payloads(
            self.received,
        ).is_prefix_of(self.delivered))
        &&& (self.state is Connecting ==> !self.upstream_done && !self.downstream_done
            && self.reads.len() == 0 && self.sent.len() == 0
            && self.received.len() == 0 && self.delivered.len() == 0 && self.up_pending is None
            && self.pending is None)
        &&& (self.state is Active ==> !self.upstream_done && !self.downstream_done)
        &&& (self.state is Draining ==> self.upstream_done != self.downstream_done)
        &&& ((self.state is Closed) <==> (self.upstream_done && self.downstream_done))
        &&& (self.completion_notified ==> self.state is Closed)
    }

    /// The initial state: dial in progress, nothing relayed.
    pub open spec fn init() -> RelayModel {
        RelayModel {
            state: SessionState::Connecting,
            signal_fired: false,
            upstream_done: false,
            downstream_done: false,
            completion_notified: false,
            reads: Seq::empty(),
            sent: Seq::empty(),
            up_pending: None,
            received: Seq::empty(),
            pending: None,
            pending_off: 0,
            delivered: Seq::empty(),
        }
    }

    /// Both endpoints are ready: the session becomes active.
    pub open spec fn after_ready(self) -> RelayModel {
        RelayModel { state: SessionState::Active, ..self }
    }

    /// The TCP dial failed: the session closes without relaying a byte.
    pub open spec fn after_dial_failure(self) -> RelayModel {
        RelayModel {
            state: SessionState::Closed,
            upstream_done: true,
            downstream_done: true,
            ..self
        }
    }

    /// An external process-level shutdown request: fire the signal; the
    /// copiers drain on their own.
    pub open spec fn after_request_shutdown(self) -> RelayModel {
        RelayModel { signal_fired: true, ..self }
    }

    /// The upstream copier has exited: the session drains, or closes when
    /// the downstream copier is already gone.
    pub open spec fn with_upstream_done(self) -> RelayModel {
        RelayModel {
            state: if self.downstream_done {
                SessionState::Closed
            } else {
                SessionState::Draining
            },
            upstream_done: true,
            up_pending: None,
            ..self
        }
    }

    /// The downstream copier has exited: the session drains, or closes when
    /// the upstream copier is already gone.
    pub open spec fn with_downstream_done(self) -> RelayModel {
        RelayModel {
            state: if self.upstream_done {
                SessionState::Closed
            } else {
                SessionState::Draining
            },
            downstream_done: true,
            pending: None,
            pending_off: 0,
            ..self
        }
    }

    /// The upstream copier's cooperative-cancellation point: it exits
    /// cleanly when the shutdown signal has been fired, and otherwise goes
    /// on to its next read.
    pub open spec fn after_upstream_poll(self) -> RelayModel {
        if self.signal_fired {
            self.with_upstream_done()
        } else {
            self
        }
    }

    /// The downstream copier's cooperative-cancellation point.
    pub open spec fn after_downstream_poll(self) -> RelayModel {
        if self.signal_fired {
            self.with_downstream_done()
        } else {
            self
        }
    }

    /// A TCP read delivered `chunk`: a non-empty chunk becomes the one
    /// message owed to the WebSocket side; an empty chunk is forwarded as
    /// nothing.
    pub open spec fn after_read(self, chunk: Seq<u8>) -> RelayModel {
        RelayModel {
            reads: self.reads.push(chunk),
            up_pending: if chunk.len() > 0 {
                Some(chunk)
            } else {
                None
            },
            ..self
        }
    }

    /// The WebSocket send half accepted the pending message.
    pub open spec fn after_send_ok(self) -> RelayModel {
        RelayModel { sent: self.sent.push(self.up_pending->0), up_pending: None, ..self }
    }

    /// The upstream copier stops — on a hard error or on TCP end-of-stream —
    /// and fires the shutdown signal so its sibling stops too.
    pub open spec fn upstream_exit_signalling(self) -> RelayModel {
        self.with_upstream_done().after_request_shutdown()
    }

    /// The downstream copier stops — on a Close frame, a receive error, an
    /// abnormal stream end or a TCP write error — and fires the shutdown
    /// signal so its sibling stops too.
    pub open spec fn downstream_exit_signalling(self) -> RelayModel {
        self.with_downstream_done().after_request_shutdown()
    }

    /// A Binary message arrived: a non-empty payload becomes the write in
    /// progress; an empty one is complete on arrival.
    pub open spec fn after_binary(self, payload: Seq<u8>) -> RelayModel {
        if payload.len() > 0 {
            RelayModel { pending: Some(payload), pending_off: 0, ..self }
        } else {
            RelayModel { received: self.received.push(payload), ..self }
        }
    }

    /// The TCP write half accepted `n` more bytes of the pending payload.
    /// A short write leaves the rest pending; the last write completes the
    /// message.
    pub open spec fn after_wrote(self, n: int) -> RelayModel {
        let p = self.pending->0;
        let delivered = self.delivered + p.subrange(
            self.pending_off as int,
            self.pending_off + n,
        );
        if self.pending_off + n == p.len() {
            RelayModel {
                received: self.received.push(p),
                pending: None,
                pending_off: 0,
                delivered,
                ..self
            }
        } else {
            RelayModel { pending_off: (self.pending_off + n) as nat, delivered, ..self }
        }
    }

    /// The one-shot completion notification toward the acceptor was taken.
    pub open spec fn after_notify(self) -> RelayModel {
        RelayModel { completion_notified: true, ..self }
    }
}

/// Idempotence of the shutdown request: asking a session to shut down twice
/// leaves it in exactly the state one request leaves it in — no duplicate
/// teardown, no error.
pub proof fn lemma_shutdown_idempotent(m: RelayModel)
    ensures
        m.after_request_shutdown().after_request_shutdown() == m.after_request_shutdown(),
{
}

/// Liveness when the WebSocket side ends first: once the downstream copier
/// exits (Close frame, receive error or stream end) and fires the signal,
/// the upstream copier's very next poll exits, and the session is `Closed`.
pub proof fn lemma_drain_after_downstream_exit(m: RelayModel)
    requires
        m.wf(),
        m.state is Active,
    ensures
        m.downstream_exit_signalling().wf(),
        m.downstream_exit_signalling().state is Draining,
        m.downstream_exit_signalling().after_upstream_poll().wf(),
        m.downstream_exit_signalling().after_upstream_poll().state is Closed,
{
    let d = m.downstream_exit_signalling();
    assert(concat_payloads(d.received).is_prefix_of(d.delivered)) by {
        match m.pending {
            None => {
                assert(d.delivered =~= concat_payloads(d.received).subrange(
                    0,
                    concat_payloads(d.received).len() as int,
                ));
            },
            Some(p) => {
                assert(d.delivered.subrange(0, concat_payloads(d.received).len() as int)
                    =~= concat_payloads(d.received));
            },
        }
    }
    let c = d.after_upstream_poll();
    assert(c.sent.is_prefix_of(forwarded_messages(c.reads))) by {
        if m.up_pending is Some {
            assert(forwarded_messages(m.reads) == m.sent.push(m.up_pending->0));
        }
        assert(c.sent =~= forwarded_messages(c.reads).subrange(0, c.sent.len() as int));
    }
}

/// Liveness when the TCP side ends first: once the upstream copier exits
/// (end-of-stream or hard error) and fires the signal, the downstream
/// copier's very next poll exits, and the session is `Closed`.
pub proof fn lemma_drain_after_upstream_exit(m: RelayModel)
    requires
        m.wf(),
        m.state is Active,
        m.up_pending is None,
        m.pending is None,
    ensures
        m.upstream_exit_signalling().wf(),
        m.upstream_exit_signalling().state is Draining,
        m.upstream_exit_signalling().after_downstream_poll().wf(),
        m.upstream_exit_signalling().after_downstream_poll().state is Closed,
{
    let u = m.upstream_exit_signalling();
    assert(u.sent.is_prefix_of(forwarded_messages(u.reads))) by {
        assert(u.sent =~= forwarded_messages(u.reads).subrange(0, u.sent.len() as int));
    }
    let c = u.after_downstream_poll();
    assert(concat_payloads(c.received).is_prefix_of(c.delivered)) by {
        assert(c.delivered =~= concat_payloads(c.received).subrange(
            0,
            concat_payloads(c.received).len() as int,
        ));
    }
}

/// The drain is bounded by one I/O cycle on the surviving side: even when
/// the upstream copier completes one more read — forwarding it, nothing
/// lost — after its sibling exited, its very next poll exits and the
/// session is `Closed`.
pub proof fn lemma_drain_bounded_by_one_read(m: RelayModel, chunk: Seq<u8>)
    requires
        m.wf(),
        m.state is Active,
        m.up_pending is None,
        chunk.len() > 0,
    ensures
        m.downstream_exit_signalling().after_read(chunk).after_send_ok().after_upstream_poll().wf(),
        m.downstream_exit_signalling().after_read(chunk).after_send_ok().after_upstream_poll().state
            is Closed,
{
    let d = m.downstream_exit_signalling();
    assert(concat_payloads(d.received).is_prefix_of(d.delivered)) by {
        match m.pending {
            None => {
                assert(d.delivered =~= concat_payloads(d.received).subrange(
                    0,
                    concat_payloads(d.received).len() as int,
                ));
            },
            Some(p) => {
                assert(d.delivered.subrange(0, concat_payloads(d.received).len() as int)
                    =~= concat_payloads(d.received));
            },
        }
    }
    let r = d.after_read(chunk);
    lemma_forwarded_push(d.reads, chunk);
    assert(r.wf());
    let s = r.after_send_ok();
    assert(s.wf());
    let c = s.after_upstream_poll();
    assert(c.sent.is_prefix_of(forwarded_messages(c.reads))) by {
        assert(c.sent =~= forwarded_messages(c.reads).subrange(0, c.sent.len() as int));
    }
    assert(c.wf());
}

/// The drain is bounded by one I/O cycle on the surviving side: even when
/// the downstream copier completes its in-flight write — every owed byte
/// delivered, none lost — after its sibling exited, its very next poll
/// exits and the session is `Closed`.
pub proof fn lemma_drain_bounded_by_one_write(m: RelayModel, n: int)
    requires
        m.wf(),
        m.state is Active,
        m.up_pending is None,
        m.pending is Some,
        n == m.pending->0.len() - m.pending_off,
    ensures
        m.upstream_exit_signalling().after_wrote(n).after_downstream_poll().wf(),
        m.upstream_exit_signalling().after_wrote(n).after_downstream_poll().state is Closed,
        m.upstream_exit_signalling().after_wrote(n).delivered == concat_payloads(
            m.received.push(m.pending->0),
        ),
{
    let u = m.upstream_exit_signalling();
    assert(u.sent.is_prefix_of(forwarded_messages(u.reads))) by {
        assert(u.sent =~= forwarded_messages(u.reads).subrange(0, u.sent.len() as int));
    }
    let p = m.pending->0;
    let w = u.after_wrote(n);
    lemma_concat_push(m.received, p);
    assert(w.delivered =~= concat_payloads(m.received.push(p)));
    assert(w.wf());
    let c = w.after_downstream_poll();
    assert(concat_payloads(c.received).is_prefix_of(c.delivered)) by {
        assert(c.delivered =~= concat_payloads(c.received).subrange(
            0,
            concat_payloads(c.received).len() as int,
        ));
    }
    assert(c.wf());
}

/// No merging and no splitting, at the session level: while the upstream
/// copier runs with no send in flight, the messages the WebSocket side has
/// accepted are exactly the non-empty TCP reads, in order; when every read
/// delivered bytes, they are exactly the reads.
pub proof fn lemma_upstream_exact(m: RelayModel)
    requires
        m.wf(),
        !m.upstream_done,
        m.up_pending is None,
    ensures
        m.sent == forwarded_messages(m.reads),
        (forall|i: int| 0 <= i < m.reads.len() ==> m.reads[i].len() > 0) ==> m.sent == m.reads,
{
    if forall|i: int| 0 <= i < m.reads.len() ==> m.reads[i].len() > 0 {
        lemma_forwarding_exact(m.reads);
    }
}

/// No byte loss downstream, at the session level: while the downstream
/// copier runs with no write in flight, the bytes the TCP write half has
/// accepted are exactly the concatenation, in order, of the Binary payloads
/// received — short writes included, since a payload only counts as
/// received once every one of its bytes is written.
pub proof fn lemma_downstream_exact(m: RelayModel)
    requires
        m.wf(),
        !m.downstream_done,
        m.pending is None,
    ensures
        m.delivered == concat_payloads(m.received),
{
}

/// Failure isolation: a copier event — an I/O error included — is an update
/// of its own session's state alone; every other concurrently active
/// session is left exactly as it was.
pub proof fn lemma_failure_isolation(
    sessions: Map<int, RelayModel>,
    id: int,
    stepped: RelayModel,
)
    ensures
        forall|other: int|
            sessions.dom().contains(other) && other != id ==> sessions.insert(id, stepped)[other]
                == sessions[other],
{
}

} // verus!
