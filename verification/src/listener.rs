//! Process-level lifecycle around the sessions: a listener that accepts new
//! sessions until it is asked to stop, and per-connection bookkeeping it
//! releases on each session's one-shot completion. A stop request never
//! severs an already-active session — those drain on their own.

use vstd::prelude::*;

verus! {

/// The acceptor-side bookkeeping: whether new sessions may still be
/// accepted, and how many sessions are currently in flight.
pub struct Listener {
    accepting: bool,
    active: u64,
}

impl Listener {
    /// Whether the listener still accepts new sessions.
    pub closed spec fn is_accepting(self) -> bool {
        self.accepting
    }

    /// How many sessions are currently in flight.
    pub closed spec fn active_sessions(self) -> nat {
        self.active as nat
    }

    /// A fresh listener: accepting, with no session in flight.
    pub fn new() -> (l: Listener)
        ensures
            l.is_accepting(),
            l.active_sessions() == 0,
    {
        Listener { accepting: true, active: 0 }
    }

    /// An inbound upgrade request: accepted exactly while the listener is
    /// accepting and has room to count one more session. An accepted
    /// session is counted at once.
    pub fn on_upgrade_request(&mut self) -> (accepted: bool)
        ensures
            accepted <==> (old(self).is_accepting() && old(self).active_sessions() < u64::MAX),
            final(self).is_accepting() == old(self).is_accepting(),
            accepted ==> final(self).active_sessions() == old(self).active_sessions() + 1,
            !accepted ==> *final(self) == *old(self),
    {
        if self.accepting && self.active < u64::MAX {
            self.active = self.active + 1;
            true
        } else {
            false
        }
    }

    /// The process-level "stop accepting and begin draining" request: no new
    /// session is accepted, and no in-flight session is severed — the count
    /// is untouched. Asking twice changes nothing.
    pub fn request_stop(&mut self)
        ensures
            !final(self).is_accepting(),
            final(self).active_sessions() == old(self).active_sessions(),
    {
        self.accepting = false;
    }

    /// A session's one-shot completion notification arrived: release its
    /// bookkeeping.
    pub fn on_session_completed(&mut self)
        requires
            old(self).active_sessions() > 0,
        ensures
            final(self).is_accepting() == old(self).is_accepting(),
            final(self).active_sessions() == old(self).active_sessions() - 1,
    {
        self.active = self.active - 1;
    }

    /// How many sessions are currently in flight.
    pub fn active_count(&self) -> (n: u64)
        ensures
            n as nat == self.active_sessions(),
    {
        self.active
    }

    /// The listener has fully drained: it no longer accepts and every
    /// session has completed.
    pub fn is_drained(&self) -> (drained: bool)
        ensures
            drained <==> (!self.is_accepting() && self.active_sessions() == 0),
    {
        !self.accepting && self.active == 0
    }
}

} // verus!
