//! The shutdown signal: a single-fire notification one copier uses to tell
//! its sibling (and the relay) to stop. Firing it a second time is a silent
//! no-op, never an error.

use vstd::prelude::*;

verus! {

/// Single-fire shutdown notification. At most one `fire` has an effect;
/// polling after a fire always observes the fired state.
pub struct ShutdownSignal {
    fired: bool,
}

impl ShutdownSignal {
    /// Whether the signal has been fired.
    pub closed spec fn is_fired(self) -> bool {
        self.fired
    }

    /// The signal state after a fire: fired, whatever it was before.
    pub closed spec fn after_fire(self) -> ShutdownSignal {
        ShutdownSignal { fired: true }
    }

    /// A fresh, unfired signal.
    pub fn new() -> (s: ShutdownSignal)
        ensures
            !s.is_fired(),
    {
        ShutdownSignal { fired: false }
    }

    /// Fire the signal. Firing an already-fired signal changes nothing and
    /// reports no error.
    pub fn fire(&mut self)
        ensures
            *final(self) == old(self).after_fire(),
            final(self).is_fired(),
    {
        self.fired = true;
    }

    /// Non-blocking poll: reports whether the signal has been fired.
    pub fn poll(&self) -> (fired: bool)
        ensures
            fired == self.is_fired(),
    {
        self.fired
    }
}

/// Firing the shutdown signal twice has exactly the same effect on the
/// signal as firing it once.
pub proof fn lemma_fire_idempotent(s: ShutdownSignal)
    ensures
        s.after_fire().after_fire() == s.after_fire(),
{
}

} // verus!
