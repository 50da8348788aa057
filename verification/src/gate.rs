//! The persistence gate: when the state of the monitor is written out.
//!
//! Adding or removing a resource and changing the configuration are always
//! followed by a write. Probe results arrive far more often, so a write
//! that follows one of them is let through only if none was let through
//! during the last ten minutes.

use vstd::prelude::*;
use crate::time::Timestamp;

verus! {

/// Shortest distance, in nanoseconds, between two writes that follow probe
/// results: ten minutes.
pub const SAVE_INTERVAL_NANOS: i128 = 600_000_000_000;

/// Whether a write that follows a probe result is let through at `now`,
/// given when the last one was: always if there was none, else once ten
/// minutes have passed.
pub open spec fn save_due(last_save: Option<Timestamp>, now: Timestamp) -> bool {
    match last_save {
        None => true,
        Some(last) => now.as_nanos() - last.as_nanos() >= SAVE_INTERVAL_NANOS,
    }
}

/// Remembers when a write that followed a probe result was last let
/// through.
#[derive(Clone, Copy, PartialEq, Eq, Structural, Debug)]
pub struct PersistenceGate {
    pub last_save: Option<Timestamp>,
}

impl PersistenceGate {
    /// The state after a request at `now`: the time of the last write moves
    /// to `now` exactly when the write was let through.
    pub open spec fn after_check(self, now: Timestamp) -> PersistenceGate {
        if save_due(self.last_save, now) {
            PersistenceGate { last_save: Some(now) }
        } else {
            self
        }
    }

    /// A gate that has let no write through yet.
    pub fn new() -> (gate: PersistenceGate)
        ensures
            gate.last_save is None,
    {
        PersistenceGate { last_save: None }
    }

    /// Whether a write that follows a probe result would be let through at
    /// `now`.
    pub fn is_due(&self, now: Timestamp) -> (due: bool)
        ensures
            due == save_due(self.last_save, now),
    {
        match self.last_save {
            None => true,
            Some(last) => now.nanos_since(&last) >= SAVE_INTERVAL_NANOS,
        }
    }

    /// Asks for a write that follows a probe result at `now`. Returns
    /// whether it is let through, and if so takes `now` as the time of the
    /// last write.
    pub fn on_check(&mut self, now: Timestamp) -> (write: bool)
        ensures
            write == save_due(old(self).last_save, now),
            *final(self) == old(self).after_check(now),
    {
        let due: bool = self.is_due(now);
        if due {
            self.last_save = Some(now);
        }
        due
    }
}

/// Once a write has been let through, the next is held back until ten
/// minutes have passed since it, and let through from then on.
pub proof fn lemma_gate_throttles(gate: PersistenceGate, first: Timestamp, second: Timestamp)
    requires
        save_due(gate.last_save, first),
    ensures
        save_due(gate.after_check(first).last_save, second) <==> second.as_nanos()
            - first.as_nanos() >= SAVE_INTERVAL_NANOS,
{
}

/// A request that is held back leaves the state as it was.
pub proof fn lemma_gate_unchanged_when_held(gate: PersistenceGate, now: Timestamp)
    requires
        !save_due(gate.last_save, now),
    ensures
        gate.after_check(now) == gate,
{
}

} // verus!
