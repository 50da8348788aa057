//! The check scheduler: a two-phase cycle that alternates between probing
//! every registered resource and waiting for the configured interval.
//!
//! The scheduler only decides. Whoever drives it carries out each action
//! and then asks for the next one: probes are launched without waiting for
//! their results, and a wait lasts as long as the interval that was in
//! force when it began.

use vstd::prelude::*;
use crate::registry::Registry;

verus! {

/// Where the scheduler stands in its cycle.
#[derive(Clone, Copy, PartialEq, Eq, Structural, Debug)]
pub enum Phase {
    /// The next step launches a probe of every registered resource.
    Firing,
    /// The next step waits for the check interval.
    Waiting,
}

/// What the driver of the scheduler is to do next.
#[derive(Debug)]
pub enum Action {
    /// Launch one probe for each of these addresses, then step again at
    /// once.
    Probe(Vec<String>),
    /// Wait for this many seconds, then step again.
    Sleep(u64),
}

/// The mathematical content of an [`Action`].
pub enum ActionView {
    Probe(Seq<Seq<char>>),
    Sleep(u64),
}

impl View for Action {
    type V = ActionView;

    open spec fn view(&self) -> ActionView {
        match self {
            Action::Probe(urls) => ActionView::Probe(Seq::new(urls@.len(), |i: int| urls@[i]@)),
            Action::Sleep(secs) => ActionView::Sleep(*secs),
        }
    }
}

/// The phase that follows `phase`.
pub open spec fn next_phase(phase: Phase) -> Phase {
    match phase {
        Phase::Firing => Phase::Waiting,
        Phase::Waiting => Phase::Firing,
    }
}

/// The scheduler of the check cycle.
#[derive(Clone, Copy, PartialEq, Eq, Structural, Debug)]
pub struct Scheduler {
    pub phase: Phase,
}

impl Scheduler {
    /// A scheduler about to fire: the first pass over the resources runs
    /// before the first wait.
    pub fn new() -> (s: Scheduler)
        ensures
            s.phase == Phase::Firing,
    {
        Scheduler { phase: Phase::Firing }
    }

    /// Takes one step of the cycle. When firing, the action is to probe
    /// the addresses registered at this moment; when waiting, it is to
    /// sleep for the check interval configured at this moment.
    pub fn step(&mut self, registry: &Registry) -> (action: Action)
        ensures
            final(self).phase == next_phase(old(self).phase),
            action@ == match old(self).phase {
                Phase::Firing => ActionView::Probe(registry@.urls()),
                Phase::Waiting => ActionView::Sleep(registry@.config.check_interval),
            },
    {
        match self.phase {
            Phase::Firing => {
                self.phase = Phase::Waiting;
                let urls: Vec<String> = registry.urls();
                assert(Seq::new(urls@.len(), |i: int| urls@[i]@) =~= registry@.urls());
                Action::Probe(urls)
            },
            Phase::Waiting => {
                self.phase = Phase::Firing;
                Action::Sleep(registry.config().check_interval)
            },
        }
    }
}

/// The cycle starts by firing and alternates from then on, so two steps
/// bring the scheduler back to the phase it was in.
pub proof fn lemma_phases_alternate(phase: Phase)
    ensures
        next_phase(phase) != phase,
        next_phase(next_phase(phase)) == phase,
{
}

} // verus!
