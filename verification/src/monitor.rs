//! The monitor: the registry together with the persistence gate, and for
//! each request what changes and what the caller has to do afterwards.
//!
//! Nothing here performs a probe or writes a file. Each operation changes
//! the state held in memory and returns the [`Effects`] that are due: a
//! write of the whole state, a probe of one address, both or neither. The
//! caller carries them out once it has let go of the monitor.

use vstd::prelude::*;
use crate::config::AppConfig;
use crate::gate::{save_due, PersistenceGate};
use crate::registry::{resource_views, saved_view, AddError, Registry, RegistryView};
use crate::resource::{spec_merge, Observation, Resource, ResourceView};
use crate::time::{clock_now, Timestamp};

verus! {

/// What is due after an operation on the monitor.
#[derive(Debug)]
pub struct Effects {
    /// The whole state is to be written out.
    pub persist: bool,
    /// This address is to be probed at once, outside the check cycle.
    pub probe: Option<String>,
}

/// The mathematical content of [`Effects`].
pub struct EffectsView {
    pub persist: bool,
    pub probe: Option<Seq<char>>,
}

impl View for Effects {
    type V = EffectsView;

    open spec fn view(&self) -> EffectsView {
        EffectsView {
            persist: self.persist,
            probe: match self.probe {
                Some(url) => Some(url@),
                None => None,
            },
        }
    }
}

/// The mathematical content of a [`Monitor`].
pub struct MonitorView {
    pub registry: RegistryView,
    pub gate: PersistenceGate,
}

impl MonitorView {
    /// The monitor at start: the stored registry where it is accepted, the
    /// built-in one otherwise, and a gate that has let no write through.
    pub open spec fn started(saved: Option<(Seq<ResourceView>, u64, u64)>, now: Timestamp)
        -> MonitorView {
        MonitorView {
            registry: RegistryView::loaded(saved, now),
            gate: PersistenceGate { last_save: None },
        }
    }

    /// The monitor after a request to add `url` at `now`.
    pub open spec fn after_add(self, url: Seq<char>, now: Timestamp) -> MonitorView {
        MonitorView { registry: self.registry.added(url, now), gate: self.gate }
    }

    /// What is due after a request to add `url`: a write and a probe of
    /// the new resource if it was added, nothing if it was rejected.
    pub open spec fn add_effects(self, url: Seq<char>) -> EffectsView {
        if self.registry.add_outcome(url) is Ok {
            EffectsView { persist: true, probe: Some(url) }
        } else {
            EffectsView { persist: false, probe: None }
        }
    }

    /// The monitor after a request to remove `url`.
    pub open spec fn after_remove(self, url: Seq<char>) -> MonitorView {
        MonitorView { registry: self.registry.removed(url), gate: self.gate }
    }

    /// The monitor after a request to change the intervals.
    pub open spec fn after_config(self, check_interval: u64, refresh_interval: u64)
        -> MonitorView {
        MonitorView {
            registry: self.registry.reconfigured(check_interval, refresh_interval),
            gate: self.gate,
        }
    }

    /// The monitor after the result of a probe of `url`, which arrived at
    /// `now`, has been recorded.
    pub open spec fn after_check(self, url: Seq<char>, obs: Observation, now: Timestamp)
        -> MonitorView {
        MonitorView {
            registry: self.registry.upserted(url, obs, now),
            gate: self.gate.after_check(now),
        }
    }

    /// What is due after a probe result has been recorded at `now`: a
    /// write if the persistence gate lets it through, and never a further
    /// probe.
    pub open spec fn check_effects(self, now: Timestamp) -> EffectsView {
        EffectsView { persist: save_due(self.gate.last_save, now), probe: None }
    }
}

/// The effects of a request that is always followed by a write and never
/// by a probe.
pub open spec fn write_only() -> EffectsView {
    EffectsView { persist: true, probe: None }
}

/// Adding the same address twice registers it once and asks for one probe.
///
/// Whatever the first request does, the second changes nothing and has no
/// effects. For an admitted address that was not registered, the first
/// request asks for a write and for a probe of that address, and afterwards
/// it stands at exactly one position of the registry.
pub proof fn lemma_add_twice(m: MonitorView, url: Seq<char>, first: Timestamp, second: Timestamp)
    requires
        m.registry.wf(),
    ensures
        m.after_add(url, first).after_add(url, second) == m.after_add(url, first),
        m.after_add(url, first).add_effects(url) == (EffectsView { persist: false, probe: None }),
        m.after_add(url, first).registry.add_outcome(url) is Err,
        m.registry.add_outcome(url) is Ok ==> {
            let after = m.after_add(url, first);
            &&& m.add_effects(url) == (EffectsView { persist: true, probe: Some(url) })
            &&& after.registry.resources.len() == m.registry.resources.len() + 1
            &&& after.registry.position(url) == Some(m.registry.resources.len() as int)
            &&& forall|i: int|
                0 <= i < after.registry.resources.len() && (
                #[trigger] after.registry.resources[i]).url == url ==> i
                    == m.registry.resources.len()
        },
{
    let after = m.after_add(url, first);
    m.registry.lemma_transitions_keep_wf(
        url,
        Observation { status_code: None, success: false, latency_ms: 0 },
        first,
        0,
        0,
    );
    if m.registry.add_outcome(url) is Ok {
        let n = m.registry.resources.len() as int;
        assert(after.registry.resources[n].url == url);
        after.registry.lemma_position(url, n);
        assert forall|i: int|
            0 <= i < after.registry.resources.len() && (
            #[trigger] after.registry.resources[i]).url == url implies i == n by {
            after.registry.lemma_position(url, i);
        }
    }
}

/// Removing an address that is not registered changes nothing, and the
/// request is followed by a write all the same.
pub proof fn lemma_remove_absent(m: MonitorView, url: Seq<char>)
    requires
        !m.registry.contains(url),
    ensures
        m.after_remove(url) == m,
{
}

/// The registry of resources with the persistence gate that throttles
/// writes.
#[derive(Debug)]
pub struct Monitor {
    registry: Registry,
    gate: PersistenceGate,
}

impl View for Monitor {
    type V = MonitorView;

    closed spec fn view(&self) -> MonitorView {
        MonitorView { registry: self.registry@, gate: self.gate }
    }
}

impl Monitor {
    /// A monitor over `registry` whose gate has let no write through yet.
    pub fn new(registry: Registry) -> (m: Monitor)
        ensures
            m@ == (MonitorView { registry: registry@, gate: PersistenceGate { last_save: None } }),
    {
        Monitor { registry, gate: PersistenceGate::new() }
    }

    /// The monitor to start with at `now`: over the stored resources and
    /// intervals where there are any and they are accepted, over the
    /// built-in addresses otherwise.
    pub fn start(saved: Option<(Vec<Resource>, u64, u64)>, now: Timestamp) -> (m: Monitor)
        ensures
            m@ == MonitorView::started(saved_view(saved), now),
            m@.registry.wf(),
    {
        Monitor { registry: Registry::load_or_default(saved, now), gate: PersistenceGate::new() }
    }

    /// [`Monitor::start`] at the present reading of the clock.
    pub fn start_now(saved: Option<(Vec<Resource>, u64, u64)>) -> (m: Monitor)
        ensures
            exists|now: Timestamp| m@ == #[trigger] MonitorView::started(saved_view(saved), now),
            m@.registry.wf(),
    {
        let now: Timestamp = clock_now();
        Monitor::start(saved, now)
    }

    /// The registry as it stands.
    pub fn registry(&self) -> (reg: &Registry)
        ensures
            reg@ == self@.registry,
    {
        &self.registry
    }

    /// The persistence gate as it stands.
    pub fn gate(&self) -> (gate: PersistenceGate)
        ensures
            gate == self@.gate,
    {
        self.gate
    }

    /// A deep copy of all resources and of the configuration.
    pub fn get_snapshot(&self) -> (snap: (Vec<Resource>, AppConfig))
        ensures
            resource_views(snap.0@) == self@.registry.resources,
            snap.1 == self@.registry.config,
            self@.registry.wf(),
    {
        self.registry.get_snapshot()
    }

    /// Handles a request to watch `url`, made at `now`. An admitted address
    /// is registered as not probed yet, and a write and a probe of it are
    /// due. A rejected one changes nothing and nothing is due.
    pub fn add_resource(&mut self, url: &str, now: Timestamp) -> (out: (
        Result<(), AddError>,
        Effects,
    ))
        ensures
            out.0 == old(self)@.registry.add_outcome(url@),
            out.1@ == old(self)@.add_effects(url@),
            final(self)@ == old(self)@.after_add(url@, now),
            final(self)@.registry.wf(),
    {
        match self.registry.add(url, now) {
            Ok(()) => (Ok(()), Effects { persist: true, probe: Some(url.to_owned()) }),
            Err(e) => (Err(e), Effects { persist: false, probe: None }),
        }
    }

    /// [`Monitor::add_resource`] at the present reading of the clock.
    pub fn add_resource_now(&mut self, url: &str) -> (out: (Result<(), AddError>, Effects))
        ensures
            out.0 == old(self)@.registry.add_outcome(url@),
            out.1@ == old(self)@.add_effects(url@),
            exists|now: Timestamp| final(self)@ == #[trigger] old(self)@.after_add(url@, now),
            final(self)@.registry.wf(),
    {
        let now: Timestamp = clock_now();
        self.add_resource(url, now)
    }

    /// Handles a request to stop watching `url`. Returns whether it was
    /// registered; a write is due either way.
    pub fn remove_resource(&mut self, url: &str) -> (out: (bool, Effects))
        ensures
            out.0 == old(self)@.registry.contains(url@),
            out.1@ == write_only(),
            final(self)@ == old(self)@.after_remove(url@),
            final(self)@.registry.wf(),
    {
        let removed: bool = self.registry.remove(url);
        (removed, Effects { persist: true, probe: None })
    }

    /// Handles a request to change the intervals: each is brought into the
    /// admitted range and stored, and a write is due.
    pub fn update_config(&mut self, check_interval: u64, refresh_interval: u64) -> (out: Effects)
        ensures
            out@ == write_only(),
            final(self)@ == old(self)@.after_config(check_interval, refresh_interval),
            final(self)@.registry.wf(),
    {
        self.registry.update_config(check_interval, refresh_interval);
        Effects { persist: true, probe: None }
    }

    /// Records what a probe of `url` found, the result having arrived at
    /// `now`: the observation is merged into the resource, which is created
    /// if it is not registered, and the persistence gate decides whether a
    /// write is due. Returns a copy of the resource as it stands afterwards.
    pub fn record_check(&mut self, url: &str, obs: &Observation, now: Timestamp) -> (out: (
        Resource,
        Effects,
    ))
        ensures
            out.0@ == spec_merge(old(self)@.registry.get(url@), url@, *obs, now),
            out.1@ == old(self)@.check_effects(now),
            final(self)@ == old(self)@.after_check(url@, *obs, now),
            final(self)@.registry.get(url@) == Some(out.0@),
            final(self)@.registry.wf(),
    {
        let resource: Resource = self.registry.upsert(url, obs, now);
        let persist: bool = self.gate.on_check(now);
        (resource, Effects { persist, probe: None })
    }

    /// [`Monitor::record_check`] at the present reading of the clock.
    pub fn record_check_now(&mut self, url: &str, obs: &Observation) -> (out: (Resource, Effects))
        ensures
            exists|now: Timestamp|
                {
                    &&& final(self)@ == #[trigger] old(self)@.after_check(url@, *obs, now)
                    &&& out.0@ == spec_merge(old(self)@.registry.get(url@), url@, *obs, now)
                    &&& out.1@ == old(self)@.check_effects(now)
                },
            final(self)@.registry.get(url@) == Some(out.0@),
            final(self)@.registry.wf(),
    {
        let now: Timestamp = clock_now();
        self.record_check(url, obs, now)
    }
}

} // verus!
