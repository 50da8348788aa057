//! The registry: every monitored resource, each under its own address, and
//! the polling configuration.

use vstd::prelude::*;
use crate::config::AppConfig;
use crate::resource::{lemma_merged_wf, spec_merge, Observation, Resource, ResourceView};
use crate::time::Timestamp;
use crate::url::{check_http_url, is_http_url};

verus! {

/// Why a resource was not added.
#[derive(Clone, Copy, PartialEq, Eq, Structural, Debug)]
pub enum AddError {
    /// The address begins with neither `http://` nor `https://`.
    InvalidUrl,
    /// A resource with this address is registered already.
    Duplicate,
}

/// Why a stored set of resources was not accepted as a registry.
#[derive(Clone, Copy, PartialEq, Eq, Structural, Debug)]
pub enum RestoreError {
    /// Two of the resources have the same address.
    DuplicateUrl,
}

/// The views of a sequence of resources, in the same order.
pub open spec fn resource_views(s: Seq<Resource>) -> Seq<ResourceView> {
    Seq::new(s.len(), |i: int| s[i]@)
}

/// The content of what was stored, if anything was: the views of the
/// resources and the two intervals.
pub open spec fn saved_view(saved: Option<(Vec<Resource>, u64, u64)>) -> Option<
    (Seq<ResourceView>, u64, u64),
> {
    match saved {
        Some((resources, check_interval, refresh_interval)) => Some(
            (resource_views(resources@), check_interval, refresh_interval),
        ),
        None => None,
    }
}

/// No two resources of `s` share an address.
pub open spec fn distinct_urls(s: Seq<ResourceView>) -> bool {
    forall|i: int, j: int| 0 <= i < j < s.len() ==> s[i].url != s[j].url
}

/// The mathematical content of a [`Registry`]: the resources in the order
/// in which they were registered, and the configuration.
pub struct RegistryView {
    pub resources: Seq<ResourceView>,
    pub config: AppConfig,
}

impl RegistryView {
    /// Every resource is well formed, no address occurs twice, and the
    /// configuration is in range.
    pub open spec fn wf(self) -> bool {
        &&& forall|i: int| 0 <= i < self.resources.len() ==> (#[trigger] self.resources[i]).wf()
        &&& distinct_urls(self.resources)
        &&& self.config.wf()
    }

    /// Whether a resource is registered under `url`.
    pub open spec fn contains(self, url: Seq<char>) -> bool {
        exists|i: int| 0 <= i < self.resources.len() && (#[trigger] self.resources[i]).url == url
    }

    /// Where the resource registered under `url` stands, if there is one.
    pub open spec fn position(self, url: Seq<char>) -> Option<int> {
        if self.contains(url) {
            Some(
                choose|i: int|
                    0 <= i < self.resources.len() && (#[trigger] self.resources[i]).url == url,
            )
        } else {
            None
        }
    }

    /// The resource registered under `url`, if there is one.
    pub open spec fn get(self, url: Seq<char>) -> Option<ResourceView> {
        match self.position(url) {
            Some(i) => Some(self.resources[i]),
            None => None,
        }
    }

    /// The registry as a mapping from address to resource.
    pub open spec fn as_map(self) -> Map<Seq<char>, ResourceView> {
        Map::new(|url: Seq<char>| self.contains(url), |url: Seq<char>| self.get(url).unwrap())
    }

    /// The addresses of all resources, in registration order.
    pub open spec fn urls(self) -> Seq<Seq<char>> {
        Seq::new(self.resources.len(), |i: int| self.resources[i].url)
    }

    /// A registry without resources and with the initial configuration.
    pub open spec fn empty() -> RegistryView {
        RegistryView { resources: Seq::empty(), config: AppConfig::initial() }
    }

    /// Whether `url` may be added: its form is checked first, then that it
    /// is not registered yet.
    pub open spec fn add_outcome(self, url: Seq<char>) -> Result<(), AddError> {
        if !is_http_url(url) {
            Err(AddError::InvalidUrl)
        } else if self.contains(url) {
            Err(AddError::Duplicate)
        } else {
            Ok(())
        }
    }

    /// The registry after an attempt to add `url` at `now`: extended by an
    /// unprobed resource if the address is admitted, unchanged otherwise.
    pub open spec fn added(self, url: Seq<char>, now: Timestamp) -> RegistryView {
        if self.add_outcome(url) is Ok {
            RegistryView {
                resources: self.resources.push(ResourceView::unknown(url, now)),
                config: self.config,
            }
        } else {
            self
        }
    }

    /// The registry without the resource under `url`.
    pub open spec fn removed(self, url: Seq<char>) -> RegistryView {
        match self.position(url) {
            Some(i) => RegistryView { resources: self.resources.remove(i), config: self.config },
            None => self,
        }
    }

    /// The registry after `obs`, made at `now`, has been merged into the
    /// resource under `url`; a resource that is not registered is created
    /// with the observation as its first sample.
    pub open spec fn upserted(self, url: Seq<char>, obs: Observation, now: Timestamp)
        -> RegistryView {
        match self.position(url) {
            Some(i) => RegistryView {
                resources: self.resources.update(i, self.resources[i].merged(obs, now)),
                config: self.config,
            },
            None => RegistryView {
                resources: self.resources.push(spec_merge(None, url, obs, now)),
                config: self.config,
            },
        }
    }

    /// The registry with the requested intervals, each brought into range.
    pub open spec fn reconfigured(self, check_interval: u64, refresh_interval: u64)
        -> RegistryView {
        RegistryView {
            resources: self.resources,
            config: AppConfig::clamped(check_interval, refresh_interval),
        }
    }

    /// What a stored set of resources and intervals is restored to.
    pub open spec fn restored(
        resources: Seq<ResourceView>,
        check_interval: u64,
        refresh_interval: u64,
    ) -> Result<RegistryView, RestoreError> {
        if distinct_urls(resources) {
            Ok(
                RegistryView {
                    resources,
                    config: AppConfig::clamped(check_interval, refresh_interval),
                },
            )
        } else {
            Err(RestoreError::DuplicateUrl)
        }
    }

    /// The registry that a monitor starts from when nothing was stored:
    /// the built-in addresses, each registered at `now` and not probed yet.
    pub open spec fn with_defaults(now: Timestamp) -> RegistryView {
        RegistryView::empty().added("https://www.google.com"@, now).added(
            "https://www.github.com"@,
            now,
        ).added("https://www.rust-lang.org"@, now).added("https://www.wikipedia.org"@, now).added(
            "https://www.microsoft.com"@,
            now,
        )
    }

    /// The registry that a monitor starts from: the stored one where there
    /// is one and it is accepted, the built-in one otherwise.
    pub open spec fn loaded(saved: Option<(Seq<ResourceView>, u64, u64)>, now: Timestamp)
        -> RegistryView {
        match saved {
            Some((resources, check_interval, refresh_interval)) => match RegistryView::restored(
                resources,
                check_interval,
                refresh_interval,
            ) {
                Ok(reg) => reg,
                Err(_) => RegistryView::with_defaults(now),
            },
            None => RegistryView::with_defaults(now),
        }
    }

    /// In a well-formed registry an address determines its position.
    pub proof fn lemma_position(self, url: Seq<char>, i: int)
        requires
            distinct_urls(self.resources),
            0 <= i < self.resources.len(),
            self.resources[i].url == url,
        ensures
            self.contains(url),
            self.position(url) == Some(i),
            self.get(url) == Some(self.resources[i]),
    {
        let j = choose|j: int|
            0 <= j < self.resources.len() && (#[trigger] self.resources[j]).url == url;
        if j < i {
            assert(self.resources[j].url != self.resources[i].url);
        } else if i < j {
            assert(self.resources[i].url != self.resources[j].url);
        }
    }

    /// Every key of the mapping is the address of the resource it leads to.
    pub proof fn lemma_key_is_url(self, url: Seq<char>)
        requires
            self.as_map().dom().contains(url),
        ensures
            self.as_map()[url].url == url,
            self.contains(url),
    {
    }

    /// Read as a mapping, adding an admitted address inserts an unprobed
    /// resource under it, removing an address removes its key, and merging
    /// an observation puts the merged resource under the address, whether
    /// it was registered before or not. No other key is touched.
    pub proof fn lemma_transitions_as_map(
        self,
        url: Seq<char>,
        obs: Observation,
        now: Timestamp,
    )
        requires
            self.wf(),
        ensures
            self.added(url, now).as_map() == if self.add_outcome(url) is Ok {
                self.as_map().insert(url, ResourceView::unknown(url, now))
            } else {
                self.as_map()
            },
            self.removed(url).as_map() == self.as_map().remove(url),
            self.upserted(url, obs, now).as_map() == self.as_map().insert(
                url,
                spec_merge(self.get(url), url, obs, now),
            ),
    {
        let n = self.resources.len() as int;
        self.lemma_transitions_keep_wf(url, obs, now, 0, 0);
        if self.add_outcome(url) is Ok {
            let a = self.added(url, now);
            let fresh = ResourceView::unknown(url, now);
            assert forall|k: Seq<char>| a.contains(k) == (self.contains(k) || k == url) by {
                if a.contains(k) {
                    let i = choose|i: int|
                        0 <= i < a.resources.len() && (#[trigger] a.resources[i]).url == k;
                    if i < n {
                        assert(self.resources[i].url == k);
                    }
                }
                if self.contains(k) {
                    let i = choose|i: int|
                        0 <= i < self.resources.len() && (#[trigger] self.resources[i]).url == k;
                    assert(a.resources[i].url == k);
                }
                if k == url {
                    assert(a.resources[n].url == k);
                }
            }
            assert forall|k: Seq<char>| a.contains(k) implies a.get(k) == (if k == url {
                Some(fresh)
            } else {
                self.get(k)
            }) by {
                let i = choose|i: int|
                    0 <= i < a.resources.len() && (#[trigger] a.resources[i]).url == k;
                a.lemma_position(k, i);
                if i < n {
                    assert(self.resources[i].url == k);
                    self.lemma_position(k, i);
                }
            }
            assert(a.as_map() =~= self.as_map().insert(url, fresh));
        }
        let r = self.removed(url);
        match self.position(url) {
            Some(p) => {
                assert forall|k: Seq<char>| r.contains(k) == (self.contains(k) && k != url) by {
                    if r.contains(k) {
                        let i = choose|i: int|
                            0 <= i < r.resources.len() && (#[trigger] r.resources[i]).url == k;
                        let i0 = if i < p { i } else { i + 1 };
                        assert(self.resources[i0].url == k);
                        if k == url {
                            self.lemma_position(url, i0);
                        }
                    }
                    if self.contains(k) && k != url {
                        let i = choose|i: int|
                            0 <= i < self.resources.len() && (#[trigger] self.resources[i]).url
                                == k;
                        let i1 = if i < p { i } else { i - 1 };
                        assert(r.resources[i1].url == k);
                    }
                }
                assert forall|k: Seq<char>| r.contains(k) implies r.get(k) == self.get(k) by {
                    let i = choose|i: int|
                        0 <= i < r.resources.len() && (#[trigger] r.resources[i]).url == k;
                    r.lemma_position(k, i);
                    let i0 = if i < p { i } else { i + 1 };
                    assert(self.resources[i0].url == k);
                    self.lemma_position(k, i0);
                }
                assert(r.as_map() =~= self.as_map().remove(url));
            },
            None => {
                assert(r.as_map() =~= self.as_map().remove(url));
            },
        }
        let u = self.upserted(url, obs, now);
        let merged = spec_merge(self.get(url), url, obs, now);
        match self.position(url) {
            Some(p) => {
                assert(u.resources[p] == merged);
                assert forall|k: Seq<char>| u.contains(k) == (self.contains(k) || k == url) by {
                    if u.contains(k) {
                        let i = choose|i: int|
                            0 <= i < u.resources.len() && (#[trigger] u.resources[i]).url == k;
                        assert(self.resources[i].url == k);
                    }
                    if self.contains(k) {
                        let i = choose|i: int|
                            0 <= i < self.resources.len() && (#[trigger] self.resources[i]).url
                                == k;
                        assert(u.resources[i].url == k);
                    }
                }
                assert forall|k: Seq<char>| u.contains(k) implies u.get(k) == (if k == url {
                    Some(merged)
                } else {
                    self.get(k)
                }) by {
                    let i = choose|i: int|
                        0 <= i < u.resources.len() && (#[trigger] u.resources[i]).url == k;
                    u.lemma_position(k, i);
                    assert(self.resources[i].url == k);
                    self.lemma_position(k, i);
                }
                assert(u.as_map() =~= self.as_map().insert(url, merged));
            },
            None => {
                assert forall|k: Seq<char>| u.contains(k) == (self.contains(k) || k == url) by {
                    if u.contains(k) {
                        let i = choose|i: int|
                            0 <= i < u.resources.len() && (#[trigger] u.resources[i]).url == k;
                        if i < n {
                            assert(self.resources[i].url == k);
                        }
                    }
                    if self.contains(k) {
                        let i = choose|i: int|
                            0 <= i < self.resources.len() && (#[trigger] self.resources[i]).url
                                == k;
                        assert(u.resources[i].url == k);
                    }
                    if k == url {
                        assert(u.resources[n].url == k);
                    }
                }
                assert forall|k: Seq<char>| u.contains(k) implies u.get(k) == (if k == url {
                    Some(merged)
                } else {
                    self.get(k)
                }) by {
                    let i = choose|i: int|
                        0 <= i < u.resources.len() && (#[trigger] u.resources[i]).url == k;
                    u.lemma_position(k, i);
                    if i < n {
                        assert(self.resources[i].url == k);
                        self.lemma_position(k, i);
                    }
                }
                assert(u.as_map() =~= self.as_map().insert(url, merged));
            },
        }
    }

    /// Storing a well-formed registry and restoring what was stored gives
    /// the same registry back: the same resources under the same addresses
    /// in the same order, and the same configuration.
    pub proof fn lemma_snapshot_round_trip(self)
        requires
            self.wf(),
        ensures
            RegistryView::restored(
                self.resources,
                self.config.check_interval,
                self.config.refresh_interval,
            ) == Ok::<RegistryView, RestoreError>(self),
            RegistryView::loaded(
                Some((self.resources, self.config.check_interval, self.config.refresh_interval)),
                Timestamp { secs: 0, nanos: 0 },
            ) == self,
    {
    }

    /// Every transition leads from a well-formed registry to a well-formed
    /// one: addresses stay unique, windows stay within capacity, each
    /// jitter stays the one of its window, and the intervals stay in range.
    pub proof fn lemma_transitions_keep_wf(
        self,
        url: Seq<char>,
        obs: Observation,
        now: Timestamp,
        check_interval: u64,
        refresh_interval: u64,
    )
        requires
            self.wf(),
        ensures
            self.added(url, now).wf(),
            self.removed(url).wf(),
            self.upserted(url, obs, now).wf(),
            self.reconfigured(check_interval, refresh_interval).wf(),
    {
        let before = self.resources;
        let n = before.len() as int;
        let a = self.added(url, now).resources;
        assert(distinct_urls(a)) by {
            if self.add_outcome(url) is Ok {
                assert forall|i: int, j: int| 0 <= i < j < a.len() implies a[i].url != a[j].url by {
                    if j == n {
                        assert(before[i].url != url);
                    }
                }
            }
        }
        let r = self.removed(url).resources;
        assert(self.removed(url).wf()) by {
            if let Some(k) = self.position(url) {
                assert forall|i: int, j: int| 0 <= i < j < r.len() implies r[i].url != r[j].url by {
                    let i0 = if i < k { i } else { i + 1 };
                    let j0 = if j < k { j } else { j + 1 };
                    assert(before[i0].url != before[j0].url);
                }
                assert forall|i: int| 0 <= i < r.len() implies (#[trigger] r[i]).wf() by {
                    let i0 = if i < k { i } else { i + 1 };
                    assert(before[i0].wf());
                }
            }
        }
        let u = self.upserted(url, obs, now).resources;
        assert(self.upserted(url, obs, now).wf()) by {
            match self.position(url) {
                Some(k) => {
                    lemma_merged_wf(before[k], obs, now);
                    assert forall|i: int, j: int| 0 <= i < j < u.len() implies u[i].url
                        != u[j].url by {
                        assert(before[i].url != before[j].url);
                    }
                    assert forall|i: int| 0 <= i < u.len() implies (#[trigger] u[i]).wf() by {
                        if i != k {
                            assert(before[i].wf());
                        }
                    }
                },
                None => {
                    lemma_merged_wf(ResourceView::unknown(url, now), obs, now);
                    assert forall|i: int, j: int| 0 <= i < j < u.len() implies u[i].url
                        != u[j].url by {
                        if j == n {
                            assert(before[i].url != url);
                        }
                    }
                },
            }
        }
    }
}

/// The monitored resources and the polling configuration.
#[derive(Debug)]
pub struct Registry {
    resources: Vec<Resource>,
    config: AppConfig,
}

impl View for Registry {
    type V = RegistryView;

    closed spec fn view(&self) -> RegistryView {
        RegistryView { resources: resource_views(self.resources@), config: self.config }
    }
}

impl Registry {
    /// Holds of every registry: see [`RegistryView::wf`].
    #[verifier::type_invariant]
    pub open spec fn well_formed(&self) -> bool {
        self@.wf()
    }

    /// A registry without resources and with the initial configuration.
    pub fn new() -> (reg: Registry)
        ensures
            reg@ == RegistryView::empty(),
            reg@.wf(),
    {
        let reg = Registry { resources: Vec::new(), config: AppConfig::default() };
        assert(reg@.resources =~= Seq::empty());
        reg
    }

    /// Number of registered resources.
    pub fn len(&self) -> (n: usize)
        ensures
            n == self@.resources.len(),
    {
        self.resources.len()
    }

    /// The configuration in force.
    pub fn config(&self) -> (c: AppConfig)
        ensures
            c == self@.config,
            c.wf(),
    {
        proof {
            use_type_invariant(self);
        }
        self.config
    }

    /// Where the resource under `url` stands, if it is registered.
    pub fn find(&self, url: &str) -> (at: Option<usize>)
        ensures
            match at {
                Some(i) => self@.position(url@) == Some(i as int) && i < self@.resources.len(),
                None => self@.position(url@) is None,
            },
            self@.wf(),
    {
        proof {
            use_type_invariant(self);
        }
        let key: String = url.to_owned();
        let n: usize = self.resources.len();
        let mut i: usize = 0;
        while i < n
            invariant
                i <= n,
                n == self.resources@.len(),
                key@ == url@,
                self@.wf(),
                forall|k: int| 0 <= k < i ==> (#[trigger] self@.resources[k]).url != url@,
            decreases n - i,
        {
            if self.resources[i].has_url(&key) {
                proof {
                    self@.lemma_position(url@, i as int);
                }
                return Some(i);
            }
            i = i + 1;
        }
        None
    }

    /// Whether a resource is registered under `url`.
    pub fn contains(&self, url: &str) -> (found: bool)
        ensures
            found == self@.contains(url@),
    {
        self.find(url).is_some()
    }

    /// A copy of the resource under `url`, if it is registered.
    pub fn get(&self, url: &str) -> (r: Option<Resource>)
        ensures
            match r {
                Some(res) => self@.get(url@) == Some(res@),
                None => self@.get(url@) is None,
            },
    {
        match self.find(url) {
            Some(i) => Some(self.resources[i].clone()),
            None => None,
        }
    }

    /// Registers `url` as a resource that has not been probed yet. An
    /// address of the wrong form or one that is registered already is
    /// rejected, and the registry stays as it was.
    pub fn add(&mut self, url: &str, now: Timestamp) -> (res: Result<(), AddError>)
        ensures
            res == old(self)@.add_outcome(url@),
            final(self)@ == old(self)@.added(url@, now),
            final(self)@.wf(),
    {
        proof {
            use_type_invariant(&*self);
        }
        let ghost before = self@;
        if !check_http_url(url) {
            return Err(AddError::InvalidUrl);
        }
        if self.find(url).is_some() {
            return Err(AddError::Duplicate);
        }
        let fresh: Resource = Resource::unknown(url, now);
        let mut resources: Vec<Resource> = Vec::new();
        core::mem::swap(&mut self.resources, &mut resources);
        resources.push(fresh);
        proof {
            before.lemma_transitions_keep_wf(
                url@,
                Observation { status_code: None, success: false, latency_ms: 0 },
                now,
                0,
                0,
            );
            assert(resource_views(resources@) =~= before.added(url@, now).resources);
        }
        core::mem::swap(&mut self.resources, &mut resources);
        Ok(())
    }

    /// Removes the resource under `url` and says whether there was one.
    pub fn remove(&mut self, url: &str) -> (removed: bool)
        ensures
            removed == old(self)@.contains(url@),
            final(self)@ == old(self)@.removed(url@),
            final(self)@.wf(),
    {
        proof {
            use_type_invariant(&*self);
        }
        let ghost before = self@;
        match self.find(url) {
            Some(i) => {
                let mut resources: Vec<Resource> = Vec::new();
                core::mem::swap(&mut self.resources, &mut resources);
                resources.remove(i);
                proof {
                    before.lemma_transitions_keep_wf(
                        url@,
                        Observation { status_code: None, success: false, latency_ms: 0 },
                        Timestamp { secs: 0, nanos: 0 },
                        0,
                        0,
                    );
                    assert(resource_views(resources@) =~= before.removed(url@).resources);
                }
                core::mem::swap(&mut self.resources, &mut resources);
                true
            },
            None => false,
        }
    }

    /// Merges `obs`, made at `now`, into the resource under `url` and
    /// returns a copy of the result. A resource that is not registered is
    /// created with the observation as its first sample.
    pub fn upsert(&mut self, url: &str, obs: &Observation, now: Timestamp) -> (r: Resource)
        ensures
            final(self)@ == old(self)@.upserted(url@, *obs, now),
            r@ == spec_merge(old(self)@.get(url@), url@, *obs, now),
            final(self)@.get(url@) == Some(r@),
            final(self)@.wf(),
    {
        proof {
            use_type_invariant(&*self);
        }
        let ghost before = self@;
        proof {
            before.lemma_transitions_keep_wf(url@, *obs, now, 0, 0);
        }
        let found: Option<usize> = self.find(url);
        let merged: Resource = match found {
            Some(i) => self.resources[i].merged(obs, now),
            None => Resource::unknown(url, now).merged(obs, now),
        };
        let copy: Resource = merged.clone();
        let mut resources: Vec<Resource> = Vec::new();
        core::mem::swap(&mut self.resources, &mut resources);
        match found {
            Some(i) => {
                resources.set(i, merged);
                proof {
                    assert(resource_views(resources@) =~= before.upserted(
                        url@,
                        *obs,
                        now,
                    ).resources);
                    before.upserted(url@, *obs, now).lemma_position(url@, i as int);
                }
            },
            None => {
                resources.push(merged);
                proof {
                    assert(resource_views(resources@) =~= before.upserted(
                        url@,
                        *obs,
                        now,
                    ).resources);
                    before.upserted(url@, *obs, now).lemma_position(
                        url@,
                        before.resources.len() as int,
                    );
                }
            },
        }
        core::mem::swap(&mut self.resources, &mut resources);
        copy
    }

    /// A deep copy of all resources, in registration order, and of the
    /// configuration.
    pub fn get_snapshot(&self) -> (snap: (Vec<Resource>, AppConfig))
        ensures
            resource_views(snap.0@) == self@.resources,
            snap.1 == self@.config,
            self@.wf(),
    {
        proof {
            use_type_invariant(self);
        }
        let n: usize = self.resources.len();
        let mut copies: Vec<Resource> = Vec::new();
        let mut i: usize = 0;
        while i < n
            invariant
                i <= n,
                n == self.resources@.len(),
                copies@.len() == i,
                forall|k: int| 0 <= k < i ==> (#[trigger] copies@[k])@ == self.resources@[k]@,
            decreases n - i,
        {
            copies.push(self.resources[i].clone());
            i = i + 1;
        }
        assert(resource_views(copies@) =~= self@.resources);
        (copies, self.config)
    }

    /// The addresses of all resources, in registration order.
    pub fn urls(&self) -> (list: Vec<String>)
        ensures
            list@.len() == self@.resources.len(),
            forall|i: int| 0 <= i < list@.len() ==> (#[trigger] list@[i])@ == self@.urls()[i],
    {
        let n: usize = self.resources.len();
        let mut list: Vec<String> = Vec::new();
        let mut i: usize = 0;
        while i < n
            invariant
                i <= n,
                n == self.resources@.len(),
                list@.len() == i,
                forall|k: int| 0 <= k < i ==> (#[trigger] list@[k])@ == self.resources@[k]@.url,
            decreases n - i,
        {
            list.push(self.resources[i].url().to_owned());
            i = i + 1;
        }
        list
    }

    /// Takes up a stored set of resources, in the order given, with the
    /// stored intervals brought into range. The set is rejected if two of
    /// its resources share an address.
    pub fn restore(resources: Vec<Resource>, check_interval: u64, refresh_interval: u64) -> (r:
        Result<Registry, RestoreError>)
        ensures
            match r {
                Ok(reg) => RegistryView::restored(
                    resource_views(resources@),
                    check_interval,
                    refresh_interval,
                ) == Ok::<RegistryView, RestoreError>(reg@) && reg@.wf(),
                Err(e) => RegistryView::restored(
                    resource_views(resources@),
                    check_interval,
                    refresh_interval,
                ) == Err::<RegistryView, RestoreError>(e),
            },
    {
        let ghost views = resource_views(resources@);
        let n: usize = resources.len();
        let mut i: usize = 0;
        while i < n
            invariant
                i <= n,
                n == resources@.len(),
                views == resource_views(resources@),
                forall|a: int, b: int| 0 <= a < b < i ==> views[a].url != views[b].url,
                forall|k: int| 0 <= k < i ==> (#[trigger] views[k]).wf(),
            decreases n - i,
        {
            let current: &Resource = &resources[i];
            proof {
                use_type_invariant(current);
            }
            let mut j: usize = 0;
            while j < i
                invariant
                    j <= i < n,
                    n == resources@.len(),
                    views == resource_views(resources@),
                    current@ == views[i as int],
                    forall|a: int| 0 <= a < j ==> views[a].url != views[i as int].url,
                decreases i - j,
            {
                if resources[j].same_url(current) {
                    assert(views[j as int].url == views[i as int].url);
                    assert(!distinct_urls(views));
                    return Err(RestoreError::DuplicateUrl);
                }
                j = j + 1;
            }
            i = i + 1;
        }
        Ok(Registry { resources, config: AppConfig::new(check_interval, refresh_interval) })
    }

    /// The registry of the built-in addresses, each registered at `now`.
    pub fn with_defaults(now: Timestamp) -> (reg: Registry)
        ensures
            reg@ == RegistryView::with_defaults(now),
            reg@.wf(),
    {
        let mut reg: Registry = Registry::new();
        let _ = reg.add("https://www.google.com", now);
        let _ = reg.add("https://www.github.com", now);
        let _ = reg.add("https://www.rust-lang.org", now);
        let _ = reg.add("https://www.wikipedia.org", now);
        let _ = reg.add("https://www.microsoft.com", now);
        reg
    }

    /// The registry to start from: the stored resources and intervals where
    /// there are any and they are accepted, the built-in addresses
    /// registered at `now` otherwise.
    pub fn load_or_default(saved: Option<(Vec<Resource>, u64, u64)>, now: Timestamp) -> (reg:
        Registry)
        ensures
            reg@ == RegistryView::loaded(saved_view(saved), now),
            reg@.wf(),
    {
        match saved {
            Some((resources, check_interval, refresh_interval)) => {
                match Registry::restore(resources, check_interval, refresh_interval) {
                    Ok(reg) => reg,
                    Err(_) => Registry::with_defaults(now),
                }
            },
            None => Registry::with_defaults(now),
        }
    }

    /// Sets both intervals, each brought into the admitted range first.
    pub fn update_config(&mut self, check_interval: u64, refresh_interval: u64)
        ensures
            final(self)@ == old(self)@.reconfigured(check_interval, refresh_interval),
            final(self)@.wf(),
    {
        proof {
            use_type_invariant(&*self);
        }
        self.config = AppConfig::new(check_interval, refresh_interval);
    }
}

} // verus!
