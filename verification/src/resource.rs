//! One monitored endpoint, what a probe reports about it, and how a report
//! is folded into the endpoint's history.

use vstd::prelude::*;
use crate::jitter::{jitter_of, Jitter};
use crate::time::Timestamp;
use crate::window::{
    keep_last, lemma_replayed_keeps_most_recent, lemma_rolled_len, replayed, rolled, LatencyWindow,
    WINDOW_CAPACITY,
};

verus! {

/// Whether a resource answered its last probe. A resource is `Unknown` only
/// until its first probe has been merged.
#[derive(Clone, Copy, PartialEq, Eq, Structural, Debug)]
pub enum Status {
    Up,
    Down,
    Unknown,
}

/// What one probe of a resource found.
#[derive(Clone, Copy, Debug)]
pub struct Observation {
    /// The HTTP status code, if any response arrived.
    pub status_code: Option<u16>,
    /// Whether the response arrived and its code was in the 2xx class.
    pub success: bool,
    /// Wall-clock duration of the attempt in milliseconds.
    pub latency_ms: u64,
}

/// Codes of the 2xx class count as success.
pub open spec fn is_success_code(code: u16) -> bool {
    200 <= code < 300
}

impl Observation {
    /// The status that a resource takes on from this observation: up only
    /// for a success that carries a code.
    pub open spec fn status(self) -> Status {
        if self.success && self.status_code is Some {
            Status::Up
        } else {
            Status::Down
        }
    }

    /// The observation for a response that arrived with `code`.
    pub fn received(code: u16, latency_ms: u64) -> (o: Observation)
        ensures
            o.status_code == Some(code),
            o.success == is_success_code(code),
            o.latency_ms == latency_ms,
    {
        Observation { status_code: Some(code), success: 200 <= code && code < 300, latency_ms }
    }

    /// The observation for an attempt that got no response: the connection
    /// failed or the time limit passed.
    pub fn failed(latency_ms: u64) -> (o: Observation)
        ensures
            o.status_code is None,
            !o.success,
            o.latency_ms == latency_ms,
    {
        Observation { status_code: None, success: false, latency_ms }
    }

    /// Executable form of [`Observation::status`].
    pub fn to_status(&self) -> (s: Status)
        ensures
            s == self.status(),
    {
        if self.success && self.status_code.is_some() {
            Status::Up
        } else {
            Status::Down
        }
    }
}

/// The mathematical content of a [`Resource`].
pub struct ResourceView {
    pub url: Seq<char>,
    pub status: Status,
    pub status_code: Option<u16>,
    pub last_checked: Timestamp,
    pub response_time: Option<u64>,
    pub response_times: Seq<u64>,
    pub jitter: Option<Jitter>,
}

impl ResourceView {
    /// The history fits the window, and the jitter is the one of the
    /// history: present exactly from two samples on.
    pub open spec fn wf(self) -> bool {
        &&& self.response_times.len() <= WINDOW_CAPACITY
        &&& self.jitter == jitter_of(self.response_times)
    }

    /// A resource that has been registered at `now` and not probed yet.
    pub open spec fn unknown(url: Seq<char>, now: Timestamp) -> ResourceView {
        ResourceView {
            url,
            status: Status::Unknown,
            status_code: None,
            last_checked: now,
            response_time: None,
            response_times: Seq::empty(),
            jitter: None,
        }
    }

    /// The resource after `obs`, made at `now`, has been folded in.
    pub open spec fn merged(self, obs: Observation, now: Timestamp) -> ResourceView {
        ResourceView {
            url: self.url,
            status: obs.status(),
            status_code: obs.status_code,
            last_checked: now,
            response_time: Some(obs.latency_ms),
            response_times: rolled(self.response_times, obs.latency_ms),
            jitter: jitter_of(rolled(self.response_times, obs.latency_ms)),
        }
    }
}

/// The resource that results from folding `obs` into `existing`, or into an
/// empty history for `url` where there is no resource yet.
pub open spec fn spec_merge(
    existing: Option<ResourceView>,
    url: Seq<char>,
    obs: Observation,
    now: Timestamp,
) -> ResourceView {
    match existing {
        Some(r) => r.merged(obs, now),
        None => ResourceView::unknown(url, now).merged(obs, now),
    }
}

/// Merging keeps a resource well formed, leaves the `Unknown` state for
/// good, and yields a jitter exactly when at least two samples are held.
pub proof fn lemma_merged_wf(r: ResourceView, obs: Observation, now: Timestamp)
    requires
        r.wf(),
    ensures
        r.merged(obs, now).wf(),
        r.merged(obs, now).status != Status::Unknown,
        r.merged(obs, now).url == r.url,
        r.merged(obs, now).response_times.len() >= 1,
        r.merged(obs, now).jitter is Some <==> r.merged(obs, now).response_times.len() >= 2,
{
    lemma_rolled_len(r.response_times, obs.latency_ms);
}

/// The latencies of a run of observations, in order.
pub open spec fn latencies(observations: Seq<(Observation, Timestamp)>) -> Seq<u64> {
    Seq::new(observations.len(), |i: int| observations[i].0.latency_ms)
}

impl ResourceView {
    /// The resource after each of `observations` has been folded in, in
    /// order, each at the time paired with it.
    pub open spec fn merged_all(self, observations: Seq<(Observation, Timestamp)>) -> ResourceView
        decreases observations.len(),
    {
        if observations.len() == 0 {
            self
        } else {
            self.merged_all(observations.drop_last()).merged(
                observations.last().0,
                observations.last().1,
            )
        }
    }
}

/// After any run of merges the window is within capacity and holds exactly
/// the most recent latencies of the whole history, oldest first; the
/// resource is well formed, keeps its address, and is no longer `Unknown`
/// once at least one observation has been merged.
pub proof fn lemma_merged_all(r: ResourceView, observations: Seq<(Observation, Timestamp)>)
    requires
        r.wf(),
    ensures
        r.merged_all(observations).wf(),
        r.merged_all(observations).url == r.url,
        r.merged_all(observations).response_times.len() <= WINDOW_CAPACITY,
        r.merged_all(observations).response_times == replayed(
            r.response_times,
            latencies(observations),
        ),
        r.merged_all(observations).response_times == keep_last(
            r.response_times + latencies(observations),
            WINDOW_CAPACITY as nat,
        ),
        observations.len() > 0 ==> r.merged_all(observations).status != Status::Unknown,
    decreases observations.len(),
{
    lemma_replayed_keeps_most_recent(r.response_times, latencies(observations));
    if observations.len() > 0 {
        let front = observations.drop_last();
        lemma_merged_all(r, front);
        lemma_merged_wf(r.merged_all(front), observations.last().0, observations.last().1);
        assert(latencies(observations).drop_last() =~= latencies(front));
    }
}

/// Why a stored record was not accepted as a resource.
#[derive(Clone, Copy, PartialEq, Eq, Structural, Debug)]
pub enum RecordError {
    /// The record was filed under a key other than its own address.
    KeyMismatch,
    /// The record holds more samples than a window can.
    WindowTooLong,
    /// The record carries a jitter without two samples, or two samples
    /// without a jitter.
    JitterMismatch,
}

/// What [`Resource::from_parts`] makes of the parts of a stored record.
pub open spec fn spec_from_parts(
    key: Seq<char>,
    url: Seq<char>,
    status: Status,
    status_code: Option<u16>,
    last_checked: Timestamp,
    response_time: Option<u64>,
    response_times: Seq<u64>,
    has_jitter: bool,
) -> Result<ResourceView, RecordError> {
    if key != url {
        Err(RecordError::KeyMismatch)
    } else if response_times.len() > WINDOW_CAPACITY {
        Err(RecordError::WindowTooLong)
    } else if has_jitter != (response_times.len() >= 2) {
        Err(RecordError::JitterMismatch)
    } else {
        Ok(
            ResourceView {
                url,
                status,
                status_code,
                last_checked,
                response_time,
                response_times,
                jitter: jitter_of(response_times),
            },
        )
    }
}

/// Taking a well-formed resource apart and putting it together again under
/// its own address gives the same resource back.
pub proof fn lemma_parts_round_trip(r: ResourceView)
    requires
        r.wf(),
    ensures
        spec_from_parts(
            r.url,
            r.url,
            r.status,
            r.status_code,
            r.last_checked,
            r.response_time,
            r.response_times,
            r.jitter is Some,
        ) == Ok::<ResourceView, RecordError>(r),
{
}

/// One monitored endpoint with its current status and recent latencies.
#[derive(Debug)]
pub struct Resource {
    url: String,
    status: Status,
    status_code: Option<u16>,
    last_checked: Timestamp,
    response_time: Option<u64>,
    response_times: LatencyWindow,
    jitter: Option<Jitter>,
}

impl View for Resource {
    type V = ResourceView;

    closed spec fn view(&self) -> ResourceView {
        ResourceView {
            url: self.url@,
            status: self.status,
            status_code: self.status_code,
            last_checked: self.last_checked,
            response_time: self.response_time,
            response_times: self.response_times@,
            jitter: self.jitter,
        }
    }
}

impl Resource {
    /// Holds of every resource: see [`ResourceView::wf`].
    #[verifier::type_invariant]
    pub open spec fn well_formed(&self) -> bool {
        self@.wf()
    }

    /// A resource registered at `now` that no probe has reported on yet.
    pub fn unknown(url: &str, now: Timestamp) -> (r: Resource)
        ensures
            r@ == ResourceView::unknown(url@, now),
            r@.wf(),
    {
        Resource {
            url: url.to_owned(),
            status: Status::Unknown,
            status_code: None,
            last_checked: now,
            response_time: None,
            response_times: LatencyWindow::new(),
            jitter: None,
        }
    }

    /// The resource with `obs`, made at `now`, folded into its history:
    /// status and code are taken from the observation, the latency becomes
    /// the newest sample of the window, and the jitter is computed afresh.
    pub fn merged(&self, obs: &Observation, now: Timestamp) -> (r: Resource)
        ensures
            r@ == self@.merged(*obs, now),
            r@.wf(),
    {
        proof {
            use_type_invariant(self);
            lemma_merged_wf(self@, *obs, now);
        }
        let response_times: LatencyWindow = self.response_times.with_sample(obs.latency_ms);
        let jitter: Option<Jitter> = response_times.jitter();
        Resource {
            url: self.url.clone(),
            status: obs.to_status(),
            status_code: obs.status_code,
            last_checked: now,
            response_time: Some(obs.latency_ms),
            response_times,
            jitter,
        }
    }

    /// Puts a resource together from the parts of a stored record that was
    /// filed under `key`. The jitter is not stored with the parts: it is
    /// computed from the samples, and `has_jitter` says whether the record
    /// carried one.
    pub fn from_parts(
        key: &str,
        url: String,
        status: Status,
        status_code: Option<u16>,
        last_checked: Timestamp,
        response_time: Option<u64>,
        response_times: Vec<u64>,
        has_jitter: bool,
    ) -> (r: Result<Resource, RecordError>)
        ensures
            match r {
                Ok(res) => spec_from_parts(
                    key@,
                    url@,
                    status,
                    status_code,
                    last_checked,
                    response_time,
                    response_times@,
                    has_jitter,
                ) == Ok::<ResourceView, RecordError>(res@) && res@.wf(),
                Err(e) => spec_from_parts(
                    key@,
                    url@,
                    status,
                    status_code,
                    last_checked,
                    response_time,
                    response_times@,
                    has_jitter,
                ) == Err::<ResourceView, RecordError>(e),
            },
    {
        let filed_under: String = key.to_owned();
        if filed_under != url {
            return Err(RecordError::KeyMismatch);
        }
        let count: usize = response_times.len();
        let window: LatencyWindow = match LatencyWindow::from_samples(response_times) {
            Some(w) => w,
            None => {
                return Err(RecordError::WindowTooLong);
            },
        };
        if has_jitter != (count >= 2) {
            return Err(RecordError::JitterMismatch);
        }
        let jitter: Option<Jitter> = window.jitter();
        Ok(
            Resource {
                url,
                status,
                status_code,
                last_checked,
                response_time,
                response_times: window,
                jitter,
            },
        )
    }

    /// Whether the resource is the one at `url`.
    pub fn has_url(&self, url: &String) -> (same: bool)
        ensures
            same == (self@.url == url@),
    {
        self.url == *url
    }

    /// Whether both resources have the same address.
    pub fn same_url(&self, other: &Resource) -> (same: bool)
        ensures
            same == (self@.url == other@.url),
    {
        self.url == other.url
    }

    /// The address of the resource.
    pub fn url(&self) -> (u: &str)
        ensures
            u@ == self@.url,
    {
        self.url.as_str()
    }

    /// Whether the resource answered its last probe.
    pub fn status(&self) -> (s: Status)
        ensures
            s == self@.status,
    {
        self.status
    }

    /// The HTTP status code of the last probe, if a response arrived.
    pub fn status_code(&self) -> (c: Option<u16>)
        ensures
            c == self@.status_code,
    {
        self.status_code
    }

    /// When the resource was last probed, or registered if it never was.
    pub fn last_checked(&self) -> (t: Timestamp)
        ensures
            t == self@.last_checked,
    {
        self.last_checked
    }

    /// Latency of the last probe in milliseconds.
    pub fn response_time(&self) -> (t: Option<u64>)
        ensures
            t == self@.response_time,
    {
        self.response_time
    }

    /// The latencies of the most recent probes, oldest first.
    pub fn response_times(&self) -> (s: &Vec<u64>)
        ensures
            s@ == self@.response_times,
            s@.len() <= WINDOW_CAPACITY,
    {
        self.response_times.samples()
    }

    /// The jitter of the held latencies: present exactly when there are at
    /// least two of them.
    pub fn jitter(&self) -> (j: Option<Jitter>)
        ensures
            j == self@.jitter,
            j == jitter_of(self@.response_times),
            j is Some <==> self@.response_times.len() >= 2,
    {
        proof {
            use_type_invariant(self);
        }
        self.jitter
    }
}

impl Clone for Resource {
    fn clone(&self) -> (r: Resource)
        ensures
            r@ == self@,
    {
        proof {
            use_type_invariant(self);
        }
        Resource {
            url: self.url.clone(),
            status: self.status,
            status_code: self.status_code,
            last_checked: self.last_checked,
            response_time: self.response_time,
            response_times: self.response_times.clone(),
            jitter: self.jitter,
        }
    }
}

/// Folds `obs`, made at `now`, into `existing`, or starts the history of
/// `url` with it where no resource exists yet.
pub fn merge(existing: Option<&Resource>, url: &str, obs: &Observation, now: Timestamp) -> (r:
    Resource)
    ensures
        r@ == spec_merge(
            match existing {
                Some(e) => Some(e@),
                None => None,
            },
            url@,
            *obs,
            now,
        ),
        r@.wf(),
{
    match existing {
        Some(e) => e.merged(obs, now),
        None => Resource::unknown(url, now).merged(obs, now),
    }
}

} // verus!
