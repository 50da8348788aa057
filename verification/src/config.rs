//! The polling configuration shared by the whole monitor.

use vstd::prelude::*;

verus! {

/// Shortest interval, in seconds, that the configuration admits.
pub const MIN_INTERVAL: u64 = 5;

/// Longest interval, in seconds, that the configuration admits.
pub const MAX_INTERVAL: u64 = 3600;

/// Seconds between check cycles unless configured otherwise.
pub const DEFAULT_CHECK_INTERVAL: u64 = 60;

/// Seconds between refreshes of the view unless configured otherwise.
pub const DEFAULT_REFRESH_INTERVAL: u64 = 30;

/// The admitted interval nearest to `secs`.
pub open spec fn clamp_interval(secs: u64) -> u64 {
    if secs < MIN_INTERVAL {
        MIN_INTERVAL
    } else if secs > MAX_INTERVAL {
        MAX_INTERVAL
    } else {
        secs
    }
}

/// Executable form of [`clamp_interval`].
pub fn clamped_interval(secs: u64) -> (c: u64)
    ensures
        c == clamp_interval(secs),
        MIN_INTERVAL <= c <= MAX_INTERVAL,
{
    if secs < MIN_INTERVAL {
        MIN_INTERVAL
    } else if secs > MAX_INTERVAL {
        MAX_INTERVAL
    } else {
        secs
    }
}

/// How often resources are checked and how often a view of them should be
/// refreshed, both in seconds. The refresh interval is handed through to
/// whoever displays the resources; it has no part in scheduling.
#[derive(Clone, Copy, PartialEq, Eq, Structural, Debug)]
pub struct AppConfig {
    pub check_interval: u64,
    pub refresh_interval: u64,
}

impl AppConfig {
    /// Both intervals lie within the admitted range.
    pub open spec fn wf(self) -> bool {
        &&& MIN_INTERVAL <= self.check_interval <= MAX_INTERVAL
        &&& MIN_INTERVAL <= self.refresh_interval <= MAX_INTERVAL
    }

    /// The configuration nearest to the requested intervals.
    pub open spec fn clamped(check_interval: u64, refresh_interval: u64) -> AppConfig {
        AppConfig {
            check_interval: clamp_interval(check_interval),
            refresh_interval: clamp_interval(refresh_interval),
        }
    }

    /// The configuration in force before any other is chosen.
    pub open spec fn initial() -> AppConfig {
        AppConfig {
            check_interval: DEFAULT_CHECK_INTERVAL,
            refresh_interval: DEFAULT_REFRESH_INTERVAL,
        }
    }

    /// A configuration with each requested interval brought into range.
    pub fn new(check_interval: u64, refresh_interval: u64) -> (c: AppConfig)
        ensures
            c == AppConfig::clamped(check_interval, refresh_interval),
            c.wf(),
    {
        AppConfig {
            check_interval: clamped_interval(check_interval),
            refresh_interval: clamped_interval(refresh_interval),
        }
    }
}

impl Default for AppConfig {
    fn default() -> (c: AppConfig)
        ensures
            c == AppConfig::initial(),
            c.wf(),
    {
        AppConfig {
            check_interval: DEFAULT_CHECK_INTERVAL,
            refresh_interval: DEFAULT_REFRESH_INTERVAL,
        }
    }
}

/// Clamping is idempotent: a configuration in range is left as it is, and
/// every clamped configuration is in range.
pub proof fn lemma_clamped_wf(check_interval: u64, refresh_interval: u64)
    ensures
        AppConfig::clamped(check_interval, refresh_interval).wf(),
        (AppConfig { check_interval, refresh_interval }).wf() ==> AppConfig::clamped(
            check_interval,
            refresh_interval,
        ) == (AppConfig { check_interval, refresh_interval }),
{
}

} // verus!
