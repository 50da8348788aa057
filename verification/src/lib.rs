//! Liveness and latency monitoring for a set of HTTP endpoints.
//!
//! The crate holds the state-keeping engine of the monitor: the registry of
//! watched resources, the rolling latency window with its jitter statistic,
//! the check scheduler and the policy that throttles snapshot writes. Network
//! probes, rendering and file access are left to the embedding program, which
//! passes plain values in and carries out the effects that come back.

pub mod time;
pub mod window;
pub mod jitter;
pub mod url;
pub mod resource;
pub mod config;
pub mod registry;
pub mod gate;
pub mod scheduler;
pub mod monitor;
