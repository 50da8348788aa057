//! Instants on the UTC time line and the distances between them.

use vstd::prelude::*;

verus! {

/// Nanoseconds in one second.
pub const NANOS_PER_SEC: i128 = 1_000_000_000;

/// Nanoseconds in one minute.
pub const NANOS_PER_MINUTE: i128 = 60_000_000_000;

/// An instant, held as whole seconds since the Unix epoch and the nanoseconds
/// past that second.
#[derive(Clone, Copy, PartialEq, Eq, Structural, Debug)]
pub struct Timestamp {
    pub secs: i64,
    pub nanos: u32,
}

/// Quotient of `a` by a positive `b`, rounded toward zero.
pub open spec fn div_toward_zero(a: int, b: int) -> int {
    if a >= 0 {
        a / b
    } else {
        -((-a) / b)
    }
}

impl Timestamp {
    /// The instant as a count of nanoseconds since the Unix epoch.
    pub open spec fn as_nanos(self) -> int {
        self.secs * NANOS_PER_SEC + self.nanos
    }

    /// Whole minutes from `earlier` to `self`, rounded toward zero; negative
    /// when `self` is the earlier of the two.
    pub open spec fn spec_minutes_since(self, earlier: Timestamp) -> int {
        div_toward_zero(self.as_nanos() - earlier.as_nanos(), NANOS_PER_MINUTE as int)
    }

    pub fn new(secs: i64, nanos: u32) -> (t: Timestamp)
        ensures
            t.secs == secs,
            t.nanos == nanos,
    {
        Timestamp { secs, nanos }
    }

    /// Signed distance from `earlier` to `self` in nanoseconds.
    pub fn nanos_since(&self, earlier: &Timestamp) -> (d: i128)
        ensures
            d == self.as_nanos() - earlier.as_nanos(),
    {
        let a: i128 = self.secs as i128 * NANOS_PER_SEC + self.nanos as i128;
        let b: i128 = earlier.secs as i128 * NANOS_PER_SEC + earlier.nanos as i128;
        a - b
    }

    /// Whole minutes elapsed from `earlier` to `self`.
    pub fn minutes_since(&self, earlier: &Timestamp) -> (m: i64)
        ensures
            m == self.spec_minutes_since(*earlier),
    {
        let d: i128 = self.nanos_since(earlier);
        if d >= 0 {
            let q: i128 = d / NANOS_PER_MINUTE;
            q as i64
        } else {
            let q: i128 = (-d) / NANOS_PER_MINUTE;
            (-q) as i64
        }
    }
}

/// Reads the system clock through `chrono::Utc::now` and splits the instant
/// into Unix seconds and sub-second nanoseconds with `DateTime::timestamp`
/// and `DateTime::timestamp_subsec_nanos`. Nothing is claimed about the
/// value: two readings may be equal or lie in either order. `Utc::now`
/// gives up on a system clock set before the Unix epoch.
#[verifier::external_body]
pub(crate) fn clock_now() -> (now: Timestamp)
{
    let t = chrono::Utc::now();
    Timestamp { secs: t.timestamp(), nanos: t.timestamp_subsec_nanos() }
}

} // verus!
