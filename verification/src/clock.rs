//! Points in time and the clocks that produce them.
use std::time::Instant;
use vstd::prelude::*;

verus! {

/// Number of nanoseconds in one second.
pub const NANOS_PER_SEC: u32 = 1_000_000_000;

/// The largest number of nanoseconds that a `std::time::Duration` can hold.
pub const MAX_DURATION_NANOS: u128 = 18_446_744_073_709_551_615_999_999_999;

/// A UTC wall-clock time: whole seconds since the Unix epoch and the
/// nanoseconds past that second.
#[derive(Debug, Clone, Copy, PartialEq, Eq, Structural)]
pub struct UtcTime {
    pub secs: i64,
    pub nanos: u32,
}

impl UtcTime {
    /// A time is well formed when its nanosecond part is below one second.
    pub open spec fn wf(self) -> bool {
        self.nanos < NANOS_PER_SEC
    }

    /// The time as a number of nanoseconds since the epoch.
    pub open spec fn total_nanos(self) -> int {
        self.secs * 1_000_000_000 + self.nanos
    }

    /// Builds a time from its two parts.
    pub fn new(secs: i64, nanos: u32) -> (t: UtcTime)
        requires
            nanos < NANOS_PER_SEC,
        ensures
            t.secs == secs,
            t.nanos == nanos,
            t.wf(),
    {
        UtcTime { secs, nanos }
    }
}

/// A number of nanoseconds as whole seconds, rounded down.
pub open spec fn whole_seconds(nanos: u128) -> int {
    nanos as int / 1_000_000_000
}

#[verifier::external_type_specification]
#[verifier::external_body]
pub struct ExInstant(std::time::Instant);

/// Reads the system clock: `std::time::SystemTime::now`, converted by
/// chrono's `From<SystemTime> for DateTime<Utc>`. The claim rests on chrono's
/// source: the sub-second part comes from a `Duration` (below one second) or,
/// for a time before the epoch, is one second minus such a part, so it is
/// below one second. Unlike `Utc::now`, the conversion handles a clock that
/// reads before the epoch; it fails only for a clock beyond chrono's range of
/// about 262,000 years. Nothing is claimed of which time is returned.
#[verifier::external_body]
pub fn utc_now() -> (t: UtcTime)
    ensures
        t.wf(),
{
    let now = chrono::DateTime::<chrono::Utc>::from(std::time::SystemTime::now());
    UtcTime { secs: now.timestamp(), nanos: now.timestamp_subsec_nanos() }
}

/// Reads the monotonic clock through `std::time::Instant::now`.
/// Nothing is claimed of the instant that is returned.
#[verifier::external_body]
pub fn instant_now() -> Instant {
    std::time::Instant::now()
}

/// The time elapsed since `start`, in nanoseconds, through
/// `std::time::Instant::elapsed`. The only claim is that it fits in a
/// `Duration`, as every `Duration` does.
#[verifier::external_body]
pub fn elapsed_nanos(start: &Instant) -> (n: u128)
    ensures
        n <= MAX_DURATION_NANOS,
{
    start.elapsed().as_nanos()
}

} // verus!

verus! {

impl UtcTime {
    /// Whether `self` is not later than `other`.
    pub open spec fn not_after(self, other: UtcTime) -> bool {
        self.total_nanos() <= other.total_nanos()
    }

    /// The whole seconds from `earlier` to `self`, rounded down, as chrono's
    /// `TimeDelta::num_seconds` gives them for a positive difference.
    pub open spec fn whole_seconds_since(self, earlier: UtcTime) -> int {
        (self.total_nanos() - earlier.total_nanos()) / 1_000_000_000
    }

    /// The time as nanoseconds since the epoch, computed exactly.
    pub fn nanos_since_epoch(&self) -> (n: i128)
        ensures
            n == self.total_nanos(),
    {
        (self.secs as i128) * 1_000_000_000 + (self.nanos as i128)
    }
}

} // verus!
