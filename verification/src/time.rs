//! Points in time and lengths of time, held as whole seconds and nanoseconds.

use vstd::prelude::*;

verus! {

/// Nanoseconds in one second.
pub const NANOS_PER_SEC: u32 = 1_000_000_000;

/// Seconds in one minute.
pub const SECS_IN_MINUTE: u64 = 60;

/// Seconds in one hour.
pub const SECS_IN_HOUR: u64 = SECS_IN_MINUTE * 60;

/// Seconds in one day.
pub const SECS_IN_DAY: u64 = SECS_IN_HOUR * 24;

/// A length of time: `secs` whole seconds and `nanos` further nanoseconds.
#[derive(Clone, Copy, Debug, PartialEq, Eq, Structural)]
pub struct TimeSpan {
    pub secs: u64,
    pub nanos: u32,
}

/// A point in time: `secs` whole seconds after the Unix epoch (before it when
/// negative) and `nanos` further nanoseconds.
#[derive(Clone, Copy, Debug, PartialEq, Eq, Structural)]
pub struct Instant {
    pub secs: i64,
    pub nanos: u32,
}

impl TimeSpan {
    /// The length of the span in nanoseconds.
    pub open spec fn total_nanos(self) -> int {
        self.secs * NANOS_PER_SEC + self.nanos
    }

    /// A span of `secs` seconds and `nanos` nanoseconds.
    pub fn new(secs: u64, nanos: u32) -> (span: TimeSpan)
        ensures
            span == (TimeSpan { secs, nanos }),
    {
        TimeSpan { secs, nanos }
    }

    /// A span of whole seconds.
    pub fn from_secs(secs: u64) -> (span: TimeSpan)
        ensures
            span == (TimeSpan { secs, nanos: 0 }),
            span.total_nanos() == secs * NANOS_PER_SEC,
    {
        TimeSpan { secs, nanos: 0 }
    }

    /// The length of the span in nanoseconds, as a machine integer.
    pub fn as_nanos(&self) -> (n: i128)
        ensures
            n == self.total_nanos(),
    {
        let secs: i128 = self.secs as i128;
        let nanos: i128 = self.nanos as i128;
        secs * 1_000_000_000 + nanos
    }
}

impl Instant {
    /// Nanoseconds from the Unix epoch to this instant.
    pub open spec fn total_nanos(self) -> int {
        self.secs * NANOS_PER_SEC + self.nanos
    }

    /// The instant `secs` seconds and `nanos` nanoseconds after the epoch.
    pub fn new(secs: i64, nanos: u32) -> (at: Instant)
        ensures
            at == (Instant { secs, nanos }),
    {
        Instant { secs, nanos }
    }

    /// The instant a whole number of seconds after the epoch.
    pub fn from_secs(secs: i64) -> (at: Instant)
        ensures
            at == (Instant { secs, nanos: 0 }),
            at.total_nanos() == secs * NANOS_PER_SEC,
    {
        Instant { secs, nanos: 0 }
    }

    /// Nanoseconds from the Unix epoch to this instant, as a machine integer.
    pub fn as_nanos(&self) -> (n: i128)
        ensures
            n == self.total_nanos(),
    {
        let secs: i128 = self.secs as i128;
        let nanos: i128 = self.nanos as i128;
        secs * 1_000_000_000 + nanos
    }

    /// Whether at least `span` has passed between `earlier` and this instant.
    pub fn has_elapsed_since(&self, earlier: &Instant, span: &TimeSpan) -> (b: bool)
        ensures
            b == elapsed(*earlier, *self, *span),
    {
        self.as_nanos() - earlier.as_nanos() >= span.as_nanos()
    }
}

/// At least `span` lies between `earlier` and `later`.
pub open spec fn elapsed(earlier: Instant, later: Instant, span: TimeSpan) -> bool {
    later.total_nanos() - earlier.total_nanos() >= span.total_nanos()
}

} // verus!
