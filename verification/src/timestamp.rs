//! Points in time, counted from the Unix epoch.
use vstd::prelude::*;

verus! {

/// Nanoseconds in a millisecond.
pub const NANOS_PER_MILLI: i128 = 1_000_000;

/// Nanoseconds in a second.
pub const NANOS_PER_SEC: i128 = 1_000_000_000;

/// A point in time: `secs` seconds and, on top of them, `nanos` nanoseconds after the Unix epoch.
/// Times before the epoch have negative seconds.
#[derive(Debug, Clone, Copy, PartialEq, Eq, Structural)]
pub struct Timestamp {
    pub secs: i64,
    pub nanos: u32,
}

impl Timestamp {
    /// Nanoseconds after the Unix epoch.
    pub open spec fn since_epoch(self) -> int {
        self.secs * NANOS_PER_SEC + self.nanos
    }

    /// The same count as a machine integer.
    fn total(&self) -> (nanos: i128)
        ensures
            nanos == self.since_epoch(),
    {
        self.secs as i128 * NANOS_PER_SEC + self.nanos as i128
    }

    /// Whether `self` is no later than `other`.
    pub fn not_after(&self, other: &Timestamp) -> (ordered: bool)
        ensures
            ordered == (self.since_epoch() <= other.since_epoch()),
    {
        self.total() <= other.total()
    }

    /// Whether `self` is at or after the Unix epoch.
    pub fn at_or_after_epoch(&self) -> (after: bool)
        ensures
            after == (self.since_epoch() >= 0),
    {
        self.total() >= 0
    }

    /// Whole milliseconds since the Unix epoch, rounded down.
    pub fn epoch_millis(&self) -> (millis: u128)
        requires
            self.since_epoch() >= 0,
        ensures
            millis == self.since_epoch() / NANOS_PER_MILLI as int,
    {
        (self.total() as u128) / (NANOS_PER_MILLI as u128)
    }

    /// Whole milliseconds from `self` to `later`, rounded down.
    pub fn millis_until(&self, later: &Timestamp) -> (millis: u128)
        requires
            self.since_epoch() <= later.since_epoch(),
        ensures
            millis == (later.since_epoch() - self.since_epoch()) / NANOS_PER_MILLI as int,
    {
        ((later.total() - self.total()) as u128) / (NANOS_PER_MILLI as u128)
    }
}

} // verus!
