use vstd::prelude::*;

verus! {

/// A point in time: whole seconds since the Unix epoch, plus a sub-second
/// nanosecond part. Negative `secs` name instants before the epoch.
#[derive(Clone, Copy, PartialEq, Eq, Structural, Debug)]
pub struct Timestamp {
    pub secs: i64,
    pub nanos: u32,
}

impl Timestamp {
    /// The nanosecond part never reaches a full second.
    pub open spec fn well_formed(self) -> bool {
        self.nanos < 1_000_000_000
    }
}

/// The access time and the modification time to apply to a batch of files.
/// Resolved once per invocation and shared, read-only, by every target file.
#[derive(Clone, Copy, PartialEq, Eq, Structural, Debug)]
pub struct TimestampPair {
    pub access: Timestamp,
    pub modification: Timestamp,
}

impl TimestampPair {
    pub open spec fn well_formed(self) -> bool {
        self.access.well_formed() && self.modification.well_formed()
    }
}

/// The pair in which both times are the same whole-second instant, as when a
/// parsed date supplies a single moment for access and modification alike.
pub fn pair_from_epoch(secs: i64) -> (p: TimestampPair)
    ensures
        p.access.secs == secs,
        p.access.nanos == 0,
        p.modification == p.access,
        p.well_formed(),
{
    let t = Timestamp { secs, nanos: 0 };
    TimestampPair { access: t, modification: t }
}

} // verus!
