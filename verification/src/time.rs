//! Instants on the timeline of an item.

use vstd::prelude::*;

verus! {

/// An instant in UTC: whole seconds since the Unix epoch and the nanoseconds
/// into that second. Instants are ordered by seconds first, then by
/// nanoseconds.
#[derive(Clone, Copy, Debug, PartialEq, Eq, PartialOrd, Ord, Hash, Structural)]
pub struct Timestamp {
    pub secs: i64,
    pub nanos: u32,
}

impl Timestamp {
    /// `self` is strictly earlier than `other`.
    pub open spec fn spec_precedes(self, other: Timestamp) -> bool {
        self.secs < other.secs || (self.secs == other.secs && self.nanos < other.nanos)
    }

    /// The instant `nanos` nanoseconds after the second `secs`.
    pub fn new(secs: i64, nanos: u32) -> (t: Timestamp)
        ensures
            t == (Timestamp { secs, nanos }),
    {
        Timestamp { secs, nanos }
    }

    /// The instant `secs` whole seconds after the Unix epoch.
    pub fn from_secs(secs: i64) -> (t: Timestamp)
        ensures
            t == (Timestamp { secs, nanos: 0 }),
    {
        Timestamp { secs, nanos: 0 }
    }

    /// Whether `self` is strictly earlier than `other`.
    #[verifier::when_used_as_spec(spec_precedes)]
    pub fn precedes(self, other: Timestamp) -> (b: bool)
        ensures
            b == self.spec_precedes(other),
    {
        self.secs < other.secs || (self.secs == other.secs && self.nanos < other.nanos)
    }
}

} // verus!
