//! Points in time, as the notes record them.
use vstd::prelude::*;

verus! {

/// An instant: whole seconds since the Unix epoch and the nanoseconds past that second.
#[derive(Clone, Copy, Debug, PartialEq, Eq, Structural, PartialOrd, Ord, Hash)]
pub struct Timestamp {
    pub secs: i64,
    pub nanos: u32,
}

/// Whether `a` comes strictly before `b`: by the seconds, then by the nanoseconds.
pub open spec fn is_before(a: Timestamp, b: Timestamp) -> bool {
    a.secs < b.secs || (a.secs == b.secs && a.nanos < b.nanos)
}

/// The later of two instants.
pub open spec fn later(a: Timestamp, b: Timestamp) -> Timestamp {
    if is_before(a, b) {
        b
    } else {
        a
    }
}

impl Timestamp {
    /// The later of `self` and `other`.
    pub fn later_of(self, other: Timestamp) -> (r: Timestamp)
        ensures
            r == later(self, other),
    {
        if self.secs < other.secs || (self.secs == other.secs && self.nanos < other.nanos) {
            other
        } else {
            self
        }
    }
}

impl Default for Timestamp {
    /// The Unix epoch.
    fn default() -> (r: Self)
        ensures
            r.secs == 0,
            r.nanos == 0,
    {
        Timestamp { secs: 0, nanos: 0 }
    }
}

} // verus!
