//! Time values of the protocol, carried as eight-byte counts of milliseconds
//! since the Unix epoch.
use vstd::prelude::*;

verus! {

/// An instant or a span of time, in milliseconds; the wire holds the count
/// unchanged, so every value reads back as written.
#[derive(Debug, Clone, Copy, PartialEq, Eq, Default, Structural)]
pub struct PsoTime {
    pub millis: u64,
}

impl PsoTime {
    pub fn from_millis(millis: u64) -> (r: PsoTime)
        ensures
            r.millis == millis,
    {
        PsoTime { millis }
    }

    /// Whole seconds and the milliseconds left over.
    pub fn as_secs_millis(&self) -> (r: (u64, u64))
        ensures
            r.0 * 1000 + r.1 == self.millis,
            r.1 < 1000,
    {
        (self.millis / 1000, self.millis % 1000)
    }
}

} // verus!
