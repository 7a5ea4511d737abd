//! The policy that restricts when an escrowed balance may be claimed.
use vstd::prelude::*;

verus! {

/// Which side of the timestamp a claim must fall on.
#[derive(Clone, Copy, Debug, PartialEq, Eq, Structural)]
pub enum TimeBoundKind {
    Before,
    After,
}

/// A claim is allowed at or before (`Before`), or at or after (`After`),
/// `timestamp`; both boundaries are inclusive.
#[derive(Clone, Copy, Debug, PartialEq, Eq, Structural)]
pub struct TimeBound {
    pub kind: TimeBoundKind,
    pub timestamp: u64,
}

impl TimeBound {
    /// Whether a claim at time `now` satisfies this bound.
    pub open spec fn allows(self, now: u64) -> bool {
        match self.kind {
            TimeBoundKind::Before => now <= self.timestamp,
            TimeBoundKind::After => now >= self.timestamp,
        }
    }

    pub fn is_satisfied(&self, now: u64) -> (r: bool)
        ensures
            r == self.allows(now),
    {
        match self.kind {
            TimeBoundKind::Before => now <= self.timestamp,
            TimeBoundKind::After => now >= self.timestamp,
        }
    }
}

} // verus!
