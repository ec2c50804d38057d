//! The time a call may take before the watchdog ends it.

use vstd::prelude::*;

verus! {

/// Nanoseconds in a second.
pub const NANOS_PER_SEC: u32 = 1_000_000_000;

/// A span of time: whole seconds and a rest in nanoseconds.
#[derive(Clone, Copy, Debug, PartialEq, Eq, Structural)]
pub struct Timeout {
    pub secs: u64,
    pub nanos: u32,
}

impl Timeout {
    /// The span in nanoseconds.
    pub open spec fn total_nanos(self) -> nat {
        (self.secs * NANOS_PER_SEC + self.nanos) as nat
    }

    /// Longer than no time at all.
    pub open spec fn is_positive(self) -> bool {
        self.total_nanos() > 0
    }

    /// Whether the span is longer than no time at all.
    pub fn positive(&self) -> (r: bool)
        ensures
            r == self.is_positive(),
    {
        assert(self.secs > 0 ==> self.secs * NANOS_PER_SEC > 0) by (nonlinear_arith);
        self.secs > 0 || self.nanos > 0
    }
}

} // verus!
