//! Lengths of time, as whole seconds and a sub-second remainder.

use vstd::prelude::*;

verus! {

/// Nanoseconds in one second.
pub const NANOS_PER_SEC: u32 = 1_000_000_000;

/// A non-negative length of time with nanosecond resolution.
#[derive(Clone, Copy, Debug, PartialEq, Eq)]
pub struct TimeSpan {
    secs: u64,
    nanos: u32,
}

impl TimeSpan {
    #[verifier::type_invariant]
    spec fn well_formed(self) -> bool {
        self.nanos < NANOS_PER_SEC
    }

    /// The whole seconds of this span.
    pub closed spec fn spec_secs(self) -> u64 {
        self.secs
    }

    /// The nanoseconds beyond the whole seconds.
    pub closed spec fn spec_subsec_nanos(self) -> u32 {
        self.nanos
    }

    /// The span of `secs` whole seconds.
    pub closed spec fn spec_from_secs(secs: u64) -> TimeSpan {
        TimeSpan { secs, nanos: 0 }
    }

    /// A span of whole seconds has those seconds and no remainder.
    pub proof fn lemma_from_secs(secs: u64)
        ensures
            Self::spec_from_secs(secs).spec_secs() == secs,
            Self::spec_from_secs(secs).spec_subsec_nanos() == 0,
            Self::spec_from_secs(secs).total_nanos() == secs * 1_000_000_000,
    {
    }

    /// The span as a count of nanoseconds.
    pub open spec fn total_nanos(self) -> nat {
        (self.spec_secs() * 1_000_000_000 + self.spec_subsec_nanos()) as nat
    }

    /// A span of `secs` seconds and `nanos` nanoseconds, if `nanos` is less
    /// than one second.
    pub fn new(secs: u64, nanos: u32) -> (r: Option<TimeSpan>)
        ensures
            r.is_some() == (nanos < NANOS_PER_SEC),
            r matches Some(t) ==> t.spec_secs() == secs && t.spec_subsec_nanos() == nanos,
    {
        if nanos < NANOS_PER_SEC {
            Some(TimeSpan { secs, nanos })
        } else {
            None
        }
    }

    /// A span of whole seconds.
    pub fn from_secs(secs: u64) -> (r: TimeSpan)
        ensures
            r == Self::spec_from_secs(secs),
    {
        TimeSpan { secs, nanos: 0 }
    }

    /// The whole seconds of this span.
    pub fn as_secs(&self) -> (r: u64)
        ensures
            r == self.spec_secs(),
    {
        self.secs
    }

    /// The nanoseconds beyond the whole seconds.
    pub fn subsec_nanos(&self) -> (r: u32)
        ensures
            r == self.spec_subsec_nanos(),
            r < NANOS_PER_SEC,
    {
        proof {
            use_type_invariant(self);
        }
        self.nanos
    }

    /// Whether this span is strictly longer than `limit`.
    pub fn exceeds(&self, limit: &TimeSpan) -> (r: bool)
        ensures
            r == (self.total_nanos() > limit.total_nanos()),
    {
        proof {
            use_type_invariant(self);
            use_type_invariant(limit);
        }
        self.secs > limit.secs || (self.secs == limit.secs && self.nanos > limit.nanos)
    }
}

} // verus!
