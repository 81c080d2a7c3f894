//! Lengths of time, as whole seconds and a fraction in nanoseconds.

use vstd::prelude::*;

verus! {

/// Nanoseconds in one second.
pub const NANOS_PER_SEC: u32 = 1_000_000_000;

/// A length of time.
#[derive(Debug, Clone, Copy, PartialEq, Eq, Structural)]
pub struct Span {
    pub secs: u64,
    pub nanos: u32,
}

impl Span {
    /// The fraction is less than a second.
    pub open spec fn wf(&self) -> bool {
        self.nanos < 1_000_000_000
    }

    /// The whole length in nanoseconds.
    pub open spec fn total_nanos(&self) -> nat {
        (self.secs * 1_000_000_000 + self.nanos) as nat
    }

    /// A length of whole seconds.
    pub fn from_secs(secs: u64) -> (r: Span)
        ensures
            r == (Span { secs, nanos: 0 }),
            r.wf(),
            r.total_nanos() == secs * 1_000_000_000,
    {
        Span { secs, nanos: 0 }
    }

    /// The sum of two lengths, or `None` where the seconds no longer fit.
    pub fn checked_add(self, other: Span) -> (r: Option<Span>)
        requires
            self.wf(),
            other.wf(),
        ensures
            r is Some <==> self.total_nanos() + other.total_nanos() < (u64::MAX as nat + 1)
                * 1_000_000_000,
            r matches Some(sum) ==> sum.wf() && sum.total_nanos() == self.total_nanos()
                + other.total_nanos(),
    {
        let mut nanos: u32 = self.nanos + other.nanos;
        let mut carry: u64 = 0;
        if nanos >= NANOS_PER_SEC {
            nanos = nanos - NANOS_PER_SEC;
            carry = 1;
        }
        if self.secs > u64::MAX - other.secs {
            return None;
        }
        let secs: u64 = self.secs + other.secs;
        if secs > u64::MAX - carry {
            return None;
        }
        Some(Span { secs: secs + carry, nanos })
    }
}

} // verus!
