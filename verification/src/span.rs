//! The non-negative length of time that both timestamp types are made of.

use crate::duration::{duration_nanos, max_nanos, NANOS_PER_SEC};
use std::time::Duration;
use vstd::prelude::*;

verus! {

/// A non-negative length of time: whole seconds and the nanoseconds below one
/// second.
#[derive(Clone, Copy, Debug, Hash, PartialEq, Eq, Structural, PartialOrd, Ord)]
pub(crate) struct Span {
    secs: u64,
    nanos: u32,
}

impl Span {
    /// The sub-second part stays below one second.
    #[verifier::type_invariant]
    pub(crate) closed spec fn wf(self) -> bool {
        self.nanos < NANOS_PER_SEC
    }

    /// The length in nanoseconds.
    pub(crate) closed spec fn total(self) -> nat {
        (self.secs * 1_000_000_000 + self.nanos) as nat
    }

    /// The span that is `n` nanoseconds long.
    pub(crate) closed spec fn of_total(n: nat) -> Span {
        Span { secs: (n / 1_000_000_000) as u64, nanos: (n % 1_000_000_000) as u32 }
    }

    /// A valid span is no longer than the longest one.
    pub(crate) proof fn lemma_total_bound(self)
        requires
            self.wf(),
        ensures
            self.total() <= max_nanos(),
    {
    }

    /// Every length up to the longest has its span, and that span is valid.
    pub(crate) proof fn lemma_of_total(n: nat)
        requires
            n <= max_nanos(),
        ensures
            Span::of_total(n).wf(),
            Span::of_total(n).total() == n,
    {
    }

    /// Two valid spans of one length are the same span.
    pub(crate) proof fn lemma_total_injective(self, other: Span)
        requires
            self.wf(),
            other.wf(),
        ensures
            self == other <==> self.total() == other.total(),
            self == Span::of_total(self.total()),
    {
    }

    /// The span of `secs` whole seconds.
    pub(crate) fn from_secs(secs: u64) -> (r: Span)
        ensures
            r.total() == secs * 1_000_000_000,
    {
        Span { secs, nanos: 0 }
    }

    /// The span of `millis` milliseconds.
    pub(crate) fn from_millis(millis: u64) -> (r: Span)
        ensures
            r.total() == millis * 1_000_000,
    {
        let sub: u32 = (millis % 1_000) as u32;
        Span { secs: millis / 1_000, nanos: sub * 1_000_000 }
    }

    /// The span of `micros` microseconds.
    pub(crate) fn from_micros(micros: u64) -> (r: Span)
        ensures
            r.total() == micros * 1_000,
    {
        let sub: u32 = (micros % 1_000_000) as u32;
        Span { secs: micros / 1_000_000, nanos: sub * 1_000 }
    }

    /// The span of `nanos` nanoseconds.
    pub(crate) fn from_nanos(nanos: u64) -> (r: Span)
        ensures
            r.total() == nanos,
    {
        Span { secs: nanos / 1_000_000_000, nanos: (nanos % 1_000_000_000) as u32 }
    }

    /// The span of `nanos` nanoseconds, for a count that may be longer than the
    /// longest span; there is none then.
    pub(crate) fn from_wide_nanos(nanos: u128) -> (r: Option<Span>)
        ensures
            r is Some <==> nanos <= max_nanos(),
            r matches Some(span) ==> span.total() == nanos,
    {
        let secs: u128 = nanos / 1_000_000_000;
        if secs <= u64::MAX as u128 {
            Some(Span { secs: secs as u64, nanos: (nanos % 1_000_000_000) as u32 })
        } else {
            None
        }
    }

    /// The whole seconds.
    pub(crate) fn as_secs(self) -> (r: u64)
        ensures
            r == self.total() / 1_000_000_000,
    {
        proof {
            use_type_invariant(&self);
        }
        self.secs
    }

    /// The nanoseconds below one second.
    pub(crate) fn subsec_nanos(self) -> (r: u32)
        ensures
            r == self.total() % 1_000_000_000,
    {
        proof {
            use_type_invariant(&self);
        }
        self.nanos
    }

    /// The whole milliseconds.
    pub(crate) fn as_millis(self) -> (r: u128)
        ensures
            r == self.total() / 1_000_000,
    {
        proof {
            use_type_invariant(&self);
        }
        self.secs as u128 * 1_000 + (self.nanos / 1_000_000) as u128
    }

    /// The whole microseconds.
    pub(crate) fn as_micros(self) -> (r: u128)
        ensures
            r == self.total() / 1_000,
    {
        proof {
            use_type_invariant(&self);
        }
        self.secs as u128 * 1_000_000 + (self.nanos / 1_000) as u128
    }

    /// The length in nanoseconds.
    pub(crate) fn as_nanos(self) -> (r: u128)
        ensures
            r == self.total(),
    {
        proof {
            use_type_invariant(&self);
        }
        self.secs as u128 * 1_000_000_000 + self.nanos as u128
    }

    /// Whether `self` is no longer than `other`.
    pub(crate) fn le(self, other: Span) -> (r: bool)
        ensures
            r == (self.total() <= other.total()),
    {
        proof {
            use_type_invariant(&self);
            use_type_invariant(&other);
        }
        self.secs < other.secs || (self.secs == other.secs && self.nanos <= other.nanos)
    }

    /// The sum of two spans, where it is no longer than the longest span.
    pub(crate) fn checked_add(self, other: Span) -> (r: Option<Span>)
        ensures
            r is Some <==> self.total() + other.total() <= max_nanos(),
            r matches Some(sum) ==> sum.total() == self.total() + other.total(),
    {
        proof {
            use_type_invariant(&self);
            use_type_invariant(&other);
        }
        let sub: u32 = self.nanos + other.nanos;
        let (carry, nanos): (u64, u32) = if sub >= NANOS_PER_SEC {
            (1, sub - NANOS_PER_SEC)
        } else {
            (0, sub)
        };
        match self.secs.checked_add(other.secs) {
            None => None,
            Some(secs) => match secs.checked_add(carry) {
                None => None,
                Some(secs) => Some(Span { secs, nanos }),
            },
        }
    }

    /// The sum of two spans that together are no longer than the longest span.
    pub(crate) fn plus(self, other: Span) -> (r: Span)
        requires
            self.total() + other.total() <= max_nanos(),
        ensures
            r.total() == self.total() + other.total(),
    {
        proof {
            use_type_invariant(&self);
            use_type_invariant(&other);
        }
        let sub: u32 = self.nanos + other.nanos;
        if sub >= NANOS_PER_SEC {
            Span { secs: self.secs + other.secs + 1, nanos: sub - NANOS_PER_SEC }
        } else {
            Span { secs: self.secs + other.secs, nanos: sub }
        }
    }

    /// The difference of two spans, the second of which is no longer than the first.
    pub(crate) fn minus(self, other: Span) -> (r: Span)
        requires
            other.total() <= self.total(),
        ensures
            r.total() == self.total() - other.total(),
    {
        proof {
            use_type_invariant(&self);
            use_type_invariant(&other);
        }
        if self.nanos >= other.nanos {
            Span { secs: self.secs - other.secs, nanos: self.nanos - other.nanos }
        } else {
            Span {
                secs: self.secs - other.secs - 1,
                nanos: self.nanos + NANOS_PER_SEC - other.nanos,
            }
        }
    }

    /// The difference of two spans, where `other` is no longer than `self`.
    pub(crate) fn checked_sub(self, other: Span) -> (r: Option<Span>)
        ensures
            r is Some <==> other.total() <= self.total(),
            r matches Some(diff) ==> diff.total() == self.total() - other.total(),
    {
        if other.le(self) {
            Some(self.minus(other))
        } else {
            None
        }
    }

    /// The distance between two spans, whichever is longer.
    pub(crate) fn abs_diff(self, other: Span) -> (r: Span)
        ensures
            r.total() == if self.total() >= other.total() {
                self.total() - other.total()
            } else {
                other.total() - self.total()
            },
    {
        if other.le(self) {
            self.minus(other)
        } else {
            other.minus(self)
        }
    }

    /// The same length as a `Duration`.
    pub(crate) fn to_duration(self) -> (d: Duration)
        ensures
            duration_nanos(d) == self.total(),
    {
        proof {
            use_type_invariant(&self);
        }
        Duration::new(self.secs, self.nanos)
    }

    /// The length of a `Duration` as a span.
    pub(crate) fn from_duration(d: Duration) -> (r: Span)
        ensures
            r.total() == duration_nanos(d),
    {
        Span { secs: d.as_secs(), nanos: d.subsec_nanos() }
    }
}

} // verus!
