//! The monotonic timestamp: a length of time since an instant that the
//! platform chose, on a clock that never runs backward.

use crate::clock::kernel_monotonic_time;
use crate::duration::{duration_nanos, max_nanos};
use crate::error::{refused_for, Error};
use crate::span::Span;
use crate::timestamp::nanos_distance;
use std::cmp::Ordering;
use std::time::Duration;
use vstd::prelude::*;
use vstd::std_specs::cmp::PartialOrdSpec;

verus! {

/// An instant of the monotonic clock: the time that has passed since a
/// reference instant which the platform chose, with nanosecond resolution.
///
/// Two such values compare in a meaningful way only within one run of one
/// process. The model, `t@`, is the time since the reference instant in
/// nanoseconds.
#[derive(Copy, Clone, Debug, Hash, PartialEq, Eq, Structural, Ord)]
pub struct Monotonic(Span);

impl View for Monotonic {
    type V = nat;

    closed spec fn view(&self) -> nat {
        self.0.total()
    }
}

/// The time from an earlier instant to a later one, in nanoseconds; zero where
/// the one called earlier is the later of the two.
pub open spec fn nanos_since(later: nat, earlier: nat) -> nat {
    if later >= earlier {
        (later - earlier) as nat
    } else {
        0
    }
}

impl Monotonic {
    /// A valid value keeps its sub-second part below one second, so that every
    /// instant has exactly one representation.
    #[verifier::type_invariant]
    pub closed spec fn wf(self) -> bool {
        self.0.wf()
    }

    /// The value that lies `n` nanoseconds after the reference instant.
    pub closed spec fn of_nanos(n: nat) -> Monotonic {
        Monotonic(Span::of_total(n))
    }

    /// A valid value lies no further from the reference instant than the longest
    /// span.
    pub proof fn lemma_view_bound(self)
        requires
            self.wf(),
        ensures
            self@ <= max_nanos(),
    {
        self.0.lemma_total_bound();
    }

    /// Every instant up to the longest span has a valid value.
    pub proof fn lemma_of_nanos(n: nat)
        requires
            n <= max_nanos(),
        ensures
            Monotonic::of_nanos(n).wf(),
            Monotonic::of_nanos(n)@ == n,
    {
        Span::lemma_of_total(n);
    }

    /// Valid values are equal exactly when they name the same instant.
    pub proof fn lemma_eq_is_same_instant(self, other: Monotonic)
        requires
            self.wf(),
            other.wf(),
        ensures
            self == other <==> self@ == other@,
            self == Monotonic::of_nanos(self@),
    {
        self.0.lemma_total_injective(other.0);
    }

    /// The instant that lies `span` after the reference instant.
    pub(crate) fn from_span(span: Span) -> (r: Monotonic)
        ensures
            r.wf(),
            r@ == span.total(),
            r == Monotonic::of_nanos(span.total()),
    {
        proof {
            use_type_invariant(&span);
            span.lemma_total_injective(span);
        }
        Monotonic(span)
    }

    /// What `from_secs` returns.
    pub open spec fn spec_from_secs(secs: u64) -> Monotonic {
        Monotonic::of_nanos((secs * 1_000_000_000) as nat)
    }

    /// The value `secs` whole seconds after the reference instant.
    #[verifier::when_used_as_spec(spec_from_secs)]
    pub fn from_secs(secs: u64) -> (r: Monotonic)
        ensures
            r == Monotonic::spec_from_secs(secs),
            r@ == secs * 1_000_000_000,
    {
        Monotonic::from_span(Span::from_secs(secs))
    }

    /// What `from_millis` returns.
    pub open spec fn spec_from_millis(millis: u64) -> Monotonic {
        Monotonic::of_nanos((millis * 1_000_000) as nat)
    }

    /// The value `millis` milliseconds after the reference instant.
    #[verifier::when_used_as_spec(spec_from_millis)]
    pub fn from_millis(millis: u64) -> (r: Monotonic)
        ensures
            r == Monotonic::spec_from_millis(millis),
            r@ == millis * 1_000_000,
    {
        Monotonic::from_span(Span::from_millis(millis))
    }

    /// What `from_micros` returns.
    pub open spec fn spec_from_micros(micros: u64) -> Monotonic {
        Monotonic::of_nanos((micros * 1_000) as nat)
    }

    /// The value `micros` microseconds after the reference instant.
    #[verifier::when_used_as_spec(spec_from_micros)]
    pub fn from_micros(micros: u64) -> (r: Monotonic)
        ensures
            r == Monotonic::spec_from_micros(micros),
            r@ == micros * 1_000,
    {
        Monotonic::from_span(Span::from_micros(micros))
    }

    /// What `from_nanos` returns.
    pub open spec fn spec_from_nanos(nanos: u64) -> Monotonic {
        Monotonic::of_nanos(nanos as nat)
    }

    /// The value `nanos` nanoseconds after the reference instant.
    #[verifier::when_used_as_spec(spec_from_nanos)]
    pub fn from_nanos(nanos: u64) -> (r: Monotonic)
        ensures
            r == Monotonic::spec_from_nanos(nanos),
            r@ == nanos,
    {
        Monotonic::from_span(Span::from_nanos(nanos))
    }

    /// The value `secs` seconds and `nanos` nanoseconds after the reference instant.
    /// `nanos` may hold whole seconds too. An instant beyond the longest span is
    /// refused.
    pub fn from_secs_and_nanos(secs: u64, nanos: u32) -> (r: Result<Monotonic, Error>)
        ensures
            secs * 1_000_000_000 + nanos <= max_nanos() ==> r == Ok::<Monotonic, Error>(
                Monotonic::of_nanos((secs * 1_000_000_000 + nanos) as nat),
            ),
            secs * 1_000_000_000 + nanos > max_nanos() ==> refused_for(
                r,
                "Failed to add the nanoseconds: out of range"@,
            ),
    {
        match Span::from_secs(secs).checked_add(Span::from_nanos(nanos as u64)) {
            Some(span) => Ok(Monotonic::from_span(span)),
            None => Err(Error::out_of_range("Failed to add the nanoseconds: out of range")),
        }
    }

    /// What `as_secs` returns.
    pub open spec fn spec_as_secs(self) -> u64 {
        (self@ / 1_000_000_000) as u64
    }

    /// The whole seconds since the reference instant; what lies below a second is
    /// dropped.
    #[verifier::when_used_as_spec(spec_as_secs)]
    pub fn as_secs(self) -> (r: u64)
        ensures
            r == self.spec_as_secs(),
            r == self@ / 1_000_000_000,
    {
        self.0.as_secs()
    }

    /// What `as_millis` returns.
    pub open spec fn spec_as_millis(self) -> u128 {
        (self@ / 1_000_000) as u128
    }

    /// The whole milliseconds since the reference instant; what lies below is
    /// dropped.
    #[verifier::when_used_as_spec(spec_as_millis)]
    pub fn as_millis(self) -> (r: u128)
        ensures
            r == self.spec_as_millis(),
            r == self@ / 1_000_000,
    {
        self.0.as_millis()
    }

    /// What `as_micros` returns.
    pub open spec fn spec_as_micros(self) -> u128 {
        (self@ / 1_000) as u128
    }

    /// The whole microseconds since the reference instant; what lies below is
    /// dropped.
    #[verifier::when_used_as_spec(spec_as_micros)]
    pub fn as_micros(self) -> (r: u128)
        ensures
            r == self.spec_as_micros(),
            r == self@ / 1_000,
    {
        self.0.as_micros()
    }

    /// What `as_nanos` returns.
    pub open spec fn spec_as_nanos(self) -> u128 {
        self@ as u128
    }

    /// The nanoseconds since the reference instant.
    #[verifier::when_used_as_spec(spec_as_nanos)]
    pub fn as_nanos(self) -> (r: u128)
        ensures
            r == self.spec_as_nanos(),
            r == self@,
    {
        self.0.as_nanos()
    }

    /// The time since the reference instant as a `Duration`.
    pub fn as_duration(self) -> (d: Duration)
        ensures
            duration_nanos(d) == self@,
    {
        self.0.to_duration()
    }

    /// The time between two instants, whichever comes first.
    pub fn abs_diff(self, other: Monotonic) -> (d: Duration)
        ensures
            duration_nanos(d) == nanos_distance(self@, other@),
    {
        self.0.abs_diff(other.0).to_duration()
    }

    /// The current reading of the kernel's monotonic clock.
    ///
    /// Where the kernel has no such clock the process has no usable time source:
    /// this call then panics instead of returning.
    pub fn now() -> (r: Monotonic)
        ensures
            r.wf(),
    {
        Monotonic::from_span(Span::from_duration(kernel_monotonic_time()))
    }

    /// The current reading of the kernel's monotonic clock, cut down to whole
    /// seconds.
    pub fn now_rounded() -> (r: Monotonic)
        ensures
            r.wf(),
            r@ % 1_000_000_000 == 0,
    {
        let t: Monotonic = Monotonic::now();
        let r: Monotonic = Monotonic::from_secs(t.as_secs());
        proof {
            use_type_invariant(&r);
        }
        r
    }

    /// The time from `earlier` to `self`.
    ///
    /// Of two readings of the clock in one run of the process, the earlier does
    /// not lie after the later. For values that were made otherwise, with
    /// `earlier` after `self`, the result is zero.
    pub fn duration_since(&self, earlier: Monotonic) -> (d: Duration)
        ensures
            duration_nanos(d) == nanos_since(self@, earlier@),
    {
        match self.0.checked_sub(earlier.0) {
            Some(span) => span.to_duration(),
            None => Span::from_secs(0).to_duration(),
        }
    }

    /// The time from `self` to now.
    ///
    /// The clock does not run backward, so a reading of it never lies after now.
    /// For a value that was made otherwise and does, the result is zero.
    pub fn elapsed(&self) -> (d: Duration)
        ensures
            exists|now: Monotonic| now.wf() && duration_nanos(d) == nanos_since(now@, self@),
    {
        let now: Monotonic = Monotonic::now();
        now.duration_since(*self)
    }

    /// The instant `rhs` after `self`, refused where it lies beyond the longest
    /// span.
    pub fn try_add(self, rhs: Duration) -> (r: Result<Monotonic, Error>)
        ensures
            self@ + duration_nanos(rhs) <= max_nanos() ==> r == Ok::<Monotonic, Error>(
                Monotonic::of_nanos(self@ + duration_nanos(rhs)),
            ),
            self@ + duration_nanos(rhs) > max_nanos() ==> refused_for(
                r,
                "Failed to add the duration: out of range"@,
            ),
    {
        match self.0.checked_add(Span::from_duration(rhs)) {
            Some(span) => Ok(Monotonic::from_span(span)),
            None => Err(Error::out_of_range("Failed to add the duration: out of range")),
        }
    }

    /// The instant `rhs` before `self`, refused where it lies before the
    /// reference instant.
    pub fn try_sub(self, rhs: Duration) -> (r: Result<Monotonic, Error>)
        ensures
            duration_nanos(rhs) <= self@ ==> r == Ok::<Monotonic, Error>(
                Monotonic::of_nanos((self@ - duration_nanos(rhs)) as nat),
            ),
            duration_nanos(rhs) > self@ ==> refused_for(
                r,
                "Failed to subtract the duration: out of range"@,
            ),
    {
        match self.0.checked_sub(Span::from_duration(rhs)) {
            Some(span) => Ok(Monotonic::from_span(span)),
            None => Err(Error::out_of_range("Failed to subtract the duration: out of range")),
        }
    }
}

impl Monotonic {
    /// A count of nanoseconds comes back unchanged.
    pub proof fn lemma_nanos_round_trip(nanos: u64)
        ensures
            Monotonic::from_nanos(nanos).as_nanos() == nanos,
            Monotonic::from_nanos(nanos).wf(),
    {
        Monotonic::lemma_of_nanos(nanos as nat);
    }

    /// A count of seconds, of milliseconds or of microseconds comes back
    /// unchanged through the constructor and the accessor of its unit.
    pub proof fn lemma_unit_round_trip(n: u64)
        ensures
            Monotonic::from_secs(n).as_secs() == n,
            Monotonic::from_millis(n).as_millis() == n,
            Monotonic::from_micros(n).as_micros() == n,
    {
        Monotonic::lemma_of_nanos((n * 1_000_000_000) as nat);
        Monotonic::lemma_of_nanos((n * 1_000_000) as nat);
        Monotonic::lemma_of_nanos((n * 1_000) as nat);
    }

    /// A count in one unit reads in a finer unit as that count scaled up, and in
    /// a coarser one as that count scaled down.
    pub proof fn lemma_unit_scaling(n: u64)
        ensures
            Monotonic::from_micros(n).as_nanos() == n * 1_000,
            Monotonic::from_millis(n).as_nanos() == n * 1_000_000,
            Monotonic::from_secs(n).as_nanos() == n * 1_000_000_000,
            Monotonic::from_millis(n).as_micros() == n * 1_000,
            Monotonic::from_secs(n).as_micros() == n * 1_000_000,
            Monotonic::from_secs(n).as_millis() == n * 1_000,
            Monotonic::from_micros(n).as_millis() == n / 1_000,
            Monotonic::from_micros(n).as_secs() == n / 1_000_000,
            Monotonic::from_millis(n).as_secs() == n / 1_000,
            Monotonic::from_nanos(n).as_micros() == n / 1_000,
            Monotonic::from_nanos(n).as_millis() == n / 1_000_000,
            Monotonic::from_nanos(n).as_secs() == n / 1_000_000_000,
    {
        Monotonic::lemma_of_nanos((n * 1_000_000_000) as nat);
        Monotonic::lemma_of_nanos((n * 1_000_000) as nat);
        Monotonic::lemma_of_nanos((n * 1_000) as nat);
        Monotonic::lemma_of_nanos(n as nat);
    }

    /// The nanoseconds of a valid value lead back to it through `u128`:
    /// `Monotonic::try_from(u128::from(t))` is `Ok(t)`.
    pub proof fn lemma_wide_nanos_round_trip(self)
        requires
            self.wf(),
        ensures
            self@ <= max_nanos(),
            Monotonic::of_nanos(self@) == self,
    {
        self.lemma_view_bound();
        self.lemma_eq_is_same_instant(self);
    }

    /// The order of two values is the order of their nanosecond counts: `a < b`
    /// exactly when `a.as_nanos() < b.as_nanos()`, and likewise for `==` and `>`.
    pub proof fn lemma_order_is_order_of_nanos(self, other: Monotonic)
        requires
            self.wf(),
            other.wf(),
        ensures
            self.partial_cmp_spec(&other) == Some(Ordering::Less) <==> self.as_nanos()
                < other.as_nanos(),
            self.partial_cmp_spec(&other) == Some(Ordering::Equal) <==> self.as_nanos()
                == other.as_nanos(),
            self.partial_cmp_spec(&other) == Some(Ordering::Greater) <==> self.as_nanos()
                > other.as_nanos(),
            self.as_nanos() == self@,
            other.as_nanos() == other@,
    {
        self.lemma_view_bound();
        other.lemma_view_bound();
    }
}

impl PartialOrd for Monotonic {
    /// Orders two values by the instants they name.
    fn partial_cmp(&self, other: &Monotonic) -> (r: Option<Ordering>) {
        if self.0.le(other.0) {
            if other.0.le(self.0) {
                Some(Ordering::Equal)
            } else {
                Some(Ordering::Less)
            }
        } else {
            Some(Ordering::Greater)
        }
    }
}

impl vstd::std_specs::cmp::PartialOrdSpecImpl for Monotonic {
    open spec fn obeys_partial_cmp_spec() -> bool {
        true
    }

    open spec fn partial_cmp_spec(&self, other: &Monotonic) -> Option<Ordering> {
        if self@ < other@ {
            Some(Ordering::Less)
        } else if self@ == other@ {
            Some(Ordering::Equal)
        } else {
            Some(Ordering::Greater)
        }
    }
}

} // verus!
