//! The wall-clock timestamp: a length of time since the UNIX epoch.

use crate::clock::since_unix_epoch;
use crate::duration::{duration_nanos, max_nanos};
use crate::error::{refused_for, Error};
use crate::span::Span;
use std::cmp::Ordering;
use std::time::{Duration, SystemTime};
use vstd::prelude::*;
use vstd::std_specs::cmp::PartialOrdSpec;

verus! {

/// An instant of the wall clock: the time that has passed since
/// 1970-01-01T00:00:00Z, with nanosecond resolution.
///
/// Its model, `t@`, is that time in nanoseconds.
#[derive(Copy, Clone, Debug, Hash, PartialEq, Eq, Structural, Ord)]
pub struct Timestamp(Span);

impl View for Timestamp {
    type V = nat;

    closed spec fn view(&self) -> nat {
        self.0.total()
    }
}

/// How far the ANSI epoch, 1601-01-01T00:00:00Z, lies before the UNIX epoch:
/// 11,644,473,600 seconds, in nanoseconds.
pub const ANSI_EPOCH_DIFF_NANOS: u64 = 11_644_473_600_000_000_000;

/// An instant counted in nanoseconds from the ANSI epoch, counted from the UNIX
/// epoch instead. There is none where the count does not fit 64 bits or the
/// instant lies before 1970.
pub open spec fn ansi_to_unix_nanos(n: nat) -> Option<nat> {
    if ANSI_EPOCH_DIFF_NANOS <= n <= u64::MAX {
        Some((n - ANSI_EPOCH_DIFF_NANOS) as nat)
    } else {
        None
    }
}

/// An instant counted in nanoseconds from the UNIX epoch, counted from the ANSI
/// epoch instead. There is none where the result does not fit 64 bits.
pub open spec fn unix_to_ansi_nanos(n: nat) -> Option<nat> {
    if n + ANSI_EPOCH_DIFF_NANOS <= u64::MAX {
        Some((n + ANSI_EPOCH_DIFF_NANOS) as nat)
    } else {
        None
    }
}

/// The distance between two instants, in nanoseconds, whichever comes first.
pub open spec fn nanos_distance(a: nat, b: nat) -> nat {
    if a >= b {
        (a - b) as nat
    } else {
        (b - a) as nat
    }
}

impl Timestamp {
    /// A valid timestamp keeps its sub-second part below one second, so that
    /// every instant has exactly one representation.
    #[verifier::type_invariant]
    pub closed spec fn wf(self) -> bool {
        self.0.wf()
    }

    /// The timestamp that lies `n` nanoseconds after the epoch.
    pub closed spec fn of_nanos(n: nat) -> Timestamp {
        Timestamp(Span::of_total(n))
    }

    /// A valid timestamp lies no further from the epoch than the longest span.
    pub proof fn lemma_view_bound(self)
        requires
            self.wf(),
        ensures
            self@ <= max_nanos(),
    {
        self.0.lemma_total_bound();
    }

    /// Every instant up to the longest span has a valid timestamp.
    pub proof fn lemma_of_nanos(n: nat)
        requires
            n <= max_nanos(),
        ensures
            Timestamp::of_nanos(n).wf(),
            Timestamp::of_nanos(n)@ == n,
    {
        Span::lemma_of_total(n);
    }

    /// Valid timestamps are equal exactly when they name the same instant.
    pub proof fn lemma_eq_is_same_instant(self, other: Timestamp)
        requires
            self.wf(),
            other.wf(),
        ensures
            self == other <==> self@ == other@,
            self == Timestamp::of_nanos(self@),
    {
        self.0.lemma_total_injective(other.0);
    }

    /// The span from the epoch to this instant.
    pub(crate) fn span(self) -> (r: Span)
        ensures
            r.total() == self@,
    {
        self.0
    }

    /// The instant that lies `span` after the epoch.
    pub(crate) fn from_span(span: Span) -> (r: Timestamp)
        ensures
            r.wf(),
            r@ == span.total(),
            r == Timestamp::of_nanos(span.total()),
    {
        proof {
            use_type_invariant(&span);
            span.lemma_total_injective(span);
        }
        Timestamp(span)
    }

    /// What `from_secs` returns.
    pub open spec fn spec_from_secs(secs: u64) -> Timestamp {
        Timestamp::of_nanos((secs * 1_000_000_000) as nat)
    }

    /// The timestamp `secs` whole seconds after the epoch.
    #[verifier::when_used_as_spec(spec_from_secs)]
    pub fn from_secs(secs: u64) -> (r: Timestamp)
        ensures
            r == Timestamp::spec_from_secs(secs),
            r@ == secs * 1_000_000_000,
    {
        Timestamp::from_span(Span::from_secs(secs))
    }

    /// What `from_millis` returns.
    pub open spec fn spec_from_millis(millis: u64) -> Timestamp {
        Timestamp::of_nanos((millis * 1_000_000) as nat)
    }

    /// The timestamp `millis` milliseconds after the epoch.
    #[verifier::when_used_as_spec(spec_from_millis)]
    pub fn from_millis(millis: u64) -> (r: Timestamp)
        ensures
            r == Timestamp::spec_from_millis(millis),
            r@ == millis * 1_000_000,
    {
        Timestamp::from_span(Span::from_millis(millis))
    }

    /// What `from_micros` returns.
    pub open spec fn spec_from_micros(micros: u64) -> Timestamp {
        Timestamp::of_nanos((micros * 1_000) as nat)
    }

    /// The timestamp `micros` microseconds after the epoch.
    #[verifier::when_used_as_spec(spec_from_micros)]
    pub fn from_micros(micros: u64) -> (r: Timestamp)
        ensures
            r == Timestamp::spec_from_micros(micros),
            r@ == micros * 1_000,
    {
        Timestamp::from_span(Span::from_micros(micros))
    }

    /// What `from_nanos` returns.
    pub open spec fn spec_from_nanos(nanos: u64) -> Timestamp {
        Timestamp::of_nanos(nanos as nat)
    }

    /// The timestamp `nanos` nanoseconds after the epoch.
    #[verifier::when_used_as_spec(spec_from_nanos)]
    pub fn from_nanos(nanos: u64) -> (r: Timestamp)
        ensures
            r == Timestamp::spec_from_nanos(nanos),
            r@ == nanos,
    {
        Timestamp::from_span(Span::from_nanos(nanos))
    }

    /// The timestamp `secs` seconds and `nanos` nanoseconds after the epoch.
    /// `nanos` may hold whole seconds too. An instant beyond the longest span is
    /// refused.
    pub fn from_secs_and_nanos(secs: u64, nanos: u32) -> (r: Result<Timestamp, Error>)
        ensures
            secs * 1_000_000_000 + nanos <= max_nanos() ==> r == Ok::<Timestamp, Error>(
                Timestamp::of_nanos((secs * 1_000_000_000 + nanos) as nat),
            ),
            secs * 1_000_000_000 + nanos > max_nanos() ==> refused_for(
                r,
                "Failed to add the nanoseconds: out of range"@,
            ),
    {
        match Span::from_secs(secs).checked_add(Span::from_nanos(nanos as u64)) {
            Some(span) => Ok(Timestamp::from_span(span)),
            None => Err(Error::out_of_range("Failed to add the nanoseconds: out of range")),
        }
    }

    /// What `as_secs` returns.
    pub open spec fn spec_as_secs(self) -> u64 {
        (self@ / 1_000_000_000) as u64
    }

    /// The whole seconds since the epoch; what lies below a second is dropped.
    #[verifier::when_used_as_spec(spec_as_secs)]
    pub fn as_secs(self) -> (r: u64)
        ensures
            r == self.spec_as_secs(),
            r == self@ / 1_000_000_000,
    {
        self.0.as_secs()
    }

    /// What `as_millis` returns.
    pub open spec fn spec_as_millis(self) -> u128 {
        (self@ / 1_000_000) as u128
    }

    /// The whole milliseconds since the epoch; what lies below is dropped.
    #[verifier::when_used_as_spec(spec_as_millis)]
    pub fn as_millis(self) -> (r: u128)
        ensures
            r == self.spec_as_millis(),
            r == self@ / 1_000_000,
    {
        self.0.as_millis()
    }

    /// What `as_micros` returns.
    pub open spec fn spec_as_micros(self) -> u128 {
        (self@ / 1_000) as u128
    }

    /// The whole microseconds since the epoch; what lies below is dropped.
    #[verifier::when_used_as_spec(spec_as_micros)]
    pub fn as_micros(self) -> (r: u128)
        ensures
            r == self.spec_as_micros(),
            r == self@ / 1_000,
    {
        self.0.as_micros()
    }

    /// What `as_nanos` returns.
    pub open spec fn spec_as_nanos(self) -> u128 {
        self@ as u128
    }

    /// The nanoseconds since the epoch.
    #[verifier::when_used_as_spec(spec_as_nanos)]
    pub fn as_nanos(self) -> (r: u128)
        ensures
            r == self.spec_as_nanos(),
            r == self@,
    {
        self.0.as_nanos()
    }

    /// The time since the epoch as a `Duration`.
    pub fn as_duration(self) -> (d: Duration)
        ensures
            duration_nanos(d) == self@,
    {
        self.0.to_duration()
    }

    /// The time between two instants, whichever comes first.
    pub fn abs_diff(self, other: Timestamp) -> (d: Duration)
        ensures
            duration_nanos(d) == nanos_distance(self@, other@),
    {
        self.0.abs_diff(other.0).to_duration()
    }
}

impl Timestamp {
    /// The current time of the system's wall clock.
    ///
    /// A wall clock that is set before the epoch is no usable time source: this
    /// call then panics instead of returning.
    pub fn now() -> (r: Timestamp)
        ensures
            r.wf(),
    {
        let now: SystemTime = SystemTime::now();
        Timestamp::from_span(Span::from_duration(since_unix_epoch(&now)))
    }

    /// The current time of the system's wall clock, cut down to whole seconds.
    pub fn now_rounded() -> (r: Timestamp)
        ensures
            r.wf(),
            r@ % 1_000_000_000 == 0,
    {
        let t: Timestamp = Timestamp::now();
        let r: Timestamp = Timestamp::from_secs(t.as_secs());
        proof {
            use_type_invariant(&r);
        }
        r
    }

    /// The time from `earlier` to `self`, or `ClockWentBackward` where `earlier`
    /// lies after `self`.
    pub fn duration_since(self, earlier: Timestamp) -> (r: Result<Duration, Error>)
        ensures
            match r {
                Ok(d) => earlier@ <= self@ && duration_nanos(d) == self@ - earlier@,
                Err(e) => self@ < earlier@ && e == Error::ClockWentBackward,
            },
    {
        match self.0.checked_sub(earlier.0) {
            Some(span) => Ok(span.to_duration()),
            None => Err(Error::ClockWentBackward),
        }
    }

    /// The time from `self` to now, or `ClockWentBackward` where the wall clock
    /// reads less than `self`, as it may after having been set back.
    pub fn elapsed(self) -> (r: Result<Duration, Error>)
        ensures
            exists|now: Timestamp|
                now.wf() && match r {
                    Ok(d) => self@ <= now@ && duration_nanos(d) == now@ - self@,
                    Err(e) => now@ < self@ && e == Error::ClockWentBackward,
                },
    {
        let now: Timestamp = Timestamp::now();
        now.duration_since(self)
    }
}

impl Timestamp {
    /// Reads a count of nanoseconds since the ANSI epoch (1601-01-01) as an
    /// instant and gives the timestamp of that instant.
    ///
    /// The count is in nanoseconds: a Windows file time, which counts units of
    /// 100 nanoseconds, is multiplied by 100 before it comes here.
    pub fn try_from_ansi_to_unix(self) -> (r: Result<Timestamp, Error>)
        ensures
            match ansi_to_unix_nanos(self@) {
                Some(n) => r == Ok::<Timestamp, Error>(Timestamp::of_nanos(n)),
                None => r matches Err(Error::RangeConversion(_)),
            },
            self@ <= u64::MAX && self@ < ANSI_EPOCH_DIFF_NANOS ==> refused_for(
                r,
                "Failed to convert from ANSI to UNIX"@,
            ),
    {
        let nanos: u64 = match u64::try_from(self.as_nanos()) {
            Ok(nanos) => nanos,
            Err(cause) => {
                return Err(Error::from(cause));
            },
        };
        match nanos.checked_sub(ANSI_EPOCH_DIFF_NANOS) {
            Some(unix) => Ok(Timestamp::from_nanos(unix)),
            None => Err(Error::out_of_range("Failed to convert from ANSI to UNIX")),
        }
    }

    /// Gives the count of nanoseconds since the ANSI epoch (1601-01-01) of this
    /// instant, held in a timestamp.
    ///
    /// The count is in nanoseconds: for a Windows file time, divide it by 100.
    pub fn try_from_unix_to_ansi(self) -> (r: Result<Timestamp, Error>)
        ensures
            match unix_to_ansi_nanos(self@) {
                Some(n) => r == Ok::<Timestamp, Error>(Timestamp::of_nanos(n)),
                None => r matches Err(Error::RangeConversion(_)),
            },
            self@ <= u64::MAX && self@ + ANSI_EPOCH_DIFF_NANOS > u64::MAX ==> refused_for(
                r,
                "Failed to convert from UNIX to ANSI"@,
            ),
    {
        let nanos: u64 = match u64::try_from(self.as_nanos()) {
            Ok(nanos) => nanos,
            Err(cause) => {
                return Err(Error::from(cause));
            },
        };
        match nanos.checked_add(ANSI_EPOCH_DIFF_NANOS) {
            Some(ansi) => Ok(Timestamp::from_nanos(ansi)),
            None => Err(Error::out_of_range("Failed to convert from UNIX to ANSI")),
        }
    }

    /// The instant `rhs` after `self`, refused where it lies beyond the longest
    /// span.
    pub fn try_add(self, rhs: Duration) -> (r: Result<Timestamp, Error>)
        ensures
            self@ + duration_nanos(rhs) <= max_nanos() ==> r == Ok::<Timestamp, Error>(
                Timestamp::of_nanos(self@ + duration_nanos(rhs)),
            ),
            self@ + duration_nanos(rhs) > max_nanos() ==> refused_for(
                r,
                "Failed to add the duration: out of range"@,
            ),
    {
        match self.0.checked_add(Span::from_duration(rhs)) {
            Some(span) => Ok(Timestamp::from_span(span)),
            None => Err(Error::out_of_range("Failed to add the duration: out of range")),
        }
    }

    /// The instant `rhs` before `self`, refused where it lies before the epoch.
    pub fn try_sub(self, rhs: Duration) -> (r: Result<Timestamp, Error>)
        ensures
            duration_nanos(rhs) <= self@ ==> r == Ok::<Timestamp, Error>(
                Timestamp::of_nanos((self@ - duration_nanos(rhs)) as nat),
            ),
            duration_nanos(rhs) > self@ ==> refused_for(
                r,
                "Failed to subtract the duration: out of range"@,
            ),
    {
        match self.0.checked_sub(Span::from_duration(rhs)) {
            Some(span) => Ok(Timestamp::from_span(span)),
            None => Err(Error::out_of_range("Failed to subtract the duration: out of range")),
        }
    }
}

impl Timestamp {
    /// A count of nanoseconds comes back unchanged.
    pub proof fn lemma_nanos_round_trip(nanos: u64)
        ensures
            Timestamp::from_nanos(nanos).as_nanos() == nanos,
            Timestamp::from_nanos(nanos).wf(),
    {
        Timestamp::lemma_of_nanos(nanos as nat);
    }

    /// A count of seconds, of milliseconds or of microseconds comes back
    /// unchanged through the constructor and the accessor of its unit.
    pub proof fn lemma_unit_round_trip(n: u64)
        ensures
            Timestamp::from_secs(n).as_secs() == n,
            Timestamp::from_millis(n).as_millis() == n,
            Timestamp::from_micros(n).as_micros() == n,
    {
        Timestamp::lemma_of_nanos((n * 1_000_000_000) as nat);
        Timestamp::lemma_of_nanos((n * 1_000_000) as nat);
        Timestamp::lemma_of_nanos((n * 1_000) as nat);
    }

    /// A count in one unit reads in a finer unit as that count scaled up, and in
    /// a coarser one as that count scaled down.
    pub proof fn lemma_unit_scaling(n: u64)
        ensures
            Timestamp::from_micros(n).as_nanos() == n * 1_000,
            Timestamp::from_millis(n).as_nanos() == n * 1_000_000,
            Timestamp::from_secs(n).as_nanos() == n * 1_000_000_000,
            Timestamp::from_millis(n).as_micros() == n * 1_000,
            Timestamp::from_secs(n).as_micros() == n * 1_000_000,
            Timestamp::from_secs(n).as_millis() == n * 1_000,
            Timestamp::from_micros(n).as_millis() == n / 1_000,
            Timestamp::from_micros(n).as_secs() == n / 1_000_000,
            Timestamp::from_millis(n).as_secs() == n / 1_000,
            Timestamp::from_nanos(n).as_micros() == n / 1_000,
            Timestamp::from_nanos(n).as_millis() == n / 1_000_000,
            Timestamp::from_nanos(n).as_secs() == n / 1_000_000_000,
    {
        Timestamp::lemma_of_nanos((n * 1_000_000_000) as nat);
        Timestamp::lemma_of_nanos((n * 1_000_000) as nat);
        Timestamp::lemma_of_nanos((n * 1_000) as nat);
        Timestamp::lemma_of_nanos(n as nat);
    }

    /// The nanoseconds of a valid value lead back to it through `u128`:
    /// `Timestamp::try_from(u128::from(t))` is `Ok(t)`.
    pub proof fn lemma_wide_nanos_round_trip(self)
        requires
            self.wf(),
        ensures
            self@ <= max_nanos(),
            Timestamp::of_nanos(self@) == self,
    {
        self.lemma_view_bound();
        self.lemma_eq_is_same_instant(self);
    }

    /// The order of two values is the order of their nanosecond counts: `a < b`
    /// exactly when `a.as_nanos() < b.as_nanos()`, and likewise for `==` and `>`.
    pub proof fn lemma_order_is_order_of_nanos(self, other: Timestamp)
        requires
            self.wf(),
            other.wf(),
        ensures
            self.partial_cmp_spec(&other) == Some(Ordering::Less) <==> self.as_nanos()
                < other.as_nanos(),
            self.partial_cmp_spec(&other) == Some(Ordering::Equal) <==> self.as_nanos()
                == other.as_nanos(),
            self.partial_cmp_spec(&other) == Some(Ordering::Greater) <==> self.as_nanos()
                > other.as_nanos(),
            self.as_nanos() == self@,
            other.as_nanos() == other@,
    {
        self.lemma_view_bound();
        other.lemma_view_bound();
    }
}

/// The distance between two instants does not depend on their order, and an
/// instant is at distance zero from itself: `a.abs_diff(b)` is `b.abs_diff(a)`,
/// and `a.abs_diff(a)` is zero.
pub proof fn lemma_distance_symmetric(a: nat, b: nat)
    ensures
        nanos_distance(a, b) == nanos_distance(b, a),
        nanos_distance(a, a) == 0,
{
}

/// An instant moved from the UNIX epoch to the ANSI epoch and back is the
/// instant it was, and so is one moved from the ANSI epoch to the UNIX epoch
/// and back.
pub proof fn lemma_ansi_round_trip(n: nat)
    ensures
        unix_to_ansi_nanos(n) matches Some(ansi) ==> ansi_to_unix_nanos(ansi) == Some(n),
        ansi_to_unix_nanos(n) matches Some(unix) ==> unix_to_ansi_nanos(unix) == Some(n),
{
}

impl PartialOrd for Timestamp {
    /// Orders two timestamps by the instants they name.
    fn partial_cmp(&self, other: &Timestamp) -> (r: Option<Ordering>) {
        if self.0.le(other.0) {
            if other.0.le(self.0) {
                Some(Ordering::Equal)
            } else {
                Some(Ordering::Less)
            }
        } else {
            Some(Ordering::Greater)
        }
    }
}

impl vstd::std_specs::cmp::PartialOrdSpecImpl for Timestamp {
    open spec fn obeys_partial_cmp_spec() -> bool {
        true
    }

    open spec fn partial_cmp_spec(&self, other: &Timestamp) -> Option<Ordering> {
        if self@ < other@ {
            Some(Ordering::Less)
        } else if self@ == other@ {
            Some(Ordering::Equal)
        } else {
            Some(Ordering::Greater)
        }
    }
}

} // verus!
