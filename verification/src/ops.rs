//! The operators `+` and `-` on the timestamp types, and the std traits that
//! need no more than a call: `Default` and `AsRef`.
//!
//! An instant cannot lie before its reference instant nor beyond the longest
//! span, so `+` and `-` with a `Duration` give a `Result`. What they refuse
//! carries a message that no spec function names, and a `Duration` cannot be
//! made in a spec function: so the contract of each operator stands in the
//! clauses of its method.

use crate::duration::{duration_nanos, max_nanos};
use crate::error::{refused_for, Error};
use crate::monotonic::{nanos_since, Monotonic};
use crate::timestamp::Timestamp;
use std::ops::{Add, Sub};
use std::time::Duration;
use vstd::prelude::*;
use vstd::std_specs::ops::{AddSpecImpl, SubSpecImpl};

verus! {

impl Add<Duration> for Timestamp {
    type Output = Result<Timestamp, Error>;

    /// The instant `rhs` after `self`, as `Timestamp::try_add` gives it.
    fn add(self, rhs: Duration) -> (r: Result<Timestamp, Error>)
        ensures
            self@ + duration_nanos(rhs) <= max_nanos() ==> r == Ok::<Timestamp, Error>(
                Timestamp::of_nanos(self@ + duration_nanos(rhs)),
            ),
            self@ + duration_nanos(rhs) > max_nanos() ==> refused_for(
                r,
                "Failed to add the duration: out of range"@,
            ),
    {
        self.try_add(rhs)
    }
}

impl AddSpecImpl<Duration> for Timestamp {
    open spec fn obeys_add_spec() -> bool {
        false
    }

    open spec fn add_req(self, rhs: Duration) -> bool {
        true
    }

    open spec fn add_spec(self, rhs: Duration) -> Result<Timestamp, Error> {
        if self@ + duration_nanos(rhs) <= max_nanos() {
            Ok(Timestamp::of_nanos(self@ + duration_nanos(rhs)))
        } else {
            Err(Error::RangeConversion(arbitrary()))
        }
    }
}

impl Sub<Duration> for Timestamp {
    type Output = Result<Timestamp, Error>;

    /// The instant `rhs` before `self`, as `Timestamp::try_sub` gives it.
    fn sub(self, rhs: Duration) -> (r: Result<Timestamp, Error>)
        ensures
            duration_nanos(rhs) <= self@ ==> r == Ok::<Timestamp, Error>(
                Timestamp::of_nanos((self@ - duration_nanos(rhs)) as nat),
            ),
            duration_nanos(rhs) > self@ ==> refused_for(
                r,
                "Failed to subtract the duration: out of range"@,
            ),
    {
        self.try_sub(rhs)
    }
}

impl SubSpecImpl<Duration> for Timestamp {
    open spec fn obeys_sub_spec() -> bool {
        false
    }

    open spec fn sub_req(self, rhs: Duration) -> bool {
        true
    }

    open spec fn sub_spec(self, rhs: Duration) -> Result<Timestamp, Error> {
        if duration_nanos(rhs) <= self@ {
            Ok(Timestamp::of_nanos((self@ - duration_nanos(rhs)) as nat))
        } else {
            Err(Error::RangeConversion(arbitrary()))
        }
    }
}

impl Sub<Timestamp> for Timestamp {
    type Output = Result<Duration, Error>;

    /// The time from `rhs` to `self`, as `Timestamp::duration_since` gives it.
    fn sub(self, rhs: Timestamp) -> (r: Result<Duration, Error>)
        ensures
            match r {
                Ok(d) => rhs@ <= self@ && duration_nanos(d) == self@ - rhs@,
                Err(e) => self@ < rhs@ && e == Error::ClockWentBackward,
            },
    {
        self.duration_since(rhs)
    }
}

impl SubSpecImpl<Timestamp> for Timestamp {
    open spec fn obeys_sub_spec() -> bool {
        false
    }

    open spec fn sub_req(self, rhs: Timestamp) -> bool {
        true
    }

    open spec fn sub_spec(self, rhs: Timestamp) -> Result<Duration, Error> {
        arbitrary()
    }
}

impl Default for Timestamp {
    /// The current time of the system's wall clock.
    fn default() -> (r: Timestamp)
        ensures
            r.wf(),
    {
        Timestamp::now()
    }
}

impl Add<Duration> for Monotonic {
    type Output = Result<Monotonic, Error>;

    /// The instant `rhs` after `self`, as `Monotonic::try_add` gives it.
    fn add(self, rhs: Duration) -> (r: Result<Monotonic, Error>)
        ensures
            self@ + duration_nanos(rhs) <= max_nanos() ==> r == Ok::<Monotonic, Error>(
                Monotonic::of_nanos(self@ + duration_nanos(rhs)),
            ),
            self@ + duration_nanos(rhs) > max_nanos() ==> refused_for(
                r,
                "Failed to add the duration: out of range"@,
            ),
    {
        self.try_add(rhs)
    }
}

impl AddSpecImpl<Duration> for Monotonic {
    open spec fn obeys_add_spec() -> bool {
        false
    }

    open spec fn add_req(self, rhs: Duration) -> bool {
        true
    }

    open spec fn add_spec(self, rhs: Duration) -> Result<Monotonic, Error> {
        if self@ + duration_nanos(rhs) <= max_nanos() {
            Ok(Monotonic::of_nanos(self@ + duration_nanos(rhs)))
        } else {
            Err(Error::RangeConversion(arbitrary()))
        }
    }
}

impl Sub<Duration> for Monotonic {
    type Output = Result<Monotonic, Error>;

    /// The instant `rhs` before `self`, as `Monotonic::try_sub` gives it.
    fn sub(self, rhs: Duration) -> (r: Result<Monotonic, Error>)
        ensures
            duration_nanos(rhs) <= self@ ==> r == Ok::<Monotonic, Error>(
                Monotonic::of_nanos((self@ - duration_nanos(rhs)) as nat),
            ),
            duration_nanos(rhs) > self@ ==> refused_for(
                r,
                "Failed to subtract the duration: out of range"@,
            ),
    {
        self.try_sub(rhs)
    }
}

impl SubSpecImpl<Duration> for Monotonic {
    open spec fn obeys_sub_spec() -> bool {
        false
    }

    open spec fn sub_req(self, rhs: Duration) -> bool {
        true
    }

    open spec fn sub_spec(self, rhs: Duration) -> Result<Monotonic, Error> {
        if duration_nanos(rhs) <= self@ {
            Ok(Monotonic::of_nanos((self@ - duration_nanos(rhs)) as nat))
        } else {
            Err(Error::RangeConversion(arbitrary()))
        }
    }
}

impl Sub<Monotonic> for Monotonic {
    type Output = Duration;

    /// The time from `rhs` to `self`, as `Monotonic::duration_since` gives it.
    fn sub(self, rhs: Monotonic) -> (d: Duration)
        ensures
            duration_nanos(d) == nanos_since(self@, rhs@),
    {
        self.duration_since(rhs)
    }
}

impl SubSpecImpl<Monotonic> for Monotonic {
    open spec fn obeys_sub_spec() -> bool {
        false
    }

    open spec fn sub_req(self, rhs: Monotonic) -> bool {
        true
    }

    open spec fn sub_spec(self, rhs: Monotonic) -> Duration {
        arbitrary()
    }
}

impl Default for Monotonic {
    /// The current reading of the kernel's monotonic clock.
    fn default() -> (r: Monotonic)
        ensures
            r.wf(),
    {
        Monotonic::now()
    }
}

impl AsRef<Timestamp> for Timestamp {
    /// The timestamp itself.
    fn as_ref(&self) -> (r: &Timestamp)
        ensures
            r == self,
    {
        self
    }
}

impl AsRef<Monotonic> for Monotonic {
    /// The value itself.
    fn as_ref(&self) -> (r: &Monotonic)
        ensures
            r == self,
    {
        self
    }
}

} // verus!
