//! Conversions between the timestamp types and plain counts of nanoseconds, and
//! between them and `Duration`.
//!
//! Where a conversion can fail, the refusal carries the message of std's own
//! integer conversion. No spec function names that message, so the contract of
//! each fallible conversion stands in the clauses of its `try_from`.

use crate::duration::{duration_nanos, max_nanos};
use crate::error::{refused_for, Error};
use crate::monotonic::Monotonic;
use crate::span::Span;
use crate::timestamp::Timestamp;
use std::time::Duration;
use vstd::prelude::*;
use vstd::std_specs::convert::{FromSpecImpl, TryFromSpecImpl};

verus! {

impl From<Duration> for Timestamp {
    /// The instant that lies `value` after the epoch.
    fn from(value: Duration) -> (r: Timestamp) {
        Timestamp::from_span(Span::from_duration(value))
    }
}

impl FromSpecImpl<Duration> for Timestamp {
    open spec fn obeys_from_spec() -> bool {
        true
    }

    open spec fn from_spec(value: Duration) -> Timestamp {
        Timestamp::of_nanos(duration_nanos(value))
    }
}

impl From<Timestamp> for Duration {
    /// The time from the epoch to `value`.
    fn from(value: Timestamp) -> (r: Duration)
        ensures
            duration_nanos(r) == value@,
    {
        value.as_duration()
    }
}

impl FromSpecImpl<Timestamp> for Duration {
    open spec fn obeys_from_spec() -> bool {
        false
    }

    open spec fn from_spec(value: Timestamp) -> Duration {
        arbitrary()
    }
}

impl From<u64> for Timestamp {
    /// The instant `value` nanoseconds after the epoch.
    fn from(value: u64) -> (r: Timestamp) {
        Timestamp::from_nanos(value)
    }
}

impl FromSpecImpl<u64> for Timestamp {
    open spec fn obeys_from_spec() -> bool {
        true
    }

    open spec fn from_spec(value: u64) -> Timestamp {
        Timestamp::of_nanos(value as nat)
    }
}

impl From<Timestamp> for u128 {
    /// The nanoseconds from the epoch to `value`.
    fn from(value: Timestamp) -> (r: u128) {
        value.as_nanos()
    }
}

impl FromSpecImpl<Timestamp> for u128 {
    open spec fn obeys_from_spec() -> bool {
        true
    }

    open spec fn from_spec(value: Timestamp) -> u128 {
        value@ as u128
    }
}

impl TryFrom<i64> for Timestamp {
    type Error = Error;

    /// The instant `value` nanoseconds after the epoch; a negative count is
    /// refused.
    fn try_from(value: i64) -> (r: Result<Timestamp, Error>)
        ensures
            value >= 0 ==> r == Ok::<Timestamp, Error>(Timestamp::of_nanos(value as nat)),
            value < 0 ==> r matches Err(Error::RangeConversion(_)),
    {
        match u64::try_from(value) {
            Ok(nanos) => Ok(Timestamp::from_nanos(nanos)),
            Err(cause) => Err(Error::from(cause)),
        }
    }
}

impl TryFromSpecImpl<i64> for Timestamp {
    open spec fn obeys_try_from_spec() -> bool {
        false
    }

    open spec fn try_from_spec(value: i64) -> Result<Timestamp, Error> {
        if value >= 0 {
            Ok(Timestamp::of_nanos(value as nat))
        } else {
            Err(Error::RangeConversion(arbitrary()))
        }
    }
}

impl TryFrom<u128> for Timestamp {
    type Error = Error;

    /// The instant `value` nanoseconds after the epoch; a count beyond the
    /// longest span is refused.
    fn try_from(value: u128) -> (r: Result<Timestamp, Error>)
        ensures
            value <= max_nanos() ==> r == Ok::<Timestamp, Error>(Timestamp::of_nanos(value as nat)),
            value > max_nanos() ==> refused_for(
                r,
                "Failed to convert the nanoseconds: out of range"@,
            ),
    {
        match Span::from_wide_nanos(value) {
            Some(span) => Ok(Timestamp::from_span(span)),
            None => Err(Error::out_of_range("Failed to convert the nanoseconds: out of range")),
        }
    }
}

impl TryFromSpecImpl<u128> for Timestamp {
    open spec fn obeys_try_from_spec() -> bool {
        false
    }

    open spec fn try_from_spec(value: u128) -> Result<Timestamp, Error> {
        if value <= max_nanos() {
            Ok(Timestamp::of_nanos(value as nat))
        } else {
            Err(Error::RangeConversion(arbitrary()))
        }
    }
}

impl TryFrom<Timestamp> for i64 {
    type Error = Error;

    /// The nanoseconds from the epoch to `value`, refused where they do not
    /// fit 64 signed bits.
    fn try_from(value: Timestamp) -> (r: Result<i64, Error>)
        ensures
            value@ <= i64::MAX ==> r == Ok::<i64, Error>(value@ as i64),
            value@ > i64::MAX ==> r matches Err(Error::RangeConversion(_)),
    {
        match i64::try_from(value.as_nanos()) {
            Ok(nanos) => Ok(nanos),
            Err(cause) => Err(Error::from(cause)),
        }
    }
}

impl TryFromSpecImpl<Timestamp> for i64 {
    open spec fn obeys_try_from_spec() -> bool {
        false
    }

    open spec fn try_from_spec(value: Timestamp) -> Result<i64, Error> {
        if value@ <= i64::MAX {
            Ok(value@ as i64)
        } else {
            Err(Error::RangeConversion(arbitrary()))
        }
    }
}

impl TryFrom<Timestamp> for u64 {
    type Error = Error;

    /// The nanoseconds from the epoch to `value`, refused where they do not
    /// fit 64 bits.
    fn try_from(value: Timestamp) -> (r: Result<u64, Error>)
        ensures
            value@ <= u64::MAX ==> r == Ok::<u64, Error>(value@ as u64),
            value@ > u64::MAX ==> r matches Err(Error::RangeConversion(_)),
    {
        match u64::try_from(value.as_nanos()) {
            Ok(nanos) => Ok(nanos),
            Err(cause) => Err(Error::from(cause)),
        }
    }
}

impl TryFromSpecImpl<Timestamp> for u64 {
    open spec fn obeys_try_from_spec() -> bool {
        false
    }

    open spec fn try_from_spec(value: Timestamp) -> Result<u64, Error> {
        if value@ <= u64::MAX {
            Ok(value@ as u64)
        } else {
            Err(Error::RangeConversion(arbitrary()))
        }
    }
}

impl From<Duration> for Monotonic {
    /// The instant that lies `value` after the reference instant.
    fn from(value: Duration) -> (r: Monotonic) {
        Monotonic::from_span(Span::from_duration(value))
    }
}

impl FromSpecImpl<Duration> for Monotonic {
    open spec fn obeys_from_spec() -> bool {
        true
    }

    open spec fn from_spec(value: Duration) -> Monotonic {
        Monotonic::of_nanos(duration_nanos(value))
    }
}

impl From<Monotonic> for Duration {
    /// The time from the reference instant to `value`.
    fn from(value: Monotonic) -> (r: Duration)
        ensures
            duration_nanos(r) == value@,
    {
        value.as_duration()
    }
}

impl FromSpecImpl<Monotonic> for Duration {
    open spec fn obeys_from_spec() -> bool {
        false
    }

    open spec fn from_spec(value: Monotonic) -> Duration {
        arbitrary()
    }
}

impl From<u64> for Monotonic {
    /// The instant `value` nanoseconds after the reference instant.
    fn from(value: u64) -> (r: Monotonic) {
        Monotonic::from_nanos(value)
    }
}

impl FromSpecImpl<u64> for Monotonic {
    open spec fn obeys_from_spec() -> bool {
        true
    }

    open spec fn from_spec(value: u64) -> Monotonic {
        Monotonic::of_nanos(value as nat)
    }
}

impl From<Monotonic> for u128 {
    /// The nanoseconds from the reference instant to `value`.
    fn from(value: Monotonic) -> (r: u128) {
        value.as_nanos()
    }
}

impl FromSpecImpl<Monotonic> for u128 {
    open spec fn obeys_from_spec() -> bool {
        true
    }

    open spec fn from_spec(value: Monotonic) -> u128 {
        value@ as u128
    }
}

impl TryFrom<i64> for Monotonic {
    type Error = Error;

    /// The instant `value` nanoseconds after the reference instant; a negative count is
    /// refused.
    fn try_from(value: i64) -> (r: Result<Monotonic, Error>)
        ensures
            value >= 0 ==> r == Ok::<Monotonic, Error>(Monotonic::of_nanos(value as nat)),
            value < 0 ==> r matches Err(Error::RangeConversion(_)),
    {
        match u64::try_from(value) {
            Ok(nanos) => Ok(Monotonic::from_nanos(nanos)),
            Err(cause) => Err(Error::from(cause)),
        }
    }
}

impl TryFromSpecImpl<i64> for Monotonic {
    open spec fn obeys_try_from_spec() -> bool {
        false
    }

    open spec fn try_from_spec(value: i64) -> Result<Monotonic, Error> {
        if value >= 0 {
            Ok(Monotonic::of_nanos(value as nat))
        } else {
            Err(Error::RangeConversion(arbitrary()))
        }
    }
}

impl TryFrom<u128> for Monotonic {
    type Error = Error;

    /// The instant `value` nanoseconds after the reference instant; a count beyond the
    /// longest span is refused.
    fn try_from(value: u128) -> (r: Result<Monotonic, Error>)
        ensures
            value <= max_nanos() ==> r == Ok::<Monotonic, Error>(Monotonic::of_nanos(value as nat)),
            value > max_nanos() ==> refused_for(
                r,
                "Failed to convert the nanoseconds: out of range"@,
            ),
    {
        match Span::from_wide_nanos(value) {
            Some(span) => Ok(Monotonic::from_span(span)),
            None => Err(Error::out_of_range("Failed to convert the nanoseconds: out of range")),
        }
    }
}

impl TryFromSpecImpl<u128> for Monotonic {
    open spec fn obeys_try_from_spec() -> bool {
        false
    }

    open spec fn try_from_spec(value: u128) -> Result<Monotonic, Error> {
        if value <= max_nanos() {
            Ok(Monotonic::of_nanos(value as nat))
        } else {
            Err(Error::RangeConversion(arbitrary()))
        }
    }
}

impl TryFrom<Monotonic> for i64 {
    type Error = Error;

    /// The nanoseconds from the reference instant to `value`, refused where they do not
    /// fit 64 signed bits.
    fn try_from(value: Monotonic) -> (r: Result<i64, Error>)
        ensures
            value@ <= i64::MAX ==> r == Ok::<i64, Error>(value@ as i64),
            value@ > i64::MAX ==> r matches Err(Error::RangeConversion(_)),
    {
        match i64::try_from(value.as_nanos()) {
            Ok(nanos) => Ok(nanos),
            Err(cause) => Err(Error::from(cause)),
        }
    }
}

impl TryFromSpecImpl<Monotonic> for i64 {
    open spec fn obeys_try_from_spec() -> bool {
        false
    }

    open spec fn try_from_spec(value: Monotonic) -> Result<i64, Error> {
        if value@ <= i64::MAX {
            Ok(value@ as i64)
        } else {
            Err(Error::RangeConversion(arbitrary()))
        }
    }
}

impl TryFrom<Monotonic> for u64 {
    type Error = Error;

    /// The nanoseconds from the reference instant to `value`, refused where they do not
    /// fit 64 bits.
    fn try_from(value: Monotonic) -> (r: Result<u64, Error>)
        ensures
            value@ <= u64::MAX ==> r == Ok::<u64, Error>(value@ as u64),
            value@ > u64::MAX ==> r matches Err(Error::RangeConversion(_)),
    {
        match u64::try_from(value.as_nanos()) {
            Ok(nanos) => Ok(nanos),
            Err(cause) => Err(Error::from(cause)),
        }
    }
}

impl TryFromSpecImpl<Monotonic> for u64 {
    open spec fn obeys_try_from_spec() -> bool {
        false
    }

    open spec fn try_from_spec(value: Monotonic) -> Result<u64, Error> {
        if value@ <= u64::MAX {
            Ok(value@ as u64)
        } else {
            Err(Error::RangeConversion(arbitrary()))
        }
    }
}

} // verus!
