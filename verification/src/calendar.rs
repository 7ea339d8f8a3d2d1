//! Timestamps as calendar date-times of the `chrono` crate.
//!
//! A chrono date-time is opaque to the verifier. What the library asks of
//! chrono is named here by the chrono functions that answer it, and the
//! conversions are verified against those names.

use crate::error::Error;
use crate::span::Span;
use crate::timestamp::Timestamp;
use chrono::{DateTime, NaiveDateTime};
use vstd::prelude::*;

verus! {

/// `chrono::NaiveDateTime`: a date and a time of day without a time zone. The
/// verifier carries a value of it through and sees nothing inside.
#[verifier::external_type_specification]
#[verifier::external_body]
pub struct ExNaiveDateTime(NaiveDateTime);

/// The date and time of day, in UTC, of the instant `secs` seconds and `nsecs`
/// nanoseconds after the UNIX epoch, where chrono's calendar reaches that far:
/// what `DateTime::from_timestamp` returns, read through `naive_utc`.
pub uninterp spec fn naive_from_timestamp(secs: i64, nsecs: u32) -> Option<NaiveDateTime>;

/// The nanoseconds from the UNIX epoch to a date and time of day taken as UTC,
/// where chrono can tell them in 64 signed bits: what `timestamp_nanos_opt`
/// returns for it.
pub uninterp spec fn naive_timestamp_nanos_opt(naive: NaiveDateTime) -> Option<i64>;

/// `DateTime::from_timestamp`, and `DateTime::naive_utc` of what it made.
#[verifier::external_body]
pub(crate) fn naive_datetime_from_timestamp(secs: i64, nsecs: u32) -> (r: Option<NaiveDateTime>)
    ensures
        r == naive_from_timestamp(secs, nsecs),
{
    match DateTime::from_timestamp(secs, nsecs) {
        Some(dt) => Some(dt.naive_utc()),
        None => None,
    }
}

/// `NaiveDateTime::and_utc`, and `DateTime::timestamp_nanos_opt` of what it made.
#[verifier::external_body]
pub(crate) fn naive_datetime_timestamp_nanos_opt(naive: &NaiveDateTime) -> (r: Option<i64>)
    ensures
        r == naive_timestamp_nanos_opt(*naive),
{
    naive.and_utc().timestamp_nanos_opt()
}

/// The instant `secs` seconds and `subsec_nanos` nanoseconds after the UNIX
/// epoch, in nanoseconds; none where it lies before the epoch.
pub open spec fn unix_parts_nanos(secs: i64, subsec_nanos: u32) -> Option<nat> {
    if secs >= 0 {
        Some((secs * 1_000_000_000 + subsec_nanos) as nat)
    } else {
        None
    }
}

/// The seconds and nanoseconds that `unix_parts` gives of an instant lead back
/// to that instant through `from_unix_parts`.
pub proof fn lemma_unix_parts_round_trip(nanos: nat)
    requires
        nanos / 1_000_000_000 <= i64::MAX,
    ensures
        unix_parts_nanos((nanos / 1_000_000_000) as i64, (nanos % 1_000_000_000) as u32) == Some(
            nanos,
        ),
{
}

impl Timestamp {
    /// The timestamp of the instant `secs` seconds and `subsec_nanos`
    /// nanoseconds after the UNIX epoch, as a calendar type counts them. An
    /// instant before the epoch is refused.
    ///
    /// `subsec_nanos` may reach past one second, as chrono's does within a leap
    /// second.
    pub fn from_unix_parts(secs: i64, subsec_nanos: u32) -> (r: Result<Timestamp, Error>)
        ensures
            match unix_parts_nanos(secs, subsec_nanos) {
                Some(n) => r == Ok::<Timestamp, Error>(Timestamp::of_nanos(n)),
                None => r matches Err(Error::RangeConversion(_)),
            },
    {
        match u64::try_from(secs) {
            Ok(secs) => {
                let whole: Span = Span::from_secs(secs);
                let part: Span = Span::from_nanos(subsec_nanos as u64);
                Ok(Timestamp::from_span(whole.plus(part)))
            },
            Err(cause) => Err(Error::from(cause)),
        }
    }

    /// The timestamp of a count of nanoseconds since the UNIX epoch that comes
    /// from a calendar date-time: there is none where the calendar could not
    /// tell the count, and a count before the epoch is refused.
    pub fn from_signed_nanos_opt(nanos: Option<i64>) -> (r: Result<Timestamp, Error>)
        ensures
            match nanos {
                None => r == Err::<Timestamp, Error>(Error::CalendarConversion),
                Some(n) => if n >= 0 {
                    r == Ok::<Timestamp, Error>(Timestamp::of_nanos(n as nat))
                } else {
                    r matches Err(Error::RangeConversion(_))
                },
            },
    {
        match nanos {
            None => Err(Error::CalendarConversion),
            Some(n) => Timestamp::try_from(n),
        }
    }

    /// The whole seconds of this instant and the nanoseconds below them, as a
    /// calendar type counts them; refused where the seconds do not fit 64 signed
    /// bits.
    pub fn unix_parts(self) -> (r: Result<(i64, u32), Error>)
        ensures
            self@ / 1_000_000_000 <= i64::MAX ==> r == Ok::<(i64, u32), Error>(
                ((self@ / 1_000_000_000) as i64, (self@ % 1_000_000_000) as u32),
            ),
            self@ / 1_000_000_000 > i64::MAX ==> r matches Err(Error::RangeConversion(_)),
    {
        let span: Span = self.span();
        match i64::try_from(span.as_secs() as u128) {
            Ok(secs) => Ok((secs, span.subsec_nanos())),
            Err(cause) => Err(Error::from(cause)),
        }
    }

    /// This instant as a date and time of day in UTC.
    ///
    /// Fails with `CalendarConversion` where chrono's calendar does not reach the
    /// instant, and with `RangeConversion` where even its seconds do not fit 64 signed
    /// bits.
    pub fn try_into_naivedatetime(self) -> (r: Result<NaiveDateTime, Error>)
        ensures
            self@ / 1_000_000_000 > i64::MAX ==> r matches Err(Error::RangeConversion(_)),
            self@ / 1_000_000_000 <= i64::MAX ==> match naive_from_timestamp(
                (self@ / 1_000_000_000) as i64,
                (self@ % 1_000_000_000) as u32,
            ) {
                Some(naive) => r == Ok::<NaiveDateTime, Error>(naive),
                None => r == Err::<NaiveDateTime, Error>(Error::CalendarConversion),
            },
    {
        let (secs, nanos): (i64, u32) = self.unix_parts()?;
        match naive_datetime_from_timestamp(secs, nanos) {
            Some(naive) => Ok(naive),
            None => Err(Error::CalendarConversion),
        }
    }

    /// The timestamp of a date and time of day, taken as UTC.
    ///
    /// Fails with `CalendarConversion` where chrono cannot tell the instant as a count
    /// of nanoseconds in 64 signed bits, and with `RangeConversion` where it lies before
    /// the UNIX epoch.
    pub fn try_from_naivedatetime(naive: NaiveDateTime) -> (r: Result<Timestamp, Error>)
        ensures
            match naive_timestamp_nanos_opt(naive) {
                None => r == Err::<Timestamp, Error>(Error::CalendarConversion),
                Some(n) => if n >= 0 {
                    r == Ok::<Timestamp, Error>(Timestamp::of_nanos(n as nat))
                } else {
                    r matches Err(Error::RangeConversion(_))
                },
            },
    {
        Timestamp::from_signed_nanos_opt(naive_datetime_timestamp_nanos_opt(&naive))
    }
}

} // verus!
