//! Timestamps as date-times of the `time` crate.

use crate::error::Error;
use crate::timestamp::Timestamp;
use time::error::ComponentRange;
use time::OffsetDateTime;
use vstd::prelude::*;

verus! {

/// `time::OffsetDateTime`: a date-time with its offset from UTC. The verifier
/// carries a value of it through and sees nothing inside.
#[verifier::external_type_specification]
#[verifier::external_body]
pub struct ExOffsetDateTime(OffsetDateTime);

/// `time::error::ComponentRange`: the error of a date-time out of the crate's
/// range. The verifier carries a value of it through and sees nothing inside.
#[verifier::external_type_specification]
#[verifier::external_body]
pub struct ExComponentRange(ComponentRange);

/// The date-time, in UTC, of the instant `nanos` nanoseconds after the UNIX
/// epoch, where the calendar of the `time` crate reaches that far: what
/// `OffsetDateTime::from_unix_timestamp_nanos` returns.
pub uninterp spec fn offset_datetime_from_nanos(nanos: i128) -> Option<OffsetDateTime>;

/// The nanoseconds from the UNIX epoch to a date-time, negative before it: what
/// `OffsetDateTime::unix_timestamp_nanos` returns.
pub uninterp spec fn offset_datetime_nanos(dt: OffsetDateTime) -> i128;

/// `OffsetDateTime::from_unix_timestamp_nanos`: the date-time of an instant, or
/// the error of an instant that the crate's calendar does not hold.
pub assume_specification[ OffsetDateTime::from_unix_timestamp_nanos ](timestamp: i128) -> (r:
    Result<OffsetDateTime, ComponentRange>)
    ensures
        match offset_datetime_from_nanos(timestamp) {
            Some(dt) => r == Ok::<OffsetDateTime, ComponentRange>(dt),
            None => r is Err,
        },
;

/// `OffsetDateTime::unix_timestamp_nanos`: the instant of a date-time.
pub assume_specification[ OffsetDateTime::unix_timestamp_nanos ](dt: OffsetDateTime) -> (nanos:
    i128)
    ensures
        nanos == offset_datetime_nanos(dt),
;

impl Timestamp {
    /// The timestamp `nanos` nanoseconds after the UNIX epoch, for a count that
    /// comes signed and 128 bits wide. A count before the epoch, or one beyond 64
    /// bits, is refused.
    pub fn from_unix_nanos(nanos: i128) -> (r: Result<Timestamp, Error>)
        ensures
            0 <= nanos <= u64::MAX ==> r == Ok::<Timestamp, Error>(
                Timestamp::of_nanos(nanos as nat),
            ),
            !(0 <= nanos <= u64::MAX) ==> r matches Err(Error::RangeConversion(_)),
    {
        match u64::try_from(nanos) {
            Ok(nanos) => Ok(Timestamp::from_nanos(nanos)),
            Err(cause) => Err(Error::from(cause)),
        }
    }

    /// This instant as a date-time of the `time` crate, in UTC. Fails with
    /// `CalendarConversion` where that crate's calendar does not reach the instant.
    pub fn try_into_offsetdatetime(self) -> (r: Result<OffsetDateTime, Error>)
        ensures
            match offset_datetime_from_nanos(self@ as i128) {
                Some(dt) => r == Ok::<OffsetDateTime, Error>(dt),
                None => r == Err::<OffsetDateTime, Error>(Error::CalendarConversion),
            },
    {
        let nanos: u128 = self.as_nanos();
        proof {
            use_type_invariant(&self);
            self.lemma_view_bound();
        }
        match OffsetDateTime::from_unix_timestamp_nanos(nanos as i128) {
            Ok(dt) => Ok(dt),
            Err(_) => Err(Error::CalendarConversion),
        }
    }

    /// The timestamp of a date-time of the `time` crate. One before the UNIX
    /// epoch, or so late that its nanoseconds do not fit 64 bits, is refused.
    pub fn try_from_offsetdatetime(dt: OffsetDateTime) -> (r: Result<Timestamp, Error>)
        ensures
            0 <= offset_datetime_nanos(dt) <= u64::MAX ==> r == Ok::<Timestamp, Error>(
                Timestamp::of_nanos(offset_datetime_nanos(dt) as nat),
            ),
            !(0 <= offset_datetime_nanos(dt) <= u64::MAX) ==> r matches Err(
                Error::RangeConversion(_),
            ),
    {
        Timestamp::from_unix_nanos(dt.unix_timestamp_nanos())
    }
}

} // verus!
