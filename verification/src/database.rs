//! Timestamps as they stand in a database column.
//!
//! One dialect stores a signed 64-bit count of nanoseconds since the UNIX epoch:
//! that is the conversion to and from `i64`. The other, a timestamp column of a
//! client-server database, stores a signed 64-bit count of microseconds since
//! 2000-01-01T00:00:00Z, and is converted here.

use crate::error::Error;
use crate::timestamp::Timestamp;
use vstd::prelude::*;

verus! {

/// How far 2000-01-01T00:00:00Z lies after the UNIX epoch, in microseconds.
pub const J2000_EPOCH_US: i64 = 946_684_800_000_000;

/// The column value of the instant `nanos` nanoseconds after the UNIX epoch:
/// its whole microseconds, counted from 2000-01-01. There is none where the
/// microseconds since the UNIX epoch do not fit 64 signed bits.
pub open spec fn column_micros(nanos: nat) -> Option<i64> {
    if nanos / 1_000 <= i64::MAX {
        Some((nanos / 1_000 - J2000_EPOCH_US) as i64)
    } else {
        None
    }
}

/// The instant that a column value stands for, in nanoseconds since the UNIX
/// epoch. There is none where the instant lies before that epoch.
pub open spec fn column_instant(micros: i64) -> Option<nat> {
    if micros + J2000_EPOCH_US >= 0 {
        Some(((micros + J2000_EPOCH_US) * 1_000) as nat)
    } else {
        None
    }
}

/// A column value gives back the instant it was made of, cut down to whole
/// microseconds; so an instant of whole microseconds comes back unchanged.
pub proof fn lemma_column_round_trip(nanos: nat)
    ensures
        column_micros(nanos) matches Some(micros) ==> column_instant(micros) == Some(
            (nanos / 1_000 * 1_000) as nat,
        ),
        column_micros(nanos) is Some && nanos % 1_000 == 0 ==> column_instant(
            column_micros(nanos).unwrap(),
        ) == Some(nanos),
{
}

/// The instant read from a column value gives back that value, where the
/// instant fits a column at all.
pub proof fn lemma_instant_round_trip(micros: i64)
    requires
        0 <= micros + J2000_EPOCH_US <= i64::MAX,
    ensures
        column_instant(micros) is Some,
        column_micros(column_instant(micros).unwrap()) == Some(micros),
{
}

impl Timestamp {
    /// The value of this instant in a timestamp column: its whole microseconds,
    /// counted from 2000-01-01. Refused where the microseconds since the UNIX
    /// epoch do not fit 64 signed bits.
    pub fn to_column_micros(self) -> (r: Result<i64, Error>)
        ensures
            match column_micros(self@) {
                Some(micros) => r == Ok::<i64, Error>(micros),
                None => r matches Err(Error::RangeConversion(_)),
            },
    {
        match i64::try_from(self.as_micros()) {
            Ok(micros) => Ok(micros - J2000_EPOCH_US),
            Err(cause) => Err(Error::from(cause)),
        }
    }

    /// The instant that the value of a timestamp column stands for. Refused where
    /// it lies before the UNIX epoch.
    pub fn from_column_micros(micros: i64) -> (r: Result<Timestamp, Error>)
        ensures
            match column_instant(micros) {
                Some(nanos) => r == Ok::<Timestamp, Error>(Timestamp::of_nanos(nanos)),
                None => r matches Err(Error::RangeConversion(_)),
            },
    {
        let since_unix: i128 = micros as i128 + J2000_EPOCH_US as i128;
        match u64::try_from(since_unix) {
            Ok(micros) => Ok(Timestamp::from_micros(micros)),
            Err(cause) => Err(Error::from(cause)),
        }
    }
}

} // verus!
