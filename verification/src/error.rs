//! The ways in which a conversion or a clock comparison can fail.
//!
//! An error made of a failure of std carries std's message for it. No spec
//! function names that message, so the contract of each `from` stands in its own
//! clause and says which kind of error comes out.

use std::num::{ParseFloatError, ParseIntError, TryFromIntError};
use vstd::prelude::*;
use vstd::std_specs::convert::FromSpecImpl;
use vstd::string::*;

verus! {

/// `std::num::ParseIntError`: std's error of a text that is no integer. The
/// verifier carries a value of it through and sees nothing inside.
#[verifier::external_type_specification]
#[verifier::external_body]
pub struct ExParseIntError(ParseIntError);

/// `std::num::ParseFloatError`: std's error of a text that is no decimal
/// fraction. The verifier carries a value of it through and sees nothing inside.
#[verifier::external_type_specification]
#[verifier::external_body]
pub struct ExParseFloatError(ParseFloatError);

/// Why an operation of this library failed.
#[derive(Debug, Clone, PartialEq, Eq)]
pub enum Error {
    /// A text was neither a number nor a calendar date; the parser's message.
    Parse(String),
    /// The instant lies outside what the calendar type can hold.
    CalendarConversion,
    /// A number did not fit the type or range it was converted to; the cause.
    RangeConversion(String),
    /// A wall-clock comparison found the later instant before the earlier one.
    ClockWentBackward,
}

/// Whether `r` is the refusal of a number out of range, with `reason` as its
/// cause.
pub open spec fn refused_for<T>(r: Result<T, Error>, reason: Seq<char>) -> bool {
    r matches Err(Error::RangeConversion(cause)) && cause@ == reason
}

impl Error {
    /// The error of a number out of range, with the cause in words.
    pub(crate) fn out_of_range(reason: &str) -> (e: Error)
        ensures
            e matches Error::RangeConversion(cause) && cause@ == reason@,
    {
        Error::RangeConversion(reason.to_owned())
    }

    /// The text that describes this error, as a sequence of characters.
    pub open spec fn text(self) -> Seq<char> {
        match self {
            Error::Parse(message) => "timestamp parse failed "@ + message@,
            Error::CalendarConversion => "timestamp conversion failed"@,
            Error::RangeConversion(cause) => "timestamp number conversion failed: "@ + cause@,
            Error::ClockWentBackward => "time went backward"@,
        }
    }

    /// Describes this error in words.
    pub fn to_string(&self) -> (r: String)
        ensures
            r@ == self.text(),
    {
        match self {
            Error::Parse(message) => String::from_str("timestamp parse failed ").concat(
                message.as_str(),
            ),
            Error::CalendarConversion => String::from_str("timestamp conversion failed"),
            Error::RangeConversion(cause) => String::from_str(
                "timestamp number conversion failed: ",
            ).concat(cause.as_str()),
            Error::ClockWentBackward => String::from_str("time went backward"),
        }
    }
}

impl From<TryFromIntError> for Error {
    /// A failed conversion between integer types becomes a `RangeConversion` error that
    /// carries std's message.
    fn from(cause: TryFromIntError) -> (e: Error)
        ensures
            e is RangeConversion,
    {
        Error::RangeConversion(cause.to_string())
    }
}

impl FromSpecImpl<TryFromIntError> for Error {
    open spec fn obeys_from_spec() -> bool {
        false
    }

    open spec fn from_spec(cause: TryFromIntError) -> Error {
        Error::RangeConversion(arbitrary())
    }
}

impl From<ParseIntError> for Error {
    /// A failed reading of an integer becomes a `RangeConversion` error that carries
    /// std's message.
    fn from(cause: ParseIntError) -> (e: Error)
        ensures
            e is RangeConversion,
    {
        Error::RangeConversion(cause.to_string())
    }
}

impl FromSpecImpl<ParseIntError> for Error {
    open spec fn obeys_from_spec() -> bool {
        false
    }

    open spec fn from_spec(cause: ParseIntError) -> Error {
        Error::RangeConversion(arbitrary())
    }
}

impl From<ParseFloatError> for Error {
    /// A failed reading of a decimal fraction becomes a `RangeConversion` error that
    /// carries std's message.
    fn from(cause: ParseFloatError) -> (e: Error)
        ensures
            e is RangeConversion,
    {
        Error::RangeConversion(cause.to_string())
    }
}

impl FromSpecImpl<ParseFloatError> for Error {
    open spec fn obeys_from_spec() -> bool {
        false
    }

    open spec fn from_spec(cause: ParseFloatError) -> Error {
        Error::RangeConversion(arbitrary())
    }
}

} // verus!
