//! Timestamps written as text: a count of nanoseconds in decimal digits, or a
//! calendar date in one of the forms that the `dateparser` crate reads.

use crate::calendar::unix_parts_nanos;
use crate::duration::duration_nanos;
use crate::error::Error;
use crate::monotonic::Monotonic;
use crate::timestamp::Timestamp;
use std::str::FromStr;
use std::time::Duration;
use vstd::prelude::*;
use vstd::string::*;
use vstd::utf8::is_ascii_chars;

verus! {

/// The byte of the character `+` in ASCII.
pub const ASCII_PLUS: u8 = 43;

/// The byte of the character `-` in ASCII.
pub const ASCII_MINUS: u8 = 45;

/// The byte of the digit `0` in ASCII.
pub const ASCII_ZERO: u8 = 48;

/// The byte of the digit `9` in ASCII.
pub const ASCII_NINE: u8 = 57;

/// Whether `c` is one of the ten decimal digits.
pub open spec fn is_digit(c: char) -> bool {
    '0' <= c && c <= '9'
}

/// The number that a decimal digit stands for.
pub open spec fn digit_value(c: char) -> nat {
    (c as u32 - '0' as u32) as nat
}

/// The number that a sequence of decimal digits stands for, the most
/// significant digit first.
pub open spec fn decimal_value(digits: Seq<char>) -> nat
    decreases digits.len(),
{
    if digits.len() == 0 {
        0
    } else {
        decimal_value(digits.drop_last()) * 10 + digit_value(digits.last())
    }
}

/// The digits of a numeral: the text without one leading `+`.
pub open spec fn numeral_digits(text: Seq<char>) -> Seq<char> {
    if text.len() > 0 && text[0] == '+' {
        text.subrange(1, text.len() as int)
    } else {
        text
    }
}

/// Whether `text` is a decimal numeral: at least one digit and nothing else,
/// but for one `+` that may stand in front.
pub open spec fn is_numeral(text: Seq<char>) -> bool {
    let digits = numeral_digits(text);
    digits.len() > 0 && forall|i: int| 0 <= i < digits.len() ==> is_digit(#[trigger] digits[i])
}

/// The number that `text` denotes, where it is a decimal numeral whose value
/// fits 64 bits.
pub open spec fn numeral_u64(text: Seq<char>) -> Option<u64> {
    if is_numeral(text) && decimal_value(numeral_digits(text)) <= u64::MAX {
        Some(decimal_value(numeral_digits(text)) as u64)
    } else {
        None
    }
}

/// A text with a character outside ASCII is no decimal numeral.
proof fn lemma_numeral_is_ascii(text: Seq<char>)
    requires
        is_numeral(text),
    ensures
        is_ascii_chars(text),
{
    let digits = numeral_digits(text);
    assert forall|i: int| 0 <= i < text.len() implies '\0' <= #[trigger] text[i] <= '\u{7f}' by {
        if text[0] == '+' && i > 0 {
            assert(is_digit(digits[i - 1]));
        }
    }
}

/// Digits that follow do not make a number smaller.
proof fn lemma_decimal_value_grows(digits: Seq<char>, len: int)
    requires
        0 <= len <= digits.len(),
    ensures
        decimal_value(digits.subrange(0, len)) <= decimal_value(digits),
    decreases digits.len() - len,
{
    if len == digits.len() {
        assert(digits.subrange(0, len) == digits);
    } else {
        lemma_decimal_value_grows(digits.drop_last(), len);
        assert(digits.drop_last().subrange(0, len) == digits.subrange(0, len));
    }
}

/// Reads a decimal numeral: decimal digits, with one `+` in front or without,
/// whose value fits 64 bits. Any other text is refused.
pub fn parse_numeral(text: &str) -> (r: Result<u64, Error>)
    ensures
        match numeral_u64(text@) {
            Some(value) => r == Ok::<u64, Error>(value),
            None => r matches Err(Error::RangeConversion(_)),
        },
{
    if !text.is_ascii() {
        proof {
            if is_numeral(text@) {
                lemma_numeral_is_ascii(text@);
            }
        }
        return Err(Error::out_of_range("invalid digit found in string"));
    }
    let bytes: &[u8] = text.as_bytes();
    proof {
        is_ascii_spec_bytes(text);
    }
    let len: usize = bytes.len();
    if len == 0 {
        return Err(Error::out_of_range("cannot parse integer from empty string"));
    }
    let start: usize = if bytes[0] == ASCII_PLUS {
        1
    } else {
        0
    };
    let ghost digits = numeral_digits(text@);
    if start == len {
        return Err(Error::out_of_range("invalid digit found in string"));
    }
    let mut value: u64 = 0;
    let mut i: usize = start;
    while i < len
        invariant
            start <= i <= len,
            start < len,
            len == bytes@.len(),
            len == text@.len(),
            is_ascii_chars(text@),
            forall|j: int| 0 <= j < len ==> bytes@[j] == text@[j] as u8,
            digits == text@.subrange(start as int, len as int),
            digits == numeral_digits(text@),
            forall|j: int| 0 <= j < i - start ==> is_digit(#[trigger] digits[j]),
            value == decimal_value(digits.subrange(0, i - start)),
        decreases len - i,
    {
        let byte: u8 = bytes[i];
        if byte < ASCII_ZERO || byte > ASCII_NINE {
            assert(!is_digit(digits[i - start]));
            return Err(Error::out_of_range("invalid digit found in string"));
        }
        let digit: u64 = (byte - ASCII_ZERO) as u64;
        proof {
            let longer = digits.subrange(0, i - start + 1);
            assert(longer.drop_last() == digits.subrange(0, i - start));
            lemma_decimal_value_grows(digits, i - start + 1);
        }
        if value > (u64::MAX - digit) / 10 {
            return Err(Error::out_of_range("number too large to fit in target type"));
        }
        value = value * 10 + digit;
        i = i + 1;
    }
    assert(digits.subrange(0, len - start) == digits);
    Ok(value)
}

/// The decimal digit that stands for a number below ten.
pub open spec fn digit_char(d: nat) -> char {
    (d + '0' as u32) as char
}

/// A number written in decimal digits, without leading zeros.
pub open spec fn decimal_text(n: nat) -> Seq<char>
    decreases n,
{
    if n < 10 {
        seq![digit_char(n)]
    } else {
        decimal_text(n / 10).push(digit_char(n % 10))
    }
}

/// A number written in decimal digits reads as that number.
pub proof fn lemma_decimal_text_is_numeral(n: nat)
    ensures
        is_numeral(decimal_text(n)),
        numeral_digits(decimal_text(n)) == decimal_text(n),
        decimal_value(decimal_text(n)) == n,
        n <= u64::MAX ==> numeral_u64(decimal_text(n)) == Some(n as u64),
    decreases n,
{
    let text = decimal_text(n);
    if n < 10 {
        assert(decimal_value(text.drop_last()) == 0);
    } else {
        lemma_decimal_text_is_numeral(n / 10);
        let front = decimal_text(n / 10);
        assert(text.drop_last() == front);
        assert forall|i: int| 0 <= i < text.len() implies is_digit(#[trigger] text[i]) by {}
    }
}

/// The text of one decimal digit.
fn digit_text(d: u8) -> (s: &'static str)
    requires
        d < 10,
    ensures
        s@ == seq![digit_char(d as nat)],
{
    proof {
        reveal_strlit("0");
        reveal_strlit("1");
        reveal_strlit("2");
        reveal_strlit("3");
        reveal_strlit("4");
        reveal_strlit("5");
        reveal_strlit("6");
        reveal_strlit("7");
        reveal_strlit("8");
        reveal_strlit("9");
    }
    let s: &'static str = if d == 0 {
        "0"
    } else if d == 1 {
        "1"
    } else if d == 2 {
        "2"
    } else if d == 3 {
        "3"
    } else if d == 4 {
        "4"
    } else if d == 5 {
        "5"
    } else if d == 6 {
        "6"
    } else if d == 7 {
        "7"
    } else if d == 8 {
        "8"
    } else {
        "9"
    };
    s
}

/// Writes a number in decimal digits, without leading zeros.
pub fn format_decimal(n: u128) -> (text: String)
    ensures
        text@ == decimal_text(n as nat),
    decreases n,
{
    if n < 10 {
        digit_text(n as u8).to_owned()
    } else {
        let mut text: String = format_decimal(n / 10);
        text.append(digit_text((n % 10) as u8));
        text
    }
}

/// Whether an offset from UTC may begin behind this byte: behind a digit,
/// behind white space, or behind a byte of a character outside ASCII, which may
/// be white space too.
pub open spec fn may_precede_offset(byte: u8) -> bool {
    ||| ASCII_ZERO <= byte <= ASCII_NINE
    ||| 9 <= byte <= 13
    ||| byte == 32
    ||| byte >= 128
}

/// Whether the bytes from index `at` on begin an offset from UTC of a day or
/// more: a sign and two digits that read 24 or more, behind a byte that may
/// precede an offset.
pub open spec fn wide_offset_at(bytes: Seq<u8>, at: int) -> bool {
    &&& 1 <= at
    &&& at + 3 <= bytes.len()
    &&& may_precede_offset(bytes[at - 1])
    &&& (bytes[at] == ASCII_PLUS || bytes[at] == ASCII_MINUS)
    &&& ASCII_ZERO <= bytes[at + 1] <= ASCII_NINE
    &&& ASCII_ZERO <= bytes[at + 2] <= ASCII_NINE
    &&& (bytes[at + 1] - ASCII_ZERO) * 10 + (bytes[at + 2] - ASCII_ZERO) >= 24
}

/// Whether a text ends in an offset from UTC of a day or more, written as the
/// calendar parser reads offsets: a sign and two digits for the hours, then the
/// minutes, in the last five or six bytes.
pub open spec fn ends_in_wide_offset(bytes: Seq<u8>) -> bool {
    wide_offset_at(bytes, bytes.len() - 5) || wide_offset_at(bytes, bytes.len() - 6)
}

/// Whether an offset from UTC of a day or more begins at index `at`.
fn is_wide_offset(bytes: &[u8], at: usize) -> (r: bool)
    requires
        1 <= at,
        at + 3 <= bytes@.len(),
    ensures
        r == wide_offset_at(bytes@, at as int),
{
    let before: u8 = bytes[at - 1];
    let sign: u8 = bytes[at];
    let tens: u8 = bytes[at + 1];
    let ones: u8 = bytes[at + 2];
    let follows: bool = (ASCII_ZERO <= before && before <= ASCII_NINE) || (9 <= before && before
        <= 13) || before == 32 || before >= 128;
    follows && (sign == ASCII_PLUS || sign == ASCII_MINUS) && ASCII_ZERO <= tens && tens
        <= ASCII_NINE && ASCII_ZERO <= ones && ones <= ASCII_NINE && (tens - ASCII_ZERO) * 10 + (
    ones - ASCII_ZERO) >= 24
}

/// Whether `text` ends in an offset from UTC of a day or more.
pub fn has_wide_offset(text: &str) -> (r: bool)
    ensures
        r == ends_in_wide_offset(text.spec_bytes()),
{
    let bytes: &[u8] = text.as_bytes();
    let len: usize = bytes.len();
    (len >= 6 && is_wide_offset(bytes, len - 5)) || (len >= 7 && is_wide_offset(bytes, len - 6))
}

/// `dateparser::parse`: reads a date in one of the many forms the crate knows
/// and gives its instant, or the crate's message where no form fits. The
/// instant is handed on as chrono's `timestamp` and `timestamp_subsec_nanos` of
/// it.
///
/// A text without a time zone is read in the machine's own, and one without a
/// date on today's: so nothing is claimed of the outcome. Where a date or a time
/// of day is followed by an offset from UTC of a day or more, the crate makes a
/// chrono `FixedOffset` of it, which panics: a text that ends so is left out.
#[verifier::external_body]
pub(crate) fn parse_calendar_text(text: &str) -> (r: Result<(i64, u32), String>)
    requires
        !ends_in_wide_offset(text.spec_bytes()),
{
    match dateparser::parse(text) {
        Ok(dt) => Ok((dt.timestamp(), dt.timestamp_subsec_nanos())),
        Err(e) => Err(e.to_string()),
    }
}

/// What the library makes of the calendar parser's answer: the parser's message
/// becomes a `Parse` error, and an instant becomes its timestamp unless it lies
/// before the epoch.
pub open spec fn calendar_outcome(
    parsed: Result<(i64, u32), String>,
    r: Result<Timestamp, Error>,
) -> bool {
    match parsed {
        Err(message) => r == Err::<Timestamp, Error>(Error::Parse(message)),
        Ok(parts) => match unix_parts_nanos(parts.0, parts.1) {
            Some(n) => r == Ok::<Timestamp, Error>(Timestamp::of_nanos(n)),
            None => r matches Err(Error::RangeConversion(_)),
        },
    }
}

/// What reading a text as a calendar date gives. An offset from UTC of a day or
/// more at its end is refused at once. Any other text goes to the calendar
/// parser, and the result is what the library makes of the parser's answer,
/// whatever that is.
pub open spec fn calendar_reading(bytes: Seq<u8>, r: Result<Timestamp, Error>) -> bool {
    if ends_in_wide_offset(bytes) {
        r matches Err(Error::Parse(message)) && message@ == "time zone offset out of range"@
    } else {
        exists|parsed: Result<(i64, u32), String>| calendar_outcome(parsed, r)
    }
}

impl Timestamp {
    /// The timestamp that the calendar parser's answer stands for.
    pub fn from_calendar_parse(parsed: Result<(i64, u32), String>) -> (r: Result<Timestamp, Error>)
        ensures
            calendar_outcome(parsed, r),
    {
        match parsed {
            Ok((secs, nanos)) => Timestamp::from_unix_parts(secs, nanos),
            Err(message) => Err(Error::Parse(message)),
        }
    }

    /// Reads a calendar date in one of the forms that the `dateparser` crate
    /// knows. A text without a time zone is read in the machine's own, and one
    /// without a date on today's.
    pub fn parse_calendar(text: &str) -> (r: Result<Timestamp, Error>)
        ensures
            calendar_reading(text.spec_bytes(), r),
    {
        if has_wide_offset(text) {
            Err(Error::Parse("time zone offset out of range".to_owned()))
        } else {
            let parsed: Result<(i64, u32), String> = parse_calendar_text(text);
            Timestamp::from_calendar_parse(parsed)
        }
    }

    /// Reads a timestamp from text, for a caller that has tried to read the text
    /// as a decimal fraction of seconds and hands in what it found.
    ///
    /// The three readings are tried in a fixed order, and the first that succeeds
    /// wins. A decimal numeral that fits 64 bits is a count of nanoseconds since
    /// the epoch. Else, where `seconds` holds a reading, that is the time since
    /// the epoch. Any other text is a calendar date, as `parse_calendar` reads
    /// it.
    pub fn parse_with_seconds(text: &str, seconds: Option<Duration>) -> (r: Result<
        Timestamp,
        Error,
    >)
        ensures
            match numeral_u64(text@) {
                Some(nanos) => r == Ok::<Timestamp, Error>(Timestamp::of_nanos(nanos as nat)),
                None => match seconds {
                    Some(d) => r == Ok::<Timestamp, Error>(Timestamp::of_nanos(duration_nanos(d))),
                    None => calendar_reading(text.spec_bytes(), r),
                },
            },
    {
        match parse_numeral(text) {
            Ok(nanos) => Ok(Timestamp::from_nanos(nanos)),
            Err(_) => match seconds {
                Some(d) => Ok(Timestamp::from(d)),
                None => Timestamp::parse_calendar(text),
            },
        }
    }

    /// Reads a timestamp from text.
    ///
    /// A decimal numeral that fits 64 bits is a count of nanoseconds since the
    /// epoch. Any other text is a calendar date, as `parse_calendar` reads it.
    pub fn parse(text: &str) -> (r: Result<Timestamp, Error>)
        ensures
            match numeral_u64(text@) {
                Some(nanos) => r == Ok::<Timestamp, Error>(Timestamp::of_nanos(nanos as nat)),
                None => calendar_reading(text.spec_bytes(), r),
            },
    {
        Timestamp::parse_with_seconds(text, None)
    }
}

impl Timestamp {
    /// The nanoseconds since the epoch, written in decimal digits.
    pub fn to_string(&self) -> (text: String)
        ensures
            text@ == decimal_text(self@),
    {
        format_decimal(self.as_nanos())
    }
}

impl Monotonic {
    /// Reads a monotonic timestamp from text: a decimal numeral that fits 64
    /// bits, as a count of nanoseconds since the reference instant. Any other
    /// text is refused.
    pub fn parse(text: &str) -> (r: Result<Monotonic, Error>)
        ensures
            match numeral_u64(text@) {
                Some(nanos) => r == Ok::<Monotonic, Error>(Monotonic::of_nanos(nanos as nat)),
                None => r matches Err(Error::RangeConversion(_)),
            },
    {
        match parse_numeral(text) {
            Ok(nanos) => Ok(Monotonic::from_nanos(nanos)),
            Err(e) => Err(e),
        }
    }

    /// The nanoseconds since the reference instant, written in decimal digits.
    pub fn to_string(&self) -> (text: String)
        ensures
            text@ == decimal_text(self@),
    {
        format_decimal(self.as_nanos())
    }
}

impl FromStr for Monotonic {
    type Err = Error;

    /// Reads a monotonic timestamp from text, as `Monotonic::parse` does.
    fn from_str(text: &str) -> (r: Result<Monotonic, Error>)
        ensures
            match numeral_u64(text@) {
                Some(nanos) => r == Ok::<Monotonic, Error>(Monotonic::of_nanos(nanos as nat)),
                None => r matches Err(Error::RangeConversion(_)),
            },
    {
        Monotonic::parse(text)
    }
}

impl FromStr for Timestamp {
    type Err = Error;

    /// Reads a timestamp from text, as `Timestamp::parse` does.
    fn from_str(text: &str) -> (r: Result<Timestamp, Error>)
        ensures
            match numeral_u64(text@) {
                Some(nanos) => r == Ok::<Timestamp, Error>(Timestamp::of_nanos(nanos as nat)),
                None => calendar_reading(text.spec_bytes(), r),
            },
    {
        Timestamp::parse(text)
    }
}

} // verus!
