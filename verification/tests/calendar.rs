use bma_ts::{Error, Timestamp};
use chrono::{DateTime, NaiveDate, NaiveDateTime};

fn naive(secs: i64, nanos: u32) -> NaiveDateTime {
    DateTime::from_timestamp(secs, nanos).unwrap().naive_utc()
}

#[test]
fn a_timestamp_becomes_a_date_and_time() {
    let time = Timestamp::from_nanos(1_632_093_707_123_456_789);
    let expected = NaiveDate::from_ymd_opt(2021, 9, 19)
        .unwrap()
        .and_hms_nano_opt(23, 21, 47, 123_456_789)
        .unwrap();
    assert_eq!(time.try_into_naivedatetime(), Ok(expected));
    assert_eq!(
        Timestamp::from_nanos(0).try_into_naivedatetime(),
        Ok(NaiveDate::from_ymd_opt(1970, 1, 1).unwrap().and_hms_opt(0, 0, 0).unwrap())
    );
}

#[test]
fn a_date_and_time_becomes_a_timestamp() {
    let date = NaiveDate::from_ymd_opt(2021, 9, 19)
        .unwrap()
        .and_hms_nano_opt(23, 21, 47, 123_456_789)
        .unwrap();
    assert_eq!(
        Timestamp::try_from_naivedatetime(date),
        Ok(Timestamp::from_nanos(1_632_093_707_123_456_789))
    );
    assert_eq!(Timestamp::try_from_naivedatetime(naive(0, 0)), Ok(Timestamp::from_nanos(0)));
}

#[test]
fn calendar_round_trip() {
    for n in [0u64, 1, 999_999_999, 1_632_093_707_123_456_789, i64::MAX as u64] {
        let time = Timestamp::from_nanos(n);
        let date = time.try_into_naivedatetime().unwrap();
        assert_eq!(date, naive((n / 1_000_000_000) as i64, (n % 1_000_000_000) as u32));
        assert_eq!(Timestamp::try_from_naivedatetime(date), Ok(time));
    }
}

#[test]
fn an_instant_beyond_the_calendar_is_refused() {
    let last = NaiveDateTime::MAX.and_utc().timestamp();
    assert!(Timestamp::from_secs(last as u64).try_into_naivedatetime().is_ok());
    assert_eq!(
        Timestamp::from_secs(last as u64 + 1).try_into_naivedatetime(),
        Err(Error::CalendarConversion)
    );
    assert_eq!(
        Timestamp::from_secs(i64::MAX as u64).try_into_naivedatetime(),
        Err(Error::CalendarConversion)
    );
}

#[test]
fn seconds_beyond_64_signed_bits_are_refused() {
    assert!(matches!(
        Timestamp::from_secs(i64::MAX as u64 + 1).try_into_naivedatetime(),
        Err(Error::RangeConversion(_))
    ));
    assert!(matches!(
        Timestamp::from_secs(u64::MAX).try_into_naivedatetime(),
        Err(Error::RangeConversion(_))
    ));
}

#[test]
fn a_date_before_1970_is_refused() {
    let date = NaiveDate::from_ymd_opt(1969, 12, 31).unwrap().and_hms_opt(23, 59, 59).unwrap();
    assert!(matches!(Timestamp::try_from_naivedatetime(date), Err(Error::RangeConversion(_))));
}

#[test]
fn a_date_whose_nanoseconds_do_not_fit_is_refused() {
    let date = NaiveDate::from_ymd_opt(2262, 4, 11)
        .unwrap()
        .and_hms_nano_opt(23, 47, 16, 854_775_807)
        .unwrap();
    assert_eq!(
        Timestamp::try_from_naivedatetime(date),
        Ok(Timestamp::from_nanos(i64::MAX as u64))
    );
    let date = NaiveDate::from_ymd_opt(2262, 4, 11)
        .unwrap()
        .and_hms_nano_opt(23, 47, 16, 854_775_808)
        .unwrap();
    assert_eq!(Timestamp::try_from_naivedatetime(date), Err(Error::CalendarConversion));
    let date = NaiveDate::from_ymd_opt(1600, 1, 1).unwrap().and_hms_opt(0, 0, 0).unwrap();
    assert_eq!(Timestamp::try_from_naivedatetime(date), Err(Error::CalendarConversion));
    assert_eq!(
        Timestamp::try_from_naivedatetime(NaiveDateTime::MAX),
        Err(Error::CalendarConversion)
    );
}

#[test]
fn unix_parts_of_a_timestamp() {
    assert_eq!(
        Timestamp::from_nanos(1_632_093_707_123_456_789).unix_parts(),
        Ok((1_632_093_707, 123_456_789))
    );
    assert_eq!(Timestamp::from_secs(i64::MAX as u64).unix_parts(), Ok((i64::MAX, 0)));
    assert!(matches!(
        Timestamp::from_secs(i64::MAX as u64 + 1).unix_parts(),
        Err(Error::RangeConversion(_))
    ));
}

#[test]
fn a_timestamp_from_unix_parts() {
    assert_eq!(
        Timestamp::from_unix_parts(1_632_093_707, 123_456_789),
        Ok(Timestamp::from_nanos(1_632_093_707_123_456_789))
    );
    assert_eq!(
        Timestamp::from_unix_parts(i64::MAX, u32::MAX).unwrap().as_nanos(),
        i64::MAX as u128 * 1_000_000_000 + u32::MAX as u128
    );
    assert!(matches!(Timestamp::from_unix_parts(-1, 999_999_999), Err(Error::RangeConversion(_))));
}

#[test]
fn a_leap_second_carries_into_the_seconds() {
    let leap = NaiveDate::from_ymd_opt(2016, 12, 31)
        .unwrap()
        .and_hms_nano_opt(23, 59, 59, 1_250_000_000)
        .unwrap();
    assert_eq!(
        Timestamp::from_unix_parts(
            leap.and_utc().timestamp(),
            leap.and_utc().timestamp_subsec_nanos()
        ),
        Ok(Timestamp::from_nanos(1_483_228_800_250_000_000))
    );
    assert_eq!(
        Timestamp::try_from_naivedatetime(leap),
        Ok(Timestamp::from_nanos(1_483_228_800_250_000_000))
    );
}

#[test]
fn a_count_of_nanoseconds_from_a_calendar() {
    assert_eq!(Timestamp::from_signed_nanos_opt(None), Err(Error::CalendarConversion));
    assert_eq!(Timestamp::from_signed_nanos_opt(Some(0)), Ok(Timestamp::from_nanos(0)));
    assert_eq!(
        Timestamp::from_signed_nanos_opt(Some(i64::MAX)),
        Ok(Timestamp::from_nanos(i64::MAX as u64))
    );
    assert!(matches!(Timestamp::from_signed_nanos_opt(Some(-1)), Err(Error::RangeConversion(_))));
}
