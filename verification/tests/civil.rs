use bma_ts::{Error, Timestamp};
use time::OffsetDateTime;

#[test]
fn a_timestamp_becomes_an_offset_date_time() {
    let time = Timestamp::from_nanos(1_546_300_800_000_000_000);
    let date = time.try_into_offsetdatetime().unwrap();
    assert_eq!(date, OffsetDateTime::from_unix_timestamp(1_546_300_800).unwrap());
    assert_eq!(date.year(), 2019);
    assert_eq!(date.ordinal(), 1);
    assert_eq!(date.unix_timestamp_nanos(), 1_546_300_800_000_000_000);
    assert_eq!(Timestamp::from_nanos(0).try_into_offsetdatetime(), Ok(OffsetDateTime::UNIX_EPOCH));
}

#[test]
fn an_offset_date_time_becomes_a_timestamp() {
    let date = OffsetDateTime::from_unix_timestamp_nanos(1_632_093_707_123_456_789).unwrap();
    assert_eq!(
        Timestamp::try_from_offsetdatetime(date),
        Ok(Timestamp::from_nanos(1_632_093_707_123_456_789))
    );
    assert_eq!(
        Timestamp::try_from_offsetdatetime(OffsetDateTime::UNIX_EPOCH),
        Ok(Timestamp::from_nanos(0))
    );
}

#[test]
fn offset_date_time_round_trip() {
    for n in [0u64, 1, 999_999_999, 1_632_093_707_123_456_789, u64::MAX] {
        let time = Timestamp::from_nanos(n);
        let date = time.try_into_offsetdatetime().unwrap();
        assert_eq!(date.unix_timestamp_nanos(), i128::from(n));
        assert_eq!(Timestamp::try_from_offsetdatetime(date), Ok(time));
    }
}

#[test]
fn an_instant_beyond_the_year_9999_is_refused() {
    let last = Timestamp::from_nanos(0)
        .try_add(std::time::Duration::new(253_402_300_799, 999_999_999))
        .unwrap();
    assert_eq!(last.try_into_offsetdatetime().unwrap().year(), 9999);
    assert_eq!(
        Timestamp::from_secs(253_402_300_800).try_into_offsetdatetime(),
        Err(Error::CalendarConversion)
    );
    assert_eq!(
        Timestamp::from_secs(u64::MAX).try_into_offsetdatetime(),
        Err(Error::CalendarConversion)
    );
}

#[test]
fn a_date_outside_64_bits_of_nanoseconds_is_refused() {
    let before = OffsetDateTime::from_unix_timestamp(-1).unwrap();
    assert!(matches!(Timestamp::try_from_offsetdatetime(before), Err(Error::RangeConversion(_))));
    let late = OffsetDateTime::from_unix_timestamp(18_446_744_074).unwrap();
    assert!(matches!(Timestamp::try_from_offsetdatetime(late), Err(Error::RangeConversion(_))));
    let last = OffsetDateTime::from_unix_timestamp_nanos(i128::from(u64::MAX)).unwrap();
    assert_eq!(Timestamp::try_from_offsetdatetime(last), Ok(Timestamp::from_nanos(u64::MAX)));
}

#[test]
fn a_timestamp_from_signed_nanoseconds() {
    assert_eq!(Timestamp::from_unix_nanos(0), Ok(Timestamp::from_nanos(0)));
    assert_eq!(
        Timestamp::from_unix_nanos(i128::from(u64::MAX)),
        Ok(Timestamp::from_nanos(u64::MAX))
    );
    assert!(matches!(Timestamp::from_unix_nanos(-1), Err(Error::RangeConversion(_))));
    assert!(matches!(
        Timestamp::from_unix_nanos(i128::from(u64::MAX) + 1),
        Err(Error::RangeConversion(_))
    ));
}
