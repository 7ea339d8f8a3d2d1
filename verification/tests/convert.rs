use bma_ts::{Error, Monotonic, Timestamp};

#[test]
fn from_u64_counts_nanoseconds() {
    assert_eq!(Timestamp::from(1_500_000_000u64), Timestamp::from_nanos(1_500_000_000));
    assert_eq!(Timestamp::from(u64::MAX).as_nanos(), u128::from(u64::MAX));
    assert_eq!(Monotonic::from(7u64).as_nanos(), 7);
    let time: Timestamp = 5u64.into();
    assert_eq!(time.as_nanos(), 5);
}

#[test]
fn into_u128_always_fits() {
    assert_eq!(u128::from(Timestamp::from_nanos(5)), 5);
    assert_eq!(
        u128::from(Timestamp::from_secs(u64::MAX)),
        u128::from(u64::MAX) * 1_000_000_000
    );
    assert_eq!(u128::from(Monotonic::from_millis(5)), 5_000_000);
}

#[test]
fn try_from_i64_refuses_negative_counts() {
    assert_eq!(Timestamp::try_from(0i64), Ok(Timestamp::from_nanos(0)));
    assert_eq!(Timestamp::try_from(i64::MAX).unwrap().as_nanos(), i64::MAX as u128);
    assert!(matches!(Timestamp::try_from(-1i64), Err(Error::RangeConversion(_))));
    assert!(matches!(Timestamp::try_from(i64::MIN), Err(Error::RangeConversion(_))));
    assert_eq!(Monotonic::try_from(12i64), Ok(Monotonic::from_nanos(12)));
    assert!(matches!(Monotonic::try_from(-12i64), Err(Error::RangeConversion(_))));
}

#[test]
fn try_from_u128_refuses_more_than_the_longest_span() {
    assert_eq!(Timestamp::try_from(5u128), Ok(Timestamp::from_nanos(5)));
    assert_eq!(Timestamp::try_from(u128::from(u64::MAX)), Ok(Timestamp::from_nanos(u64::MAX)));
    assert_eq!(
        Timestamp::try_from(u128::from(u64::MAX) + 1).unwrap().as_nanos(),
        u128::from(u64::MAX) + 1
    );
    let longest = u128::from(u64::MAX) * 1_000_000_000 + 999_999_999;
    assert_eq!(Timestamp::try_from(longest), Ok(Timestamp::from(std::time::Duration::MAX)));
    assert_eq!(
        Timestamp::try_from(longest + 1),
        Err(Error::RangeConversion("Failed to convert the nanoseconds: out of range".to_string()))
    );
    assert!(matches!(Monotonic::try_from(u128::MAX), Err(Error::RangeConversion(_))));
    assert_eq!(Monotonic::try_from(9u128), Ok(Monotonic::from_nanos(9)));
}

#[test]
fn nanoseconds_lead_back_through_u128() {
    for time in [
        Timestamp::from_nanos(0),
        Timestamp::from_nanos(u64::MAX),
        Timestamp::from_secs(u64::MAX),
        Timestamp::from(std::time::Duration::MAX),
    ] {
        assert_eq!(Timestamp::try_from(u128::from(time)), Ok(time));
    }
    let mono = Monotonic::from_secs(u64::MAX);
    assert_eq!(Monotonic::try_from(u128::from(mono)), Ok(mono));
}

#[test]
fn try_into_i64_refuses_what_does_not_fit() {
    assert_eq!(
        i64::try_from(Timestamp::from_nanos(1_632_093_707_123_456_789)),
        Ok(1_632_093_707_123_456_789)
    );
    assert_eq!(i64::try_from(Timestamp::from_nanos(i64::MAX as u64)), Ok(i64::MAX));
    assert!(matches!(
        i64::try_from(Timestamp::from_nanos(i64::MAX as u64 + 1)),
        Err(Error::RangeConversion(_))
    ));
    assert!(matches!(
        i64::try_from(Monotonic::from_secs(u64::MAX)),
        Err(Error::RangeConversion(_))
    ));
    assert_eq!(i64::try_from(Monotonic::from_secs(2)), Ok(2_000_000_000));
}

#[test]
fn try_into_u64_refuses_what_does_not_fit() {
    assert_eq!(u64::try_from(Timestamp::from_nanos(u64::MAX)), Ok(u64::MAX));
    assert_eq!(u64::try_from(Timestamp::from_micros(3)), Ok(3_000));
    assert!(matches!(
        u64::try_from(Timestamp::from_secs(u64::MAX)),
        Err(Error::RangeConversion(_))
    ));
    assert!(matches!(
        u64::try_from(Monotonic::from_secs(18_446_744_074)),
        Err(Error::RangeConversion(_))
    ));
    assert_eq!(u64::try_from(Monotonic::from_secs(18_446_744_073)), Ok(18_446_744_073_000_000_000));
}

#[test]
fn a_refused_conversion_carries_the_message_of_std() {
    let cause = u8::try_from(256u32).unwrap_err();
    assert_eq!(Timestamp::try_from(-1i64), Err(Error::RangeConversion(cause.to_string())));
    assert_eq!(Error::from(cause), Error::RangeConversion(cause.to_string()));
    let cause = "x".parse::<u64>().unwrap_err();
    assert_eq!(Error::from(cause.clone()), Error::RangeConversion(cause.to_string()));
    let cause = "x".parse::<f64>().unwrap_err();
    assert_eq!(Error::from(cause.clone()), Error::RangeConversion(cause.to_string()));
}

#[test]
fn errors_describe_themselves() {
    assert_eq!(Error::Parse("no date".to_string()).to_string(), "timestamp parse failed no date");
    assert_eq!(Error::CalendarConversion.to_string(), "timestamp conversion failed");
    assert_eq!(
        Error::RangeConversion("too large".to_string()).to_string(),
        "timestamp number conversion failed: too large"
    );
    assert_eq!(Error::ClockWentBackward.to_string(), "time went backward");
}
