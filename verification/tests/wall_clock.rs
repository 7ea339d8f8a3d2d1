use bma_ts::{Error, Timestamp};
use std::time::{Duration, SystemTime, UNIX_EPOCH};

#[test]
fn now_follows_the_system_clock() {
    let before = SystemTime::now().duration_since(UNIX_EPOCH).unwrap();
    let now = Timestamp::now();
    let after = SystemTime::now().duration_since(UNIX_EPOCH).unwrap();
    assert!(before <= now.as_duration());
    assert!(now.as_duration() <= after);
    assert!(now.as_secs() > 1_600_000_000);
}

#[test]
fn now_rounded_has_whole_seconds() {
    let before = Timestamp::now();
    let rounded = Timestamp::now_rounded();
    assert_eq!(rounded.as_nanos() % 1_000_000_000, 0);
    assert_eq!(rounded.as_duration().subsec_nanos(), 0);
    assert!(rounded.as_secs() >= before.as_secs());
}

#[test]
fn default_is_now() {
    let before = Timestamp::now();
    let made = Timestamp::default();
    let after = Timestamp::now();
    assert!(before <= made);
    assert!(made <= after);
}

#[test]
fn elapsed_of_a_future_instant_went_backward() {
    let future = Timestamp::now().try_add(Duration::from_secs(1)).unwrap();
    assert_eq!(future.elapsed(), Err(Error::ClockWentBackward));
}

#[test]
fn elapsed_of_a_past_instant() {
    let past = Timestamp::now().try_sub(Duration::from_secs(10)).unwrap();
    let elapsed = past.elapsed().unwrap();
    assert!(elapsed >= Duration::from_secs(10));
    assert!(elapsed < Duration::from_secs(3_600));
    assert!(Timestamp::from_nanos(0).elapsed().unwrap() > Duration::from_secs(1_600_000_000));
}

#[test]
fn duration_since_an_earlier_instant() {
    let earlier = Timestamp::from_nanos(1_500_000_000);
    let later = Timestamp::from_nanos(3_250_000_000);
    assert_eq!(later.duration_since(earlier), Ok(Duration::new(1, 750_000_000)));
    assert_eq!(later.duration_since(later), Ok(Duration::ZERO));
    assert_eq!(earlier.duration_since(later), Err(Error::ClockWentBackward));
    assert_eq!(later - earlier, Ok(Duration::new(1, 750_000_000)));
    assert_eq!(earlier - later, Err(Error::ClockWentBackward));
}

#[test]
fn duration_since_borrows_a_second() {
    let earlier = Timestamp::from_nanos(1_999_999_999);
    let later = Timestamp::from_nanos(3_000_000_000);
    assert_eq!(later.duration_since(earlier), Ok(Duration::new(1, 1)));
}

#[test]
fn ansi_to_unix() {
    let windows_timestamp: u64 = 133_575_013_473_650_000;
    let unix = Timestamp::from_nanos(windows_timestamp * 100).try_from_ansi_to_unix().unwrap();
    assert_eq!(unix.as_nanos(), 1_713_027_747_365_000_000);
}

#[test]
fn unix_to_ansi_and_back() {
    for n in [0u64, 1, 1_713_027_747_365_000_000, u64::MAX - 11_644_473_600_000_000_000] {
        let unix = Timestamp::from_nanos(n);
        let ansi = unix.try_from_unix_to_ansi().unwrap();
        assert_eq!(ansi.as_nanos(), u128::from(n) + 11_644_473_600_000_000_000);
        assert_eq!(ansi.try_from_ansi_to_unix(), Ok(unix));
    }
}

#[test]
fn ansi_before_the_unix_epoch_is_refused() {
    let ansi = Timestamp::from_nanos(11_644_473_600_000_000_000 - 1);
    assert_eq!(
        ansi.try_from_ansi_to_unix(),
        Err(Error::RangeConversion("Failed to convert from ANSI to UNIX".to_string()))
    );
    assert_eq!(
        Timestamp::from_nanos(0).try_from_ansi_to_unix(),
        Err(Error::RangeConversion("Failed to convert from ANSI to UNIX".to_string()))
    );
    let epoch = Timestamp::from_nanos(11_644_473_600_000_000_000);
    assert_eq!(epoch.try_from_ansi_to_unix(), Ok(Timestamp::from_nanos(0)));
}

#[test]
fn unix_to_ansi_beyond_64_bits_is_refused() {
    let unix = Timestamp::from_nanos(u64::MAX - 11_644_473_600_000_000_000 + 1);
    assert_eq!(
        unix.try_from_unix_to_ansi(),
        Err(Error::RangeConversion("Failed to convert from UNIX to ANSI".to_string()))
    );
}

#[test]
fn epoch_conversions_refuse_more_than_64_bits_of_nanos() {
    let far = Timestamp::from_secs(u64::MAX);
    assert!(matches!(far.try_from_ansi_to_unix(), Err(Error::RangeConversion(_))));
    assert!(matches!(far.try_from_unix_to_ansi(), Err(Error::RangeConversion(_))));
    let just_over = Timestamp::from_nanos(u64::MAX).try_add(Duration::from_nanos(1)).unwrap();
    assert!(matches!(just_over.try_from_ansi_to_unix(), Err(Error::RangeConversion(_))));
}

#[test]
fn adding_a_duration() {
    let time = Timestamp::from_nanos(1_999_999_999);
    let later = time.try_add(Duration::new(2, 2)).unwrap();
    assert_eq!(later.as_nanos(), 4_000_000_001);
    assert_eq!(time + Duration::new(2, 2), Ok(later));
    assert_eq!(time + Duration::ZERO, Ok(time));
}

#[test]
fn adding_beyond_the_longest_span_is_refused() {
    let last = Timestamp::from(Duration::MAX);
    assert_eq!(last.try_add(Duration::ZERO), Ok(last));
    assert_eq!(
        last.try_add(Duration::from_nanos(1)),
        Err(Error::RangeConversion("Failed to add the duration: out of range".to_string()))
    );
    assert!(matches!(Timestamp::from_secs(1) + Duration::MAX, Err(Error::RangeConversion(_))));
    let almost = Timestamp::from_secs(u64::MAX);
    assert!(matches!(almost + Duration::from_secs(1), Err(Error::RangeConversion(_))));
    assert_eq!(almost + Duration::from_nanos(999_999_999), Ok(last));
}

#[test]
fn subtracting_a_duration() {
    let time = Timestamp::from_nanos(4_000_000_001);
    let earlier = time.try_sub(Duration::new(2, 2)).unwrap();
    assert_eq!(earlier.as_nanos(), 1_999_999_999);
    assert_eq!(time - Duration::new(2, 2), Ok(earlier));
    assert_eq!(time - Duration::new(4, 1), Ok(Timestamp::from_nanos(0)));
}

#[test]
fn subtracting_past_the_epoch_is_refused() {
    let time = Timestamp::from_nanos(4_000_000_001);
    assert_eq!(
        time.try_sub(Duration::new(4, 2)),
        Err(Error::RangeConversion("Failed to subtract the duration: out of range".to_string()))
    );
    assert!(matches!(time - Duration::MAX, Err(Error::RangeConversion(_))));
}

#[test]
fn as_ref_gives_the_value() {
    let time = Timestamp::from_secs(5);
    let same: &Timestamp = time.as_ref();
    assert_eq!(*same, time);
}
