use bma_ts::{Error, Monotonic};
use std::time::Duration;

#[test]
fn the_monotonic_clock_does_not_run_backward() {
    let mut last = Monotonic::now();
    for _ in 0..1_000 {
        let next = Monotonic::now();
        assert!(next >= last);
        last = next;
    }
}

#[test]
fn monotonic_now_rounded_has_whole_seconds() {
    let before = Monotonic::now();
    let rounded = Monotonic::now_rounded();
    assert_eq!(rounded.as_nanos() % 1_000_000_000, 0);
    assert!(rounded.as_secs() >= before.as_secs());
    assert!(rounded <= Monotonic::now());
}

#[test]
fn monotonic_default_is_now() {
    let before = Monotonic::now();
    let made = Monotonic::default();
    let after = Monotonic::now();
    assert!(before <= made);
    assert!(made <= after);
}

#[test]
fn monotonic_elapsed_grows() {
    let start = Monotonic::now();
    let first = start.elapsed();
    let mut second = start.elapsed();
    while second < first + Duration::from_millis(2) {
        assert!(start.elapsed() >= second);
        second = start.elapsed();
    }
    assert!(second < Duration::from_secs(3_600));
}

#[test]
fn monotonic_elapsed_of_an_instant_ahead_of_the_clock_is_zero() {
    let ahead = Monotonic::from_secs(u64::MAX);
    assert_eq!(ahead.elapsed(), Duration::ZERO);
}

#[test]
fn monotonic_duration_since() {
    let earlier = Monotonic::from_nanos(1_999_999_999);
    let later = Monotonic::from_nanos(3_000_000_000);
    assert_eq!(later.duration_since(earlier), Duration::new(1, 1));
    assert_eq!(later.duration_since(later), Duration::ZERO);
    assert_eq!(later - earlier, Duration::new(1, 1));
    assert_eq!(earlier.duration_since(later), Duration::ZERO);
    assert_eq!(earlier - later, Duration::ZERO);
    assert_eq!(
        Monotonic::from_nanos(0).duration_since(Monotonic::from_secs(u64::MAX)),
        Duration::ZERO
    );
    let start = Monotonic::now();
    let end = Monotonic::now();
    assert_eq!(end.duration_since(start), end.abs_diff(start));
}

#[test]
fn monotonic_arithmetic() {
    let time = Monotonic::from_nanos(1_999_999_999);
    let later = time.try_add(Duration::new(2, 2)).unwrap();
    assert_eq!(later.as_nanos(), 4_000_000_001);
    assert_eq!(time + Duration::new(2, 2), Ok(later));
    assert_eq!(later - Duration::new(2, 2), Ok(time));
    assert_eq!(later.try_sub(Duration::new(4, 1)), Ok(Monotonic::from_nanos(0)));
    assert_eq!(
        later.try_sub(Duration::new(4, 2)),
        Err(Error::RangeConversion("Failed to subtract the duration: out of range".to_string()))
    );
    assert_eq!(
        Monotonic::from(Duration::MAX).try_add(Duration::from_nanos(1)),
        Err(Error::RangeConversion("Failed to add the duration: out of range".to_string()))
    );
}

#[test]
fn monotonic_as_ref_gives_the_value() {
    let time = Monotonic::from_secs(5);
    let same: &Monotonic = time.as_ref();
    assert_eq!(*same, time);
}
