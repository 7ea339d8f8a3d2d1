//! What this library assumes of `std::time::Duration`.
//!
//! A `Duration` is opaque to the verifier. Its content is named by the two
//! accessors that std documents, and every other contract of the library that
//! takes or returns a `Duration` speaks of it through [`duration_nanos`].

use std::time::Duration;
use vstd::prelude::*;

verus! {

/// Nanoseconds in one second.
pub const NANOS_PER_SEC: u32 = 1_000_000_000;

/// The longest time that a `Duration` or a timestamp can hold, in nanoseconds:
/// `u64::MAX` seconds and 999,999,999 nanoseconds.
pub open spec fn max_nanos() -> nat {
    (u64::MAX * 1_000_000_000 + 999_999_999) as nat
}

/// The whole seconds of a `Duration`: what `Duration::as_secs` returns.
pub uninterp spec fn duration_secs(d: Duration) -> u64;

/// The part of a `Duration` below one second, in nanoseconds: what
/// `Duration::subsec_nanos` returns.
pub uninterp spec fn duration_subsec_nanos(d: Duration) -> u32;

/// The length of a `Duration` in nanoseconds.
pub open spec fn duration_nanos(d: Duration) -> nat {
    (duration_secs(d) * 1_000_000_000 + duration_subsec_nanos(d)) as nat
}

/// `Duration::as_secs`: the whole seconds, without the fractional part.
pub assume_specification[ Duration::as_secs ](d: &Duration) -> (secs: u64)
    ensures
        secs == duration_secs(*d),
;

/// `Duration::subsec_nanos`: the fractional part in nanoseconds, which std
/// documents to be always less than one billion.
pub assume_specification[ Duration::subsec_nanos ](d: &Duration) -> (nanos: u32)
    ensures
        nanos == duration_subsec_nanos(*d),
        nanos < 1_000_000_000,
;

/// `Duration::new`: whole seconds plus nanoseconds, where a billion or more
/// nanoseconds carry over into the seconds. std documents a panic when that carry
/// overflows the seconds, so such arguments are left out.
pub assume_specification[ Duration::new ](secs: u64, nanos: u32) -> (d: Duration)
    requires
        secs + nanos / 1_000_000_000 <= u64::MAX,
    ensures
        duration_secs(d) == secs + nanos / 1_000_000_000,
        duration_subsec_nanos(d) == nanos % 1_000_000_000,
;

} // verus!
