//! The two clocks of the machine.
//!
//! These are the only places where the library reads the time. Nothing is
//! assumed of what a clock returns: every function that samples one is verified
//! for whatever comes back.

use std::time::{Duration, SystemTime, UNIX_EPOCH};
use vstd::prelude::*;

verus! {

/// `std::time::SystemTime`: a reading of the system's wall clock. The verifier
/// carries a value of it through and sees nothing inside.
#[verifier::external_type_specification]
#[verifier::external_body]
pub struct ExSystemTime(SystemTime);

/// `SystemTime::now`: the current reading of the system's wall clock. Nothing is
/// claimed of it.
pub assume_specification[ SystemTime::now ]() -> (now: SystemTime)
;

/// `SystemTime::duration_since`, taken against `UNIX_EPOCH`: the time from the
/// epoch to `now`. A wall clock set before 1970 leaves the process without a
/// usable time source, and this call then panics instead of returning.
#[verifier::external_body]
pub(crate) fn since_unix_epoch(now: &SystemTime) -> (elapsed: Duration) {
    now.duration_since(UNIX_EPOCH).expect("System time is below UNIX EPOCH")
}

/// `nix::time::clock_gettime` on `CLOCK_MONOTONIC`: the kernel's monotonic clock,
/// the seconds and nanoseconds of its `TimeSpec` handed on as the `Duration`
/// that `Duration::new` makes of them. Nothing is claimed of the reading. Where
/// the kernel has no such clock the call panics instead of returning.
#[verifier::external_body]
pub(crate) fn kernel_monotonic_time() -> (elapsed: Duration) {
    let t = nix::time::clock_gettime(nix::time::ClockId::CLOCK_MONOTONIC).unwrap();
    Duration::new(t.tv_sec() as u64, t.tv_nsec() as u32)
}

} // verus!
