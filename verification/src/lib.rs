//! Wall-clock and monotonic timestamps with nanosecond resolution.
//!
//! [`Timestamp`] is an instant of the wall clock, counted from the UNIX epoch.
//! [`Monotonic`] is an instant of a clock that never runs backward, counted from
//! an instant that the platform chose. Both hold a non-negative length of time,
//! and the contracts of both are stated over one model: the number of
//! nanoseconds since the reference instant, written `t@`.
//!
//! A value converts to and from counts of seconds, milliseconds, microseconds
//! and nanoseconds ([`timestamp`], [`monotonic`], [`convert`]), text ([`text`]),
//! calendar date-times ([`calendar`], [`civil`]) and database columns
//! ([`database`]). A conversion that cannot keep the instant fails with an
//! [`Error`]; none wraps or cuts a number down silently.
//!
//! # What is assumed
//!
//! Everything here is verified but for the calls into std and into outside
//! crates that the verifier cannot see into. Each of them is declared with the
//! contract that is assumed of it, in the module that uses it:
//!
//! - [`duration`]: the two accessors of `std::time::Duration` and its
//!   constructor;
//! - [`clock`]: the readings of the wall clock and of the kernel's monotonic
//!   clock, of which nothing is assumed;
//! - [`error`]: the errors of std's readings of numbers, as types;
//! - [`calendar`] and [`civil`]: the conversions of `chrono` and of `time`
//!   between an instant and a date-time;
//! - [`text`]: the calendar parser of `dateparser`, of whose answer nothing is
//!   assumed.

pub mod calendar;
pub mod civil;
pub mod clock;
pub mod convert;
pub mod database;
pub mod duration;
pub mod error;
pub mod monotonic;
pub mod ops;
mod span;
pub mod text;
pub mod timestamp;

pub use error::Error;
pub use monotonic::Monotonic;
pub use timestamp::Timestamp;
