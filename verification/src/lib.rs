//! Temporal kernels over integer epoch counts.
//!
//! Instants are signed 64-bit counts of milliseconds, microseconds or
//! nanoseconds since the Unix epoch; dates are counts of days. On these the
//! crate provides calendar-aware durations ([`duration`]), windows with
//! truncation and rounding ([`window`]), ranges of instants ([`range`]),
//! truncation and rounding of whole columns ([`round`], [`truncate`],
//! [`snap`]), and conversions between time zones ([`cast_timezone`],
//! [`replace_time_zone`]). The functions on series ([`temporal`],
//! [`range_expr`], [`offset`], [`combine`], [`construct`]) put these
//! together for columns tagged with a temporal type.
//!
//! The calendar and the rules of named time zones come from `chrono` and
//! `chrono-tz`; see [`calendar`] and [`timezone`] for the few calls that
//! are taken on trust. Everything else is verified: each function states in
//! its contract what it returns, and on which inputs it fails with which
//! error.

pub mod arith;
pub mod business_days;
pub mod cache;
pub mod calendar;
pub mod cast_timezone;
pub mod column;
pub mod combine;
pub mod construct;
pub mod duration;
pub mod error;
pub mod offset;
pub mod plan;
pub mod range;
pub mod range_expr;
pub mod replace_time_zone;
pub mod rolling;
pub mod round;
pub mod series;
pub mod snap;
pub mod strip;
pub mod temporal;
pub mod text;
pub mod timezone;
pub mod truncate;
pub mod units;
pub mod window;
