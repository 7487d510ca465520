//! Time units and the fixed conversion factors between them.

use vstd::prelude::*;

verus! {

/// The granularity of an epoch count.
#[derive(Clone, Copy, Debug, PartialEq, Eq, Structural)]
pub enum TimeUnit {
    Nanoseconds,
    Microseconds,
    Milliseconds,
}

pub const NS_IN_US: i64 = 1_000;
pub const NS_IN_MS: i64 = 1_000_000;
pub const NS_IN_SECOND: i64 = 1_000_000_000;
pub const NS_IN_MINUTE: i64 = 60_000_000_000;
pub const NS_IN_HOUR: i64 = 3_600_000_000_000;
pub const NS_IN_DAY: i64 = 86_400_000_000_000;
pub const MILLISECONDS_IN_DAY: i64 = 86_400_000;

impl TimeUnit {
    /// Nanoseconds in one tick of this unit.
    pub open spec fn ns_per_tick(self) -> int {
        match self {
            TimeUnit::Nanoseconds => 1,
            TimeUnit::Microseconds => 1_000,
            TimeUnit::Milliseconds => 1_000_000,
        }
    }

    /// Ticks of this unit in one second.
    pub open spec fn ticks_per_second(self) -> int {
        match self {
            TimeUnit::Nanoseconds => 1_000_000_000,
            TimeUnit::Microseconds => 1_000_000,
            TimeUnit::Milliseconds => 1_000,
        }
    }

    /// Ticks of this unit in one civil day of 86 400 seconds.
    pub open spec fn ticks_per_day(self) -> int {
        86_400 * self.ticks_per_second()
    }

    pub fn nanos_per_tick(self) -> (r: i64)
        ensures
            r == self.ns_per_tick(),
    {
        match self {
            TimeUnit::Nanoseconds => 1,
            TimeUnit::Microseconds => NS_IN_US,
            TimeUnit::Milliseconds => NS_IN_MS,
        }
    }

    pub fn per_second(self) -> (r: i64)
        ensures
            r == self.ticks_per_second(),
    {
        match self {
            TimeUnit::Nanoseconds => NS_IN_SECOND,
            TimeUnit::Microseconds => 1_000_000,
            TimeUnit::Milliseconds => 1_000,
        }
    }

    pub fn per_day(self) -> (r: i64)
        ensures
            r == self.ticks_per_day(),
    {
        match self {
            TimeUnit::Nanoseconds => NS_IN_DAY,
            TimeUnit::Microseconds => 86_400_000_000,
            TimeUnit::Milliseconds => MILLISECONDS_IN_DAY,
        }
    }
}

} // verus!
