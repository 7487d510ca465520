//! Rounding of temporal columns to the nearest bucket boundary.

use vstd::prelude::*;
use crate::column::{DateColumn, DatetimeColumn, DurationColumn, StringColumn};
use crate::duration::Duration;
use crate::error::TemporalError;
use crate::snap::{flag_after, is_snapped, snap_date, snap_datetime, snap_duration, widened, Snap, TemporalKind};
use crate::timezone::Zone;
use crate::units::TimeUnit;

verus! {

/// Columns whose values can be rounded to the boundaries of a window.
pub trait PolarsRound: Sized {
    /// What `round` returns: `r` is this column rounded by the steps of
    /// `every`, row by row, in the zone `tz`.
    spec fn is_rounded(&self, every: &StringColumn, tz: Option<&Zone>, r: Result<
        Self,
        TemporalError,
    >) -> bool;

    /// Rounds each value to the nearest boundary of the window whose step
    /// the same row of `every` gives; halfway, away from zero. A null value
    /// or a null step gives a null.
    fn round(&self, every: &StringColumn, tz: Option<&Zone>) -> (r: Result<Self, TemporalError>)
        ensures
            self.is_rounded(every, tz, r),
    ;
}

impl PolarsRound for DatetimeColumn {
    open spec fn is_rounded(&self, every: &StringColumn, tz: Option<&Zone>, r: Result<
        Self,
        TemporalError,
    >) -> bool {
        match r {
            Ok(out) => {
                &&& is_snapped(
                    Ok(out.values@),
                    TemporalKind::Datetime,
                    Snap::Round,
                    self.values@,
                    every.values@,
                    Duration::spec_zero(),
                    self.time_unit,
                    tz,
                )
                &&& out.name == self.name
                &&& out.time_unit == self.time_unit
                &&& out.time_zone == self.time_zone
                &&& out.sorted == flag_after(self.sorted, every.values@, Duration::spec_zero(), tz)
            },
            Err(e) => is_snapped(
                Err(e@),
                TemporalKind::Datetime,
                Snap::Round,
                self.values@,
                every.values@,
                Duration::spec_zero(),
                self.time_unit,
                tz,
            ),
        }
    }

    fn round(&self, every: &StringColumn, tz: Option<&Zone>) -> (r: Result<Self, TemporalError>) {
        let offset = Duration::new(0);
        snap_datetime(self, Snap::Round, every, &offset, tz)
    }
}

impl PolarsRound for DateColumn {
    open spec fn is_rounded(&self, every: &StringColumn, tz: Option<&Zone>, r: Result<
        Self,
        TemporalError,
    >) -> bool {
        match r {
            Ok(out) => {
                &&& is_snapped(
                    Ok(widened(out.values@)),
                    TemporalKind::Date,
                    Snap::Round,
                    widened(self.values@),
                    every.values@,
                    Duration::spec_zero(),
                    TimeUnit::Milliseconds,
                    None,
                )
                &&& out.name == self.name
                &&& out.sorted == flag_after(self.sorted, every.values@, Duration::spec_zero(), None)
            },
            Err(e) => is_snapped(
                Err(e@),
                TemporalKind::Date,
                Snap::Round,
                widened(self.values@),
                every.values@,
                Duration::spec_zero(),
                TimeUnit::Milliseconds,
                None,
            ),
        }
    }

    fn round(&self, every: &StringColumn, _tz: Option<&Zone>) -> (r: Result<Self, TemporalError>) {
        let offset = Duration::new(0);
        snap_date(self, Snap::Round, every, &offset)
    }
}

impl PolarsRound for DurationColumn {
    open spec fn is_rounded(&self, every: &StringColumn, tz: Option<&Zone>, r: Result<
        Self,
        TemporalError,
    >) -> bool {
        match r {
            Ok(out) => {
                &&& is_snapped(
                    Ok(out.values@),
                    TemporalKind::Duration,
                    Snap::Round,
                    self.values@,
                    every.values@,
                    Duration::spec_zero(),
                    self.time_unit,
                    None,
                )
                &&& out.name == self.name
                &&& out.time_unit == self.time_unit
                &&& out.sorted == flag_after(self.sorted, every.values@, Duration::spec_zero(), None)
            },
            Err(e) => is_snapped(
                Err(e@),
                TemporalKind::Duration,
                Snap::Round,
                self.values@,
                every.values@,
                Duration::spec_zero(),
                self.time_unit,
                None,
            ),
        }
    }

    fn round(&self, every: &StringColumn, _tz: Option<&Zone>) -> (r: Result<Self, TemporalError>) {
        let offset = Duration::new(0);
        snap_duration(self, Snap::Round, every, &offset)
    }
}

} // verus!
