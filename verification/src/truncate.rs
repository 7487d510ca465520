//! Truncation of temporal columns to the start of their buckets.

use vstd::prelude::*;
use vstd::string::*;
use crate::column::{DateColumn, DatetimeColumn, DurationColumn, StringColumn};
use crate::duration::{parse_spec, Duration};
use crate::error::{Failure, Reason, TemporalError};
use crate::snap::{flag_after, is_snapped, snap_date, snap_datetime, snap_duration, widened, Snap, TemporalKind};
use crate::timezone::Zone;
use crate::units::TimeUnit;

verus! {

/// Columns whose values can be cut down to the boundaries of a window.
pub trait PolarsTruncate: Sized {
    /// What `truncate` returns where `offset` denotes the duration `shift`:
    /// `r` is this column truncated by the steps of `every`, row by row, in
    /// the zone `tz`, the buckets shifted by `shift`.
    spec fn is_truncated(
        &self,
        tz: Option<&Zone>,
        every: &StringColumn,
        offset: &str,
        shift: Duration,
        r: Result<Self, TemporalError>,
    ) -> bool;

    /// Cuts each value down to the start of its bucket in the window whose
    /// step the same row of `every` gives and whose offset `offset` gives.
    /// A null value or a null step gives a null. An offset that cannot be
    /// read fails the call, whatever the rows hold.
    fn truncate(&self, tz: Option<&Zone>, every: &StringColumn, offset: &str) -> (r: Result<
        Self,
        TemporalError,
    >)
        ensures
            match parse_spec(offset.spec_bytes()) {
                None => r matches Err(e) && e@ == (Failure {
                    reason: Reason::MalformedDuration,
                    literal: offset@,
                }),
                Some(shift) => self.is_truncated(tz, every, offset, shift, r),
            },
    ;
}

impl PolarsTruncate for DatetimeColumn {
    open spec fn is_truncated(
        &self,
        tz: Option<&Zone>,
        every: &StringColumn,
        offset: &str,
        shift: Duration,
        r: Result<Self, TemporalError>,
    ) -> bool {
        match r {
            Ok(out) => {
                &&& is_snapped(
                    Ok(out.values@),
                    TemporalKind::Datetime,
                    Snap::Truncate,
                    self.values@,
                    every.values@,
                    shift,
                    self.time_unit,
                    tz,
                )
                &&& out.name == self.name
                &&& out.time_unit == self.time_unit
                &&& out.time_zone == self.time_zone
                &&& out.sorted == flag_after(self.sorted, every.values@, shift, tz)
            },
            Err(e) => is_snapped(
                Err(e@),
                TemporalKind::Datetime,
                Snap::Truncate,
                self.values@,
                every.values@,
                shift,
                self.time_unit,
                tz,
            ),
        }
    }

    fn truncate(&self, tz: Option<&Zone>, every: &StringColumn, offset: &str) -> (r: Result<
        Self,
        TemporalError,
    >) {
        match Duration::parse(offset) {
            Err(e) => Err(e),
            Ok(shift) => snap_datetime(self, Snap::Truncate, every, &shift, tz),
        }
    }
}

impl PolarsTruncate for DateColumn {
    open spec fn is_truncated(
        &self,
        tz: Option<&Zone>,
        every: &StringColumn,
        offset: &str,
        shift: Duration,
        r: Result<Self, TemporalError>,
    ) -> bool {
        match r {
            Ok(out) => {
                &&& is_snapped(
                    Ok(widened(out.values@)),
                    TemporalKind::Date,
                    Snap::Truncate,
                    widened(self.values@),
                    every.values@,
                    shift,
                    TimeUnit::Milliseconds,
                    None,
                )
                &&& out.name == self.name
                &&& out.sorted == flag_after(self.sorted, every.values@, shift, None)
            },
            Err(e) => is_snapped(
                Err(e@),
                TemporalKind::Date,
                Snap::Truncate,
                widened(self.values@),
                every.values@,
                shift,
                TimeUnit::Milliseconds,
                None,
            ),
        }
    }

    fn truncate(&self, _tz: Option<&Zone>, every: &StringColumn, offset: &str) -> (r: Result<
        Self,
        TemporalError,
    >) {
        match Duration::parse(offset) {
            Err(e) => Err(e),
            Ok(shift) => snap_date(self, Snap::Truncate, every, &shift),
        }
    }
}

impl PolarsTruncate for DurationColumn {
    open spec fn is_truncated(
        &self,
        tz: Option<&Zone>,
        every: &StringColumn,
        offset: &str,
        shift: Duration,
        r: Result<Self, TemporalError>,
    ) -> bool {
        if !shift.spec_is_zero() {
            r matches Err(e) && e@ == (Failure {
                reason: Reason::OffsetNotSupported,
                literal: offset@,
            })
        } else {
            self.is_truncated_plainly(every, shift, r)
        }
    }

    fn truncate(&self, _tz: Option<&Zone>, every: &StringColumn, offset: &str) -> (r: Result<
        Self,
        TemporalError,
    >) {
        match Duration::parse(offset) {
            Err(e) => Err(e),
            Ok(shift) => {
                if !shift.is_zero() {
                    Err(TemporalError::with_literal(Reason::OffsetNotSupported, offset))
                } else {
                    snap_duration(self, Snap::Truncate, every, &shift)
                }
            },
        }
    }
}

impl DurationColumn {
    /// What truncation of spans returns where the offset is zero.
    pub open spec fn is_truncated_plainly(
        &self,
        every: &StringColumn,
        shift: Duration,
        r: Result<Self, TemporalError>,
    ) -> bool {
        match r {
            Ok(out) => {
                &&& is_snapped(
                    Ok(out.values@),
                    TemporalKind::Duration,
                    Snap::Truncate,
                    self.values@,
                    every.values@,
                    shift,
                    self.time_unit,
                    None,
                )
                &&& out.name == self.name
                &&& out.time_unit == self.time_unit
                &&& out.sorted == flag_after(self.sorted, every.values@, shift, None)
            },
            Err(e) => is_snapped(
                Err(e@),
                TemporalKind::Duration,
                Snap::Truncate,
                self.values@,
                every.values@,
                shift,
                self.time_unit,
                None,
            ),
        }
    }
}

} // verus!
