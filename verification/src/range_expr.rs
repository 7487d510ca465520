//! Ranges of dates, from series of bounds.

use vstd::prelude::*;
use vstd::string::*;
use crate::arith::{checked, lift, narrow};
use crate::column::{all_present, broadcast_len, broadcast_rows, row_of, IsSorted};
use crate::duration::Duration;
use crate::error::{Failure, Reason, TemporalError};
use crate::range::{datetime_range_i64, is_range, no_nulls, present_values, seq_of, ClosedWindow};
use crate::series::{cast_value, cast_value_spec, TemporalListSeries, TemporalSeries, TemporalType, TypeModel};
use crate::temporal::{finish_all, finishes, fails_to_finish, is_row_range, list_view, row_range, row_range_fails};
use crate::text::{range_error, range_failure};
use crate::units::TimeUnit;

verus! {

/// The milliseconds of the midnight of the date that a value of type
/// `from` is cast to.
pub open spec fn midnight_of(v: int, from: TypeModel) -> Result<int, Reason> {
    match cast_value_spec(v, from, TypeModel::Date) {
        Err(e) => Err(e),
        Ok(day) => checked(day * 86_400_000),
    }
}

/// The bound that a series gives to a range of dates: the midnight of its
/// only value. A series with no value or several has no bound, and a null
/// is out of range.
pub open spec fn only_midnight_of(series: &TemporalSeries) -> Result<int, Reason> {
    if series.values@.len() != 1 {
        Err(Reason::LengthMismatch)
    } else {
        match series.values@[0] {
            None => Err(Reason::OutOfRange),
            Some(v) => midnight_of(v as int, series.dtype@),
        }
    }
}

/// Computes the midnight of the date of a value.
pub fn midnight(v: i64, from: &TemporalType) -> (r: Result<i64, Reason>)
    ensures
        lift(r) == midnight_of(v as int, from@),
{
    match cast_value(v, from, &TemporalType::Date) {
        Err(e) => Err(e),
        Ok(day) => narrow(day as i128 * 86_400_000),
    }
}

/// Computes the bound that a series gives.
pub fn only_midnight(series: &TemporalSeries) -> (r: Result<i64, Reason>)
    ensures
        lift(r) == only_midnight_of(series),
{
    if series.values.len() != 1 {
        return Err(Reason::LengthMismatch);
    }
    match series.values[0] {
        None => Err(Reason::OutOfRange),
        Some(v) => midnight(v, &series.dtype),
    }
}

/// Some range of midnights, given as dates, is `out`.
pub open spec fn dates_of_some_range(
    out: Seq<i64>,
    start: int,
    end: Option<i64>,
    periods: Option<i64>,
    interval: Duration,
    closed: ClosedWindow,
) -> bool {
    exists|local: Seq<i64>| #[trigger]
        is_range(Ok(local), start, end, periods, interval, closed, TimeUnit::Milliseconds, None)
            && finishes(local, out, TimeUnit::Milliseconds, None, true)
}

/// An instant of some range of midnights has no date, for `reason`.
pub open spec fn no_date_in_some_range(
    reason: Reason,
    start: int,
    end: Option<i64>,
    periods: Option<i64>,
    interval: Duration,
    closed: ClosedWindow,
) -> bool {
    exists|local: Seq<i64>| #[trigger]
        is_range(Ok(local), start, end, periods, interval, closed, TimeUnit::Milliseconds, None)
            && fails_to_finish(local, reason, TimeUnit::Milliseconds, None, true)
}

/// What a range of dates is: the range of instants from the midnight
/// `start`, in milliseconds and without a zone, each instant given as the
/// date of its day.
pub open spec fn is_range_of_dates(
    r: Result<Seq<i64>, Reason>,
    start: int,
    end: Option<i64>,
    periods: Option<i64>,
    interval: Duration,
    closed: ClosedWindow,
) -> bool {
    match r {
        Ok(out) => dates_of_some_range(out, start, end, periods, interval, closed),
        Err(reason) => {
            ||| is_range(
                Err(reason),
                start,
                end,
                periods,
                interval,
                closed,
                TimeUnit::Milliseconds,
                None,
            )
            ||| no_date_in_some_range(reason, start, end, periods, interval, closed)
        },
    }
}

/// The dates of a range from one midnight to another, or for a number of
/// periods.
pub fn range_of_dates(
    start: i64,
    end: Option<i64>,
    periods: Option<i64>,
    interval: Duration,
    closed: ClosedWindow,
) -> (r: Result<Vec<i64>, Reason>)
    requires
        interval.wf(),
        (end is Some) != (periods is Some),
    ensures
        is_range_of_dates(seq_of(r), start as int, end, periods, interval, closed),
{
    let local: Vec<i64> = match datetime_range_i64(
        start,
        end,
        periods,
        interval,
        closed,
        TimeUnit::Milliseconds,
        None,
    ) {
        Ok(local) => local,
        Err(reason) => {
            return Err(reason);
        },
    };
    assert(is_range(
        Ok(local@),
        start as int,
        end,
        periods,
        interval,
        closed,
        TimeUnit::Milliseconds,
        None,
    ));
    finish_all(&local, TimeUnit::Milliseconds, None, true)
}

/// The bounds of a range of dates: the midnight of the only value of
/// `start` and, where no number of periods is given, that of the only
/// value of `end`; the end is looked at first.
pub open spec fn date_range_bounds(
    start: &TemporalSeries,
    end: &TemporalSeries,
    periods: Option<i64>,
) -> Result<(int, Option<int>), Reason> {
    match periods {
        Some(_) => match only_midnight_of(start) {
            Err(e) => Err(e),
            Ok(s) => Ok((s, None)),
        },
        None => match only_midnight_of(end) {
            Err(e) => Err(e),
            Ok(e) => match only_midnight_of(start) {
                Err(reason) => Err(reason),
                Ok(s) => Ok((s, Some(e))),
            },
        },
    }
}

/// What `date_range` returns: the failure of the bounds; else, for an
/// interval that is not of full days, that failure; else the range of
/// dates, as a series of dates named as the start, in ascending order.
pub open spec fn is_date_range(
    r: Result<TemporalSeries, TemporalError>,
    start: &TemporalSeries,
    end: &TemporalSeries,
    periods: Option<i64>,
    interval: Duration,
    closed: ClosedWindow,
) -> bool {
    match date_range_bounds(start, end, periods) {
        Err(reason) => r matches Err(e) && e@ == (Failure { reason, literal: Seq::empty() }),
        Ok((s, e)) => if !interval.spec_is_full_days() {
            r matches Err(e) && e@ == range_failure(Reason::NotFullDays, interval, None)
        } else {
            let end_ms: Option<i64> = match e {
                Some(e) => Some(e as i64),
                None => None,
            };
            match r {
                Ok(out) => {
                    &&& no_nulls(out.values@)
                    &&& is_range_of_dates(
                        Ok(present_values(out.values@)),
                        s,
                        end_ms,
                        periods,
                        interval,
                        closed,
                    )
                    &&& out.name == start.name
                    &&& out.dtype@ == TypeModel::Date
                    &&& out.sorted == IsSorted::Ascending
                },
                Err(f) => f@ == range_failure(f.reason, interval, None) && is_range_of_dates(
                    Err(f.reason),
                    s,
                    end_ms,
                    periods,
                    interval,
                    closed,
                ),
            }
        },
    }
}

/// The dates from the only value of `s[0]`, one interval apart, for
/// `periods` periods or up to the only value of `s[1]`. The interval must
/// be of full days.
pub fn date_range(
    s: &[TemporalSeries],
    periods: Option<i64>,
    interval: Duration,
    closed: ClosedWindow,
) -> (r: Result<TemporalSeries, TemporalError>)
    requires
        s@.len() >= 1,
        periods is None ==> s@.len() >= 2,
        interval.wf(),
    ensures
        is_date_range(r, &s@[0], &s@[1], periods, interval, closed),
{
    let start: &TemporalSeries = &s[0];
    let end: Option<i64> = match periods {
        Some(_) => None,
        None => match only_midnight(&s[1]) {
            Ok(e) => Some(e),
            Err(reason) => {
                return Err(TemporalError::new(reason));
            },
        },
    };
    let from: i64 = match only_midnight(start) {
        Ok(v) => v,
        Err(reason) => {
            return Err(TemporalError::new(reason));
        },
    };
    if !interval.is_full_days() {
        return Err(range_error(Reason::NotFullDays, &interval, None));
    }
    match range_of_dates(from, end, periods, interval, closed) {
        Err(reason) => Err(range_error(reason, &interval, None)),
        Ok(days) => {
            let values: Vec<Option<i64>> = all_present(&days);
            assert(present_values(values@) =~= days@);
            Ok(
                TemporalSeries {
                    name: start.name.clone(),
                    dtype: TemporalType::Date,
                    values,
                    sorted: IsSorted::Ascending,
                },
            )
        },
    }
}

/// Row `i` is the first row that fails, and fails with `f`; `done` holds
/// what the rows before it give.
pub open spec fn date_ranges_fail_at(
    i: int,
    done: Seq<Option<Vec<i64>>>,
    f: Failure,
    n: int,
    start: &TemporalSeries,
    end: &TemporalSeries,
    interval: Duration,
    closed: ClosedWindow,
) -> bool {
    &&& 0 <= i < n
    &&& done.len() == i
    &&& row_range_fails(
        f,
        row_of(start.values@, i),
        row_of(end.values@, i),
        start.dtype@,
        end.dtype@,
        TypeModel::Date,
        interval,
        closed,
        None,
    )
    &&& forall|j: int|
        0 <= j < i ==> is_row_range(
            list_view(#[trigger] done[j]),
            row_of(start.values@, j),
            row_of(end.values@, j),
            start.dtype@,
            end.dtype@,
            TypeModel::Date,
            interval,
            closed,
            None,
        )
}

/// Some row is the first to fail, and fails with `f`.
pub open spec fn date_ranges_fail(
    f: Failure,
    n: int,
    start: &TemporalSeries,
    end: &TemporalSeries,
    interval: Duration,
    closed: ClosedWindow,
) -> bool {
    exists|i: int, done: Seq<Option<Vec<i64>>>| #[trigger]
        date_ranges_fail_at(i, done, f, n, start, end, interval, closed)
}

/// What `date_ranges` returns: for an interval that is not of full days,
/// that failure; for series that differ in length, neither of one row,
/// that failure; else one list of dates for each row, in a series named as
/// the start, or the failure of the first row that fails.
pub open spec fn is_date_ranges(
    r: Result<TemporalListSeries, TemporalError>,
    start: &TemporalSeries,
    end: &TemporalSeries,
    interval: Duration,
    closed: ClosedWindow,
) -> bool {
    if !interval.spec_is_full_days() {
        r matches Err(e) && e@ == range_failure(Reason::NotFullDays, interval, None)
    } else {
        match broadcast_len(start.values@.len(), end.values@.len()) {
            None => r matches Err(e) && e@ == (Failure {
                reason: Reason::LengthMismatch,
                literal: Seq::empty(),
            }),
            Some(n) => match r {
                Ok(out) => {
                    &&& out.values@.len() == n
                    &&& forall|i: int|
                        0 <= i < n ==> is_row_range(
                            list_view(#[trigger] out.values@[i]),
                            row_of(start.values@, i),
                            row_of(end.values@, i),
                            start.dtype@,
                            end.dtype@,
                            TypeModel::Date,
                            interval,
                            closed,
                            None,
                        )
                    &&& out.name == start.name
                    &&& out.dtype@ == TypeModel::Date
                },
                Err(e) => date_ranges_fail(e@, n as int, start, end, interval, closed),
            },
        }
    }
}

/// The dates from each value of `s[0]` up to the value of `s[1]` in the
/// same row, one interval apart, each range as a list. A series of one row
/// stands for every row; a row with a null gives a null. The interval must
/// be of full days.
#[verifier::loop_isolation(false)]
pub fn date_ranges(s: &[TemporalSeries], interval: Duration, closed: ClosedWindow) -> (r: Result<
    TemporalListSeries,
    TemporalError,
>)
    requires
        s@.len() >= 2,
        interval.wf(),
    ensures
        is_date_ranges(r, &s@[0], &s@[1], interval, closed),
{
    let start: &TemporalSeries = &s[0];
    let end: &TemporalSeries = &s[1];
    if !interval.is_full_days() {
        return Err(range_error(Reason::NotFullDays, &interval, None));
    }
    let n: usize = match broadcast_rows(start.values.len(), end.values.len()) {
        Some(n) => n,
        None => {
            return Err(TemporalError::new(Reason::LengthMismatch));
        },
    };
    let dtype = TemporalType::Date;
    let mut lists: Vec<Option<Vec<i64>>> = Vec::new();
    let mut i: usize = 0;
    while i < n
        invariant
            i <= n,
            lists@.len() == i,
            forall|j: int|
                0 <= j < i ==> is_row_range(
                    list_view(#[trigger] lists@[j]),
                    row_of(start.values@, j),
                    row_of(end.values@, j),
                    start.dtype@,
                    end.dtype@,
                    TypeModel::Date,
                    interval,
                    closed,
                    None,
                ),
        decreases n - i,
    {
        let a: Option<i64> = if start.values.len() == 1 {
            start.values[0]
        } else {
            start.values[i]
        };
        let b: Option<i64> = if end.values.len() == 1 {
            end.values[0]
        } else {
            end.values[i]
        };
        match row_range(a, b, &start.dtype, &end.dtype, &dtype, &interval, closed, None) {
            Ok(list) => {
                lists.push(list);
            },
            Err(e) => {
                assert(date_ranges_fail_at(
                    i as int,
                    lists@,
                    e@,
                    n as int,
                    start,
                    end,
                    interval,
                    closed,
                ));
                return Err(e);
            },
        }
        i = i + 1;
    }
    Ok(TemporalListSeries { name: start.name.clone(), dtype, values: lists })
}

} // verus!
