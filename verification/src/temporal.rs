//! Temporal functions on series: ranges from the first values of two
//! series, ranges row by row, offsets, and dates combined with times.

use vstd::prelude::*;
use vstd::string::*;
use crate::arith::{floor_div, lift};
use crate::duration::Duration;
use crate::error::{Failure, Reason, TemporalError};
use crate::column::{all_present, IsSorted};
use crate::range::{
    interval_is_positive, is_range_until, no_nulls, present_values, range_until, ClosedWindow,
};
use crate::series::{cast_value, cast_value_spec, TemporalListSeries, TemporalSeries, TemporalType, TypeModel};
use crate::timezone::{duplicate_zone, instant_of, model_of, to_instant_in, Zone, ZoneModel};
use crate::text::{range_error, range_failure};
use crate::units::TimeUnit;

verus! {

/// What a clock reading of a range becomes in the output: the date of its
/// day where the range is one of dates, else its instant in the zone.
pub open spec fn finished(local: int, tu: TimeUnit, zone: Option<&Zone>, as_days: bool) -> Result<
    int,
    Reason,
> {
    if as_days {
        let day = local / 86_400_000;
        if i32::MIN <= day <= i32::MAX {
            Ok(day)
        } else {
            Err(Reason::OutOfRange)
        }
    } else {
        instant_of(zone, local, tu)
    }
}

/// `out` holds what the clock readings `local` become.
pub open spec fn finishes(
    local: Seq<i64>,
    out: Seq<i64>,
    tu: TimeUnit,
    zone: Option<&Zone>,
    as_days: bool,
) -> bool {
    &&& out.len() == local.len()
    &&& forall|i: int|
        0 <= i < local.len() ==> finished(#[trigger] local[i] as int, tu, zone, as_days) == Ok::<
            int,
            Reason,
        >(out[i] as int)
}

/// The clock reading at index `i` is the first that cannot be finished, and
/// fails for `reason`.
pub open spec fn finish_fails_at(
    local: Seq<i64>,
    i: int,
    reason: Reason,
    tu: TimeUnit,
    zone: Option<&Zone>,
    as_days: bool,
) -> bool {
    &&& 0 <= i < local.len()
    &&& finished(local[i] as int, tu, zone, as_days) == Err::<int, Reason>(reason)
    &&& forall|j: int| 0 <= j < i ==> (#[trigger] finished(local[j] as int, tu, zone, as_days)) is Ok
}

/// `local` is the range of clock readings from `start` to `end` and `out`
/// what its readings become.
pub open spec fn is_finished_range(
    local: Seq<i64>,
    out: Seq<i64>,
    start: int,
    end: int,
    every: Duration,
    closed: ClosedWindow,
    tu: TimeUnit,
    zone: Option<&Zone>,
    as_days: bool,
) -> bool {
    &&& is_range_until(Ok(local), start, end, every, closed, tu, None)
    &&& finishes(local, out, tu, zone, as_days)
}

/// `local` is the range of clock readings from `start` to `end`, and one of
/// its readings cannot be finished, for `reason`.
pub open spec fn is_unfinished_range(
    local: Seq<i64>,
    reason: Reason,
    start: int,
    end: int,
    every: Duration,
    closed: ClosedWindow,
    tu: TimeUnit,
    zone: Option<&Zone>,
    as_days: bool,
) -> bool {
    &&& is_range_until(Ok(local), start, end, every, closed, tu, None)
    &&& fails_to_finish(local, reason, tu, zone, as_days)
}

/// What a range between two clock readings is: the range is made of clock
/// readings, without a zone, and each reading is then finished. It fails
/// where the range of readings fails, or where a reading cannot be
/// finished.
pub open spec fn is_local_range(
    r: Result<Seq<i64>, Reason>,
    start: int,
    end: int,
    every: Duration,
    closed: ClosedWindow,
    tu: TimeUnit,
    zone: Option<&Zone>,
    as_days: bool,
) -> bool {
    match r {
        Ok(out) => finishes_some_range(out, start, end, every, closed, tu, zone, as_days),
        Err(reason) => {
            ||| is_range_until(Err(reason), start, end, every, closed, tu, None)
            ||| fails_in_some_range(reason, start, end, every, closed, tu, zone, as_days)
        },
    }
}

/// `out` is what the range of clock readings from `start` to `end`
/// becomes.
pub open spec fn finishes_some_range(
    out: Seq<i64>,
    start: int,
    end: int,
    every: Duration,
    closed: ClosedWindow,
    tu: TimeUnit,
    zone: Option<&Zone>,
    as_days: bool,
) -> bool {
    exists|local: Seq<i64>| #[trigger]
        is_finished_range(local, out, start, end, every, closed, tu, zone, as_days)
}

/// A reading of the range of clock readings from `start` to `end` cannot
/// be finished, for `reason`.
pub open spec fn fails_in_some_range(
    reason: Reason,
    start: int,
    end: int,
    every: Duration,
    closed: ClosedWindow,
    tu: TimeUnit,
    zone: Option<&Zone>,
    as_days: bool,
) -> bool {
    exists|local: Seq<i64>| #[trigger]
        is_unfinished_range(local, reason, start, end, every, closed, tu, zone, as_days)
}

/// Finishes one clock reading.
fn finish(local: i64, tu: TimeUnit, zone: Option<&Zone>, as_days: bool) -> (r: Result<i64, Reason>)
    ensures
        lift(r) == finished(local as int, tu, zone, as_days),
{
    if as_days {
        let day: i64 = floor_div(local, 86_400_000);
        if day < i32::MIN as i64 || day > i32::MAX as i64 {
            Err(Reason::OutOfRange)
        } else {
            Ok(day)
        }
    } else {
        to_instant_in(zone, local, tu)
    }
}

/// `out` is what the clock readings `local` become, or `reason` is why the
/// first of them that cannot be finished cannot.
pub open spec fn is_finished(
    r: Result<Seq<i64>, Reason>,
    local: Seq<i64>,
    tu: TimeUnit,
    zone: Option<&Zone>,
    as_days: bool,
) -> bool {
    match r {
        Ok(out) => finishes(local, out, tu, zone, as_days),
        Err(reason) => fails_to_finish(local, reason, tu, zone, as_days),
    }
}

/// One of the clock readings cannot be finished, for `reason`.
pub open spec fn fails_to_finish(
    local: Seq<i64>,
    reason: Reason,
    tu: TimeUnit,
    zone: Option<&Zone>,
    as_days: bool,
) -> bool {
    exists|i: int| #[trigger] finish_fails_at(local, i, reason, tu, zone, as_days)
}

/// Finishes each clock reading of a range.
pub fn finish_all(local: &Vec<i64>, tu: TimeUnit, zone: Option<&Zone>, as_days: bool) -> (r: Result<
    Vec<i64>,
    Reason,
>)
    ensures
        is_finished(crate::range::seq_of(r), local@, tu, zone, as_days),
{
    let mut out: Vec<i64> = Vec::new();
    let mut i: usize = 0;
    while i < local.len()
        invariant
            i <= local.len(),
            out@.len() == i,
            forall|j: int|
                #![trigger local@[j]]
                0 <= j < i ==> finished(local@[j] as int, tu, zone, as_days) == Ok::<int, Reason>(
                    out@[j] as int,
                ),
        decreases local.len() - i,
    {
        match finish(local[i], tu, zone, as_days) {
            Ok(v) => {
                out.push(v);
            },
            Err(reason) => {
                assert(finish_fails_at(local@, i as int, reason, tu, zone, as_days));
                return Err(reason);
            },
        }
        i = i + 1;
    }
    Ok(out)
}

/// The range between two clock readings, each reading finished as a date
/// or as an instant in the zone.
pub fn local_range(
    start: i64,
    end: i64,
    every: &Duration,
    closed: ClosedWindow,
    tu: TimeUnit,
    zone: Option<&Zone>,
    as_days: bool,
) -> (r: Result<Vec<i64>, Reason>)
    requires
        every.wf(),
    ensures
        is_local_range(
            crate::range::seq_of(r),
            start as int,
            end as int,
            *every,
            closed,
            tu,
            zone,
            as_days,
        ),
{
    let local: Vec<i64> = match range_until(start, end, every, closed, tu, None) {
        Ok(local) => local,
        Err(reason) => {
            return Err(reason);
        },
    };
    match finish_all(&local, tu, zone, as_days) {
        Ok(out) => {
            assert(is_finished_range(
                local@,
                out@,
                start as int,
                end as int,
                *every,
                closed,
                tu,
                zone,
                as_days,
            ));
            Ok(out)
        },
        Err(reason) => {
            assert(is_unfinished_range(
                local@,
                reason,
                start as int,
                end as int,
                *every,
                closed,
                tu,
                zone,
                as_days,
            ));
            Err(reason)
        },
    }
}

/// The type of a range that starts with a value of type `start`. Dates
/// stay dates where the interval has no fixed part; else they become
/// instants, in the unit asked for, or in nanoseconds where the interval
/// needs them, or in microseconds. Times stay times. Instants keep their
/// zone and take the unit asked for, if any.
pub open spec fn range_type(start: TypeModel, every: Duration, time_unit: Option<TimeUnit>) -> TypeModel {
    match start {
        TypeModel::Date => if every.nsecs == 0 {
            TypeModel::Date
        } else {
            match time_unit {
                Some(tu) => TypeModel::Datetime(tu, None),
                None => if every.nsecs as int % 1_000 != 0 {
                    TypeModel::Datetime(TimeUnit::Nanoseconds, None)
                } else {
                    TypeModel::Datetime(TimeUnit::Microseconds, None)
                },
            }
        },
        TypeModel::Time => TypeModel::Time,
        TypeModel::Datetime(tu, zone) => match time_unit {
            None => TypeModel::Datetime(tu, zone),
            Some(unit) => TypeModel::Datetime(unit, zone),
        },
    }
}

/// Chooses the type of a range.
pub fn range_dtype(start: &TemporalType, every: &Duration, time_unit: Option<TimeUnit>) -> (t:
    TemporalType)
    ensures
        t@ == range_type(start@, *every, time_unit),
{
    match start {
        TemporalType::Date => {
            if every.nsecs == 0 {
                TemporalType::Date
            } else {
                match time_unit {
                    Some(tu) => TemporalType::Datetime(tu, None),
                    None => if crate::arith::floor_mod(every.nsecs, 1_000) != 0 {
                        TemporalType::Datetime(TimeUnit::Nanoseconds, None)
                    } else {
                        TemporalType::Datetime(TimeUnit::Microseconds, None)
                    },
                }
            }
        },
        TemporalType::Time => TemporalType::Time,
        TemporalType::Datetime(tu, zone) => match time_unit {
            None => TemporalType::Datetime(*tu, duplicate_zone(zone)),
            Some(unit) => TemporalType::Datetime(unit, duplicate_zone(zone)),
        },
    }
}

/// The unit in which the range of a type is computed: milliseconds for
/// dates, nanoseconds for times.
pub open spec fn range_unit(dtype: TypeModel) -> TimeUnit {
    match dtype {
        TypeModel::Date => TimeUnit::Milliseconds,
        TypeModel::Time => TimeUnit::Nanoseconds,
        TypeModel::Datetime(tu, _) => tu,
    }
}

/// The zone of a type, if it has one.
pub open spec fn zone_of_type(dtype: TypeModel) -> Option<ZoneModel> {
    match dtype {
        TypeModel::Datetime(_, zone) => zone,
        _ => None,
    }
}

/// The bound of a range that a value of type `from` gives: the value cast
/// to the type of the range, `to`, and then read on the clock of that
/// type: the clock reading in its zone for an instant, the milliseconds of
/// its midnight for a date.
pub open spec fn bound_of(v: int, from: TypeModel, to: TypeModel) -> Result<int, Reason> {
    match cast_value_spec(v, from, to) {
        Err(e) => Err(e),
        Ok(x) => match to {
            TypeModel::Date => crate::arith::checked(x * 86_400_000),
            TypeModel::Time => Ok(x),
            TypeModel::Datetime(tu, zone) => match zone {
                None => Ok(x),
                Some(z) => z.to_local(x, tu),
            },
        },
    }
}

/// The bound that the first value of a series gives; a series without
/// values has none, and a null is out of range.
pub open spec fn first_bound_of(values: Seq<Option<i64>>, from: TypeModel, to: TypeModel) -> Result<
    int,
    Reason,
> {
    if values.len() == 0 {
        Err(Reason::LengthMismatch)
    } else {
        match values[0] {
            None => Err(Reason::OutOfRange),
            Some(v) => bound_of(v as int, from, to),
        }
    }
}

/// Computes the bound that a value gives.
pub fn bound(v: i64, from: &TemporalType, to: &TemporalType) -> (r: Result<i64, Reason>)
    ensures
        lift(r) == bound_of(v as int, from@, to@),
{
    match cast_value(v, from, to) {
        Err(e) => Err(e),
        Ok(x) => match to {
            TemporalType::Date => crate::arith::narrow(x as i128 * 86_400_000),
            TemporalType::Time => Ok(x),
            TemporalType::Datetime(tu, zone) => match zone {
                None => Ok(x),
                Some(z) => z.to_local(x, *tu),
            },
        },
    }
}

/// The zone in which the instants of a range are given: the zone asked
/// for, else the zone of the start; none where the range is of dates or of
/// times.
pub open spec fn target_zone<'a>(
    start: &'a TemporalType,
    every: Duration,
    time_unit: Option<TimeUnit>,
    time_zone: &'a Option<Zone>,
) -> Option<&'a Zone> {
    match range_type(start@, every, time_unit) {
        TypeModel::Datetime(_, _) => match time_zone {
            Some(z) => Some(z),
            None => match start {
                TemporalType::Datetime(_, Some(z)) => Some(z),
                _ => None,
            },
        },
        _ => None,
    }
}

/// The type of the values of a range: the type of the range, in the zone
/// asked for where the range is of instants.
pub open spec fn final_type(dtype: TypeModel, time_zone: Option<ZoneModel>) -> TypeModel {
    match (dtype, time_zone) {
        (TypeModel::Datetime(tu, _), Some(z)) => TypeModel::Datetime(tu, Some(z)),
        _ => dtype,
    }
}

/// The failure for `reason`, with the name of `zone` where the zone is not
/// known.
pub open spec fn zone_failure(reason: Reason, zone: Option<ZoneModel>) -> Failure {
    Failure {
        reason,
        literal: if reason == Reason::UnknownTimeZone {
            match zone {
                Some(z) => z.name(),
                None => Seq::empty(),
            }
        } else {
            Seq::empty()
        },
    }
}

/// Builds the failure for `reason`.
pub(crate) fn zone_error(reason: Reason, zone: Option<&Zone>) -> (e: TemporalError)
    ensures
        e@ == zone_failure(
            reason,
            match zone {
                Some(z) => Some(z@),
                None => None,
            },
        ),
{
    match reason {
        Reason::UnknownTimeZone => match zone {
            Some(Zone::Named(name)) => TemporalError::with_literal(reason, name.as_str()),
            _ => TemporalError::new(reason),
        },
        _ => TemporalError::new(reason),
    }
}

/// The zone of a type, behind a reference.
fn zone_ref(dtype: &TemporalType) -> (z: Option<&Zone>)
    ensures
        z == match dtype {
            TemporalType::Datetime(_, Some(zone)) => Some(zone),
            _ => None::<&Zone>,
        },
{
    match dtype {
        TemporalType::Datetime(_, Some(zone)) => Some(zone),
        _ => None,
    }
}

/// The unit in which the range of a type is computed.
fn unit_of(dtype: &TemporalType) -> (tu: TimeUnit)
    ensures
        tu == range_unit(dtype@),
{
    match dtype {
        TemporalType::Date => TimeUnit::Milliseconds,
        TemporalType::Time => TimeUnit::Nanoseconds,
        TemporalType::Datetime(tu, _) => *tu,
    }
}

/// The two bounds of a range from the first values of `start` and `stop`,
/// or the failure of the first of them that has none.
pub open spec fn range_bounds(
    start: &TemporalSeries,
    stop: &TemporalSeries,
    every: Duration,
    time_unit: Option<TimeUnit>,
) -> Result<(int, int), Failure> {
    let dtype = range_type(start.dtype@, every, time_unit);
    if start.values@.len() != stop.values@.len() {
        Err(Failure { reason: Reason::LengthMismatch, literal: Seq::empty() })
    } else {
        match first_bound_of(start.values@, start.dtype@, dtype) {
            Err(reason) => Err(zone_failure(reason, zone_of_type(dtype))),
            Ok(s) => match first_bound_of(stop.values@, stop.dtype@, dtype) {
                Err(reason) => Err(zone_failure(reason, zone_of_type(dtype))),
                Ok(e) => Ok((s, e)),
            },
        }
    }
}

/// Computes the bound that the first value of a series gives.
fn first_bound(series: &TemporalSeries, dtype: &TemporalType) -> (r: Result<i64, TemporalError>)
    ensures
        match r {
            Ok(v) => first_bound_of(series.values@, series.dtype@, dtype@) == Ok::<int, Reason>(
                v as int,
            ),
            Err(e) => first_bound_of(series.values@, series.dtype@, dtype@) matches Err(reason)
                && e@ == zone_failure(reason, zone_of_type(dtype@)),
        },
{
    if series.values.len() == 0 {
        return Err(TemporalError::new(Reason::LengthMismatch));
    }
    match series.values[0] {
        None => Err(TemporalError::new(Reason::OutOfRange)),
        Some(v) => match bound(v, &series.dtype, dtype) {
            Ok(b) => Ok(b),
            Err(reason) => Err(zone_error(reason, zone_ref(dtype))),
        },
    }
}

/// What the range between the first values of two series is: a series
/// named `name`, of the final type of the range, without nulls, that holds
/// the range between the two bounds; or the failure of the bounds or of
/// the range.
pub open spec fn is_range_dispatched(
    r: Result<TemporalSeries, TemporalError>,
    start: &TemporalSeries,
    stop: &TemporalSeries,
    name: Seq<char>,
    every: Duration,
    closed: ClosedWindow,
    time_unit: Option<TimeUnit>,
    time_zone: &Option<Zone>,
) -> bool {
    let dtype = range_type(start.dtype@, every, time_unit);
    let zone = target_zone(&start.dtype, every, time_unit, time_zone);
    match range_bounds(start, stop, every, time_unit) {
        Err(f) => r matches Err(e) && e@ == f,
        Ok((s, e)) => match r {
            Ok(out) => {
                &&& no_nulls(out.values@)
                &&& is_local_range(
                    Ok(present_values(out.values@)),
                    s,
                    e,
                    every,
                    closed,
                    range_unit(dtype),
                    zone,
                    dtype is Date,
                )
                &&& out.name@ == name
                &&& out.dtype@ == final_type(dtype, model_of(*time_zone))
                &&& out.sorted == IsSorted::Ascending
            },
            Err(f) => is_local_range(
                Err(f.reason),
                s,
                e,
                every,
                closed,
                range_unit(dtype),
                zone,
                dtype is Date,
            ) && f@ == range_failure(
                f.reason,
                every,
                match zone {
                    Some(z) => Some(z@),
                    None => None,
                },
            ),
        },
    }
}

/// The range between the first value of `s[0]` and the first value of
/// `s[1]`, one `every` apart. The two values are cast to the type of the
/// range and read on its clock; the range is made of clock readings, and
/// each is then given as a date, a time, or an instant in the zone.
pub fn temporal_range_dispatch(
    s: &[TemporalSeries],
    name: &str,
    every: Duration,
    closed: ClosedWindow,
    time_unit: Option<TimeUnit>,
    time_zone: Option<Zone>,
) -> (r: Result<TemporalSeries, TemporalError>)
    requires
        s@.len() >= 2,
        every.wf(),
    ensures
        is_range_dispatched(r, &s@[0], &s@[1], name@, every, closed, time_unit, &time_zone),
{
    let start: &TemporalSeries = &s[0];
    let stop: &TemporalSeries = &s[1];
    if start.values.len() != stop.values.len() {
        return Err(TemporalError::new(Reason::LengthMismatch));
    }
    let dtype: TemporalType = range_dtype(&start.dtype, &every, time_unit);
    let from: i64 = match first_bound(start, &dtype) {
        Ok(v) => v,
        Err(e) => {
            return Err(e);
        },
    };
    let to: i64 = match first_bound(stop, &dtype) {
        Ok(v) => v,
        Err(e) => {
            return Err(e);
        },
    };
    let tu: TimeUnit = unit_of(&dtype);
    let as_days: bool = match dtype {
        TemporalType::Date => true,
        _ => false,
    };
    let zone: Option<&Zone> = match dtype {
        TemporalType::Datetime(_, _) => match &time_zone {
            Some(z) => Some(z),
            None => match &start.dtype {
                TemporalType::Datetime(_, Some(z)) => Some(z),
                _ => None,
            },
        },
        _ => None,
    };
    match local_range(from, to, &every, closed, tu, zone, as_days) {
        Err(reason) => Err(range_error(reason, &every, zone)),
        Ok(ts) => {
            let values: Vec<Option<i64>> = all_present(&ts);
            assert(present_values(values@) =~= ts@);
            let out_type: TemporalType = match (dtype, time_zone) {
                (TemporalType::Datetime(tu, _), Some(z)) => TemporalType::Datetime(tu, Some(z)),
                (d, _) => d,
            };
            Ok(
                TemporalSeries {
                    name: name.to_owned(),
                    dtype: out_type,
                    values,
                    sorted: IsSorted::Ascending,
                },
            )
        },
    }
}

/// The elements of an optional list.
pub open spec fn list_view(list: Option<Vec<i64>>) -> Option<Seq<i64>> {
    match list {
        Some(v) => Some(v@),
        None => None,
    }
}

/// What one row of ranges gives for the values `a` and `b`: a null where
/// either is null, else the range between the bounds that they give.
#[verifier::opaque]
pub open spec fn is_row_range(
    out: Option<Seq<i64>>,
    a: Option<i64>,
    b: Option<i64>,
    from: TypeModel,
    until: TypeModel,
    dtype: TypeModel,
    every: Duration,
    closed: ClosedWindow,
    zone: Option<&Zone>,
) -> bool {
    match (a, b) {
        (Some(a), Some(b)) => match (bound_of(a as int, from, dtype), bound_of(b as int, until, dtype)) {
            (Ok(s), Ok(e)) => out matches Some(v) && is_local_range(
                Ok(v),
                s,
                e,
                every,
                closed,
                range_unit(dtype),
                zone,
                dtype is Date,
            ),
            _ => false,
        },
        _ => out is None,
    }
}

/// The row of the values `a` and `b` fails with `f`: a bound cannot be
/// computed, the first first, or the range between the bounds fails.
#[verifier::opaque]
pub open spec fn row_range_fails(
    f: Failure,
    a: Option<i64>,
    b: Option<i64>,
    from: TypeModel,
    until: TypeModel,
    dtype: TypeModel,
    every: Duration,
    closed: ClosedWindow,
    zone: Option<&Zone>,
) -> bool {
    match (a, b) {
        (Some(a), Some(b)) => match bound_of(a as int, from, dtype) {
            Err(reason) => f == zone_failure(reason, zone_of_type(dtype)),
            Ok(s) => match bound_of(b as int, until, dtype) {
                Err(reason) => f == zone_failure(reason, zone_of_type(dtype)),
                Ok(e) => is_local_range(
                    Err(f.reason),
                    s,
                    e,
                    every,
                    closed,
                    range_unit(dtype),
                    zone,
                    dtype is Date,
                ) && f == range_failure(
                    f.reason,
                    every,
                    match zone {
                        Some(z) => Some(z@),
                        None => None,
                    },
                ),
            },
        },
        _ => false,
    }
}

/// Row `i` is the first row that fails, and fails with `f`; `done` holds
/// what the rows before it give.
pub open spec fn ranges_fail_at(
    i: int,
    done: Seq<Option<Vec<i64>>>,
    f: Failure,
    start: &TemporalSeries,
    stop: &TemporalSeries,
    dtype: TypeModel,
    every: Duration,
    closed: ClosedWindow,
    zone: Option<&Zone>,
) -> bool {
    &&& 0 <= i < start.values@.len()
    &&& done.len() == i
    &&& row_range_fails(
        f,
        start.values@[i],
        stop.values@[i],
        start.dtype@,
        stop.dtype@,
        dtype,
        every,
        closed,
        zone,
    )
    &&& forall|j: int|
        0 <= j < i ==> is_row_range(
            list_view(#[trigger] done[j]),
            start.values@[j],
            stop.values@[j],
            start.dtype@,
            stop.dtype@,
            dtype,
            every,
            closed,
            zone,
        )
}

/// Some row is the first to fail, and fails with `f`.
pub open spec fn ranges_fail(
    f: Failure,
    start: &TemporalSeries,
    stop: &TemporalSeries,
    dtype: TypeModel,
    every: Duration,
    closed: ClosedWindow,
    zone: Option<&Zone>,
) -> bool {
    exists|i: int, done: Seq<Option<Vec<i64>>>| #[trigger]
        ranges_fail_at(i, done, f, start, stop, dtype, every, closed, zone)
}

/// What the ranges between the values of two series are, row by row: a
/// series of lists named `name`, of the final type of the ranges, one list
/// for each row; or the failure of the first row that fails. The two
/// series must agree in length.
pub open spec fn is_ranges_dispatched(
    r: Result<TemporalListSeries, TemporalError>,
    start: &TemporalSeries,
    stop: &TemporalSeries,
    name: Seq<char>,
    every: Duration,
    closed: ClosedWindow,
    time_unit: Option<TimeUnit>,
    time_zone: &Option<Zone>,
) -> bool {
    let dtype = range_type(start.dtype@, every, time_unit);
    let zone = target_zone(&start.dtype, every, time_unit, time_zone);
    if start.values@.len() != stop.values@.len() {
        r matches Err(e) && e@ == (Failure { reason: Reason::LengthMismatch, literal: Seq::empty() })
    } else {
        match r {
            Ok(out) => {
                &&& out.values@.len() == start.values@.len()
                &&& forall|i: int|
                    0 <= i < start.values@.len() ==> is_row_range(
                        list_view(#[trigger] out.values@[i]),
                        start.values@[i],
                        stop.values@[i],
                        start.dtype@,
                        stop.dtype@,
                        dtype,
                        every,
                        closed,
                        zone,
                    )
                &&& out.name@ == name
                &&& out.dtype@ == final_type(dtype, model_of(*time_zone))
            },
            Err(e) => ranges_fail(e@, start, stop, dtype, every, closed, zone),
        }
    }
}

/// The range of one row.
pub(crate) fn row_range(
    a: Option<i64>,
    b: Option<i64>,
    from: &TemporalType,
    until: &TemporalType,
    dtype: &TemporalType,
    every: &Duration,
    closed: ClosedWindow,
    zone: Option<&Zone>,
) -> (r: Result<Option<Vec<i64>>, TemporalError>)
    requires
        every.wf(),
    ensures
        match r {
            Ok(out) => is_row_range(
                list_view(out),
                a,
                b,
                from@,
                until@,
                dtype@,
                *every,
                closed,
                zone,
            ),
            Err(e) => row_range_fails(e@, a, b, from@, until@, dtype@, *every, closed, zone),
        },
{
    reveal(is_row_range);
    reveal(row_range_fails);
    match (a, b) {
        (Some(a), Some(b)) => {
            let s: i64 = match bound(a, from, dtype) {
                Ok(s) => s,
                Err(reason) => {
                    return Err(zone_error(reason, zone_ref(dtype)));
                },
            };
            let e: i64 = match bound(b, until, dtype) {
                Ok(e) => e,
                Err(reason) => {
                    return Err(zone_error(reason, zone_ref(dtype)));
                },
            };
            let as_days: bool = match dtype {
                TemporalType::Date => true,
                _ => false,
            };
            match local_range(s, e, every, closed, unit_of(dtype), zone, as_days) {
                Ok(v) => Ok(Some(v)),
                Err(reason) => Err(range_error(reason, every, zone)),
            }
        },
        _ => Ok(None),
    }
}

/// The ranges between the values of `s[0]` and the values of `s[1]`, row by
/// row, each as a list. A row with a null gives a null.
#[verifier::loop_isolation(false)]
pub fn temporal_ranges_dispatch(
    s: &[TemporalSeries],
    name: &str,
    every: Duration,
    closed: ClosedWindow,
    time_unit: Option<TimeUnit>,
    time_zone: Option<Zone>,
) -> (r: Result<TemporalListSeries, TemporalError>)
    requires
        s@.len() >= 2,
        every.wf(),
    ensures
        is_ranges_dispatched(r, &s@[0], &s@[1], name@, every, closed, time_unit, &time_zone),
{
    let start: &TemporalSeries = &s[0];
    let stop: &TemporalSeries = &s[1];
    if start.values.len() != stop.values.len() {
        return Err(TemporalError::new(Reason::LengthMismatch));
    }
    let dtype: TemporalType = range_dtype(&start.dtype, &every, time_unit);
    let zone: Option<&Zone> = match dtype {
        TemporalType::Datetime(_, _) => match &time_zone {
            Some(z) => Some(z),
            None => match &start.dtype {
                TemporalType::Datetime(_, Some(z)) => Some(z),
                _ => None,
            },
        },
        _ => None,
    };
    let mut lists: Vec<Option<Vec<i64>>> = Vec::new();
    let mut i: usize = 0;
    while i < start.values.len()
        invariant
            every.wf(),
            i <= start.values@.len(),
            start.values@.len() == stop.values@.len(),
            lists@.len() == i,
            forall|j: int|
                0 <= j < i ==> is_row_range(
                    list_view(#[trigger] lists@[j]),
                    start.values@[j],
                    stop.values@[j],
                    start.dtype@,
                    stop.dtype@,
                    dtype@,
                    every,
                    closed,
                    zone,
                ),
        decreases start.values@.len() - i,
    {
        match row_range(
            start.values[i],
            stop.values[i],
            &start.dtype,
            &stop.dtype,
            &dtype,
            &every,
            closed,
            zone,
        ) {
            Ok(list) => {
                lists.push(list);
            },
            Err(e) => {
                assert(ranges_fail_at(
                    i as int,
                    lists@,
                    e@,
                    start,
                    stop,
                    dtype@,
                    every,
                    closed,
                    zone,
                ));
                return Err(e);
            },
        }
        i = i + 1;
    }
    let out_type: TemporalType = match (dtype, time_zone) {
        (TemporalType::Datetime(tu, _), Some(z)) => TemporalType::Datetime(tu, Some(z)),
        (d, _) => d,
    };
    Ok(TemporalListSeries { name: name.to_owned(), dtype: out_type, values: lists })
}

/// Row `i` fails, and both of its bounds are present.
pub open spec fn present_ranges_fail_at(
    i: int,
    done: Seq<Option<Vec<i64>>>,
    f: Failure,
    start: &TemporalSeries,
    stop: &TemporalSeries,
    dtype: TypeModel,
    every: Duration,
    closed: ClosedWindow,
    zone: Option<&Zone>,
) -> bool {
    &&& ranges_fail_at(i, done, f, start, stop, dtype, every, closed, zone)
    &&& start.values@[i] is Some
    &&& stop.values@[i] is Some
}

/// Nulls and empty lists in a column of ranges. Where the call returns a
/// column, a row is null exactly where one of its bounds is null, and a row
/// whose start bound lies after its end bound holds an empty list. Where
/// the call fails, the row that fails has both its bounds: a null never
/// fails the call. And the call returns a column wherever no row fails.
pub proof fn lemma_ranges_nulls_in_column(
    r: Result<TemporalListSeries, TemporalError>,
    start: &TemporalSeries,
    stop: &TemporalSeries,
    name: Seq<char>,
    every: Duration,
    closed: ClosedWindow,
    time_unit: Option<TimeUnit>,
    time_zone: &Option<Zone>,
)
    requires
        start.values@.len() == stop.values@.len(),
        is_ranges_dispatched(r, start, stop, name, every, closed, time_unit, time_zone),
    ensures
        ({
            let dtype = range_type(start.dtype@, every, time_unit);
            let zone = target_zone(&start.dtype, every, time_unit, time_zone);
            let n = start.values@.len() as int;
            &&& r matches Ok(out) ==> out.values@.len() == n && forall|i: int|
                0 <= i < n ==> {
                    &&& (#[trigger] out.values@[i]) is None <==> (start.values@[i] is None
                        || stop.values@[i] is None)
                    &&& (start.values@[i] matches Some(a) && stop.values@[i] matches Some(b)
                        && bound_of(a as int, start.dtype@, dtype) matches Ok(s) && bound_of(
                        b as int,
                        stop.dtype@,
                        dtype,
                    ) matches Ok(e) && s > e && interval_is_positive(every, range_unit(dtype)))
                        ==> (out.values@[i] matches Some(list) && list@.len() == 0)
                }
            &&& r matches Err(e) ==> exists|i: int, done: Seq<Option<Vec<i64>>>| #[trigger]
                present_ranges_fail_at(i, done, e@, start, stop, dtype, every, closed, zone)
            &&& (forall|i: int, f: Failure|
                0 <= i < n ==> !(#[trigger] row_range_fails(
                    f,
                    start.values@[i],
                    stop.values@[i],
                    start.dtype@,
                    stop.dtype@,
                    dtype,
                    every,
                    closed,
                    zone,
                ))) ==> r is Ok
        }),
{
    reveal(is_row_range);
    reveal(row_range_fails);
    let dtype = range_type(start.dtype@, every, time_unit);
    let zone = target_zone(&start.dtype, every, time_unit, time_zone);
    let n = start.values@.len() as int;
    match r {
        Ok(out) => {
            assert forall|i: int| 0 <= i < n implies {
                &&& (#[trigger] out.values@[i]) is None <==> (start.values@[i] is None
                    || stop.values@[i] is None)
                &&& (start.values@[i] matches Some(a) && stop.values@[i] matches Some(b)
                    && bound_of(a as int, start.dtype@, dtype) matches Ok(s) && bound_of(
                    b as int,
                    stop.dtype@,
                    dtype,
                ) matches Ok(e) && s > e && interval_is_positive(every, range_unit(dtype)))
                    ==> (out.values@[i] matches Some(list) && list@.len() == 0)
            } by {
                assert(is_row_range(
                    list_view(out.values@[i]),
                    start.values@[i],
                    stop.values@[i],
                    start.dtype@,
                    stop.dtype@,
                    dtype,
                    every,
                    closed,
                    zone,
                ));
                if start.values@[i] is Some && stop.values@[i] is Some {
                    let a = start.values@[i].unwrap();
                    let b = stop.values@[i].unwrap();
                    if bound_of(a as int, start.dtype@, dtype) is Ok && bound_of(
                        b as int,
                        stop.dtype@,
                        dtype,
                    ) is Ok {
                        let s = bound_of(a as int, start.dtype@, dtype)->Ok_0;
                        let e = bound_of(b as int, stop.dtype@, dtype)->Ok_0;
                        let list = out.values@[i].unwrap()@;
                        if s > e && interval_is_positive(every, range_unit(dtype)) {
                            let local = choose|local: Seq<i64>| #[trigger]
                                is_finished_range(
                                    local,
                                    list,
                                    s,
                                    e,
                                    every,
                                    closed,
                                    range_unit(dtype),
                                    zone,
                                    dtype is Date,
                                );
                            assert(local.len() == 0);
                        }
                    }
                }
            }
        },
        Err(e) => {
            let (i, done) = choose|i: int, done: Seq<Option<Vec<i64>>>| #[trigger]
                ranges_fail_at(i, done, e@, start, stop, dtype, every, closed, zone);
            assert(present_ranges_fail_at(i, done, e@, start, stop, dtype, every, closed, zone));
        },
    }
}

} // verus!
