//! Dates combined with times of day into instants.

use vstd::prelude::*;
use vstd::string::*;
use crate::arith::{checked, floor_div, lift, lift_value, narrow};
use crate::column::{broadcast_len, broadcast_rows, row_of, IsSorted};
use crate::error::{row_outcome, Failure, Reason, TemporalError};
use crate::offset::type_zone;
use crate::series::{
    cast_value, cast_value_spec, unsupported, TemporalSeries, TemporalType, TypeModel,
};
use crate::temporal::{zone_error, zone_failure};
use crate::timezone::{duplicate_zone, instant_of, to_instant_in, Zone};
use crate::units::TimeUnit;

verus! {

/// The instant of the time of day `t`, in nanoseconds since midnight, on
/// the date of the value `d`: the clock reading is taken in the zone of
/// the date's type, if it has one, and a reading that the zone shows twice
/// or never is an error.
pub open spec fn combined(d: int, t: int, from: &TemporalType, tu: TimeUnit) -> Result<int, Reason> {
    match cast_value_spec(d, from@, TypeModel::Date) {
        Err(e) => Err(e),
        Ok(day) => match checked(day * tu.ticks_per_day() + t / tu.ns_per_tick()) {
            Err(e) => Err(e),
            Ok(local) => instant_of(type_zone(from), local, tu),
        },
    }
}

/// Combines one date with one time of day.
pub fn combine_values(d: i64, t: i64, from: &TemporalType, tu: TimeUnit) -> (r: Result<i64, Reason>)
    ensures
        lift(r) == combined(d as int, t as int, from, tu),
{
    match cast_value(d, from, &TemporalType::Date) {
        Err(e) => Err(e),
        Ok(day) => {
            let ticks: i64 = floor_div(t, tu.nanos_per_tick());
            let wide: i128 = match tu {
                TimeUnit::Nanoseconds => day as i128 * 86_400_000_000_000 + ticks as i128,
                TimeUnit::Microseconds => day as i128 * 86_400_000_000 + ticks as i128,
                TimeUnit::Milliseconds => day as i128 * 86_400_000 + ticks as i128,
            };
            match narrow(wide) {
                Err(e) => Err(e),
                Ok(local) => {
                    let zone: Option<&Zone> = match from {
                        TemporalType::Datetime(_, Some(z)) => Some(z),
                        _ => None,
                    };
                    to_instant_in(zone, local, tu)
                },
            }
        },
    }
}

/// What one row gives: a null where the date or the time is null, else
/// their instant.
#[verifier::opaque]
pub open spec fn combine_row(d: Option<i64>, t: Option<i64>, from: &TemporalType, tu: TimeUnit) -> Result<
    Option<int>,
    Failure,
> {
    match (d, t) {
        (Some(d), Some(t)) => match combined(d as int, t as int, from, tu) {
            Ok(x) => Ok(Some(x)),
            Err(reason) => Err(
                zone_failure(
                    reason,
                    match type_zone(from) {
                        Some(z) => Some(z@),
                        None => None,
                    },
                ),
            ),
        },
        _ => Ok(None),
    }
}

/// Row `i` fails with `f` and no row before it fails.
pub open spec fn combine_fails_first_at(
    i: int,
    f: Failure,
    n: int,
    dates: Seq<Option<i64>>,
    times: Seq<Option<i64>>,
    from: &TemporalType,
    tu: TimeUnit,
) -> bool {
    &&& 0 <= i < n
    &&& combine_row(row_of(dates, i), row_of(times, i), from, tu) == Err::<Option<int>, Failure>(f)
    &&& forall|j: int|
        0 <= j < i ==> (#[trigger] combine_row(row_of(dates, j), row_of(times, j), from, tu)) is Ok
}

/// Some row is the first to fail, and fails with `f`.
pub open spec fn combine_fails(
    f: Failure,
    n: int,
    dates: Seq<Option<i64>>,
    times: Seq<Option<i64>>,
    from: &TemporalType,
    tu: TimeUnit,
) -> bool {
    exists|i: int| #[trigger] combine_fails_first_at(i, f, n, dates, times, from, tu)
}

/// What `combine` returns: a failure that names the type found where the
/// first series holds times of day or the second holds anything else; a
/// failure where the two differ in length and neither has one row; else one instant for each row, in a
/// series named as the first, in the unit asked for and the zone of the
/// first; or the failure of the first row that fails.
pub open spec fn is_combined(
    r: Result<TemporalSeries, TemporalError>,
    date: &TemporalSeries,
    time: &TemporalSeries,
    tu: TimeUnit,
) -> bool {
    if date.dtype@ is Time {
        r matches Err(e) && e@ == unsupported(date.dtype@)
    } else if !(time.dtype@ is Time) {
        r matches Err(e) && e@ == unsupported(time.dtype@)
    } else {
        match broadcast_len(date.values@.len(), time.values@.len()) {
            None => r matches Err(e) && e@ == (Failure {
                reason: Reason::LengthMismatch,
                literal: Seq::empty(),
            }),
            Some(n) => match r {
                Ok(out) => {
                    &&& out.values@.len() == n
                    &&& forall|i: int|
                        0 <= i < n ==> combine_row(
                            row_of(date.values@, i),
                            row_of(time.values@, i),
                            &date.dtype,
                            tu,
                        ) == Ok::<Option<int>, Failure>(lift_value(#[trigger] out.values@[i]))
                    &&& out.name == date.name
                    &&& out.dtype@ == TypeModel::Datetime(
                        tu,
                        match type_zone(&date.dtype) {
                            Some(z) => Some(z@),
                            None => None,
                        },
                    )
                    &&& out.sorted == IsSorted::Not
                },
                Err(e) => combine_fails(e@, n as int, date.values@, time.values@, &date.dtype, tu),
            },
        }
    }
}

/// Combines one row.
fn combine_one_row(d: Option<i64>, t: Option<i64>, from: &TemporalType, tu: TimeUnit) -> (r: Result<
    Option<i64>,
    TemporalError,
>)
    ensures
        row_outcome(r) == combine_row(d, t, from, tu),
{
    reveal(combine_row);
    match (d, t) {
        (Some(d), Some(t)) => match combine_values(d, t, from, tu) {
            Ok(x) => Ok(Some(x)),
            Err(reason) => {
                let zone: Option<&Zone> = match from {
                    TemporalType::Datetime(_, Some(z)) => Some(z),
                    _ => None,
                };
                Err(zone_error(reason, zone))
            },
        },
        _ => Ok(None),
    }
}

/// The instants of the times of day of `s[1]` on the dates of `s[0]`, row
/// by row, in ticks of `tu`. A series of one row stands for every row; a
/// null in either gives a null.
#[verifier::loop_isolation(false)]
pub fn combine(s: &[TemporalSeries], tu: TimeUnit) -> (r: Result<TemporalSeries, TemporalError>)
    requires
        s@.len() >= 2,
    ensures
        is_combined(r, &s@[0], &s@[1], tu),
{
    let date: &TemporalSeries = &s[0];
    let time: &TemporalSeries = &s[1];
    let zone: Option<Zone> = match &date.dtype {
        TemporalType::Time => {
            return Err(date.dtype.unsupported_error());
        },
        TemporalType::Date => None,
        TemporalType::Datetime(_, zone) => duplicate_zone(zone),
    };
    match time.dtype {
        TemporalType::Time => {},
        _ => {
            return Err(time.dtype.unsupported_error());
        },
    }
    let n: usize = match broadcast_rows(date.values.len(), time.values.len()) {
        Some(n) => n,
        None => {
            return Err(TemporalError::new(Reason::LengthMismatch));
        },
    };
    let mut out: Vec<Option<i64>> = Vec::new();
    let mut i: usize = 0;
    while i < n
        invariant
            i <= n,
            out@.len() == i,
            forall|j: int|
                #![trigger out@[j]]
                #![trigger row_of(date.values@, j)]
                0 <= j < i ==> combine_row(
                    row_of(date.values@, j),
                    row_of(time.values@, j),
                    &date.dtype,
                    tu,
                ) == Ok::<Option<int>, Failure>(lift_value(out@[j])),
        decreases n - i,
    {
        let d: Option<i64> = if date.values.len() == 1 {
            date.values[0]
        } else {
            date.values[i]
        };
        let t: Option<i64> = if time.values.len() == 1 {
            time.values[0]
        } else {
            time.values[i]
        };
        match combine_one_row(d, t, &date.dtype, tu) {
            Ok(v) => {
                out.push(v);
            },
            Err(e) => {
                assert(combine_fails_first_at(
                    i as int,
                    e@,
                    n as int,
                    date.values@,
                    time.values@,
                    &date.dtype,
                    tu,
                ));
                return Err(e);
            },
        }
        i = i + 1;
    }
    Ok(
        TemporalSeries {
            name: date.name.clone(),
            dtype: TemporalType::Datetime(tu, zone),
            values: out,
            sorted: IsSorted::Not,
        },
    )
}

} // verus!
