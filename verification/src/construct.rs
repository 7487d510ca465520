//! Instants built from columns of calendar parts.

use vstd::prelude::*;
use vstd::string::*;
use crate::arith::{checked, lift_opt, lift_value, narrow};
use crate::calendar::{civil_to_epoch_day, epoch_day_of_civil};
use crate::column::{DatetimeColumn, IsSorted};
use crate::error::{Failure, Reason, TemporalError};
use crate::replace_time_zone::{parse_time_zone, replace_instant, replaced_instant};
use crate::timezone::{zone_known, AmbiguousPolicy, Zone, ZoneModel};
use crate::units::TimeUnit;

verus! {

/// A named column of integers.
#[derive(Debug)]
pub struct IntSeries {
    pub name: String,
    pub values: Vec<Option<i64>>,
}

/// The calendar parts of one row: year, month, day, hour, minute, second
/// and microsecond.
pub struct Parts {
    pub year: Option<i64>,
    pub month: Option<i64>,
    pub day: Option<i64>,
    pub hour: Option<i64>,
    pub minute: Option<i64>,
    pub second: Option<i64>,
    pub microsecond: Option<i64>,
}

/// Whether the parts name a time of day: the hour below 24, the minute and
/// the second below 60, the microsecond below one second, or below two in
/// second 59, which is how a leap second is written.
pub open spec fn is_time_of_day(hour: int, minute: int, second: int, microsecond: int) -> bool {
    &&& 0 <= hour < 24
    &&& 0 <= minute < 60
    &&& 0 <= second < 60
    &&& 0 <= microsecond
    &&& (microsecond < 1_000_000 || (second == 59 && microsecond < 2_000_000))
}

/// Microseconds as ticks of `tu`, rounded down.
pub open spec fn micros_as_ticks(us: int, tu: TimeUnit) -> int {
    match tu {
        TimeUnit::Nanoseconds => us * 1_000,
        TimeUnit::Microseconds => us,
        TimeUnit::Milliseconds => us / 1_000,
    }
}

/// The count of ticks, on a clock without a zone, of the date and time
/// that the parts name. A null part gives a null, and so do parts that
/// name no date or no time of day, a year beyond 32 bits among them. A
/// count that does not fit is out of range.
pub open spec fn naive_instant(p: Parts, tu: TimeUnit) -> Result<Option<int>, Reason> {
    match (p.year, p.month, p.day, p.hour, p.minute, p.second, p.microsecond) {
        (Some(y), Some(m), Some(d), Some(h), Some(mi), Some(s), Some(us)) => {
            if !(i32::MIN <= y <= i32::MAX) || !(1 <= m <= 12) || !(1 <= d <= 31)
                || !is_time_of_day(h as int, mi as int, s as int, us as int) {
                Ok(None)
            } else {
                match epoch_day_of_civil(y as int, m as int, d as int) {
                    None => Ok(None),
                    Some(day) => match checked(
                        day * tu.ticks_per_day() + (h * 3600 + mi * 60 + s)
                            * tu.ticks_per_second() + micros_as_ticks(us as int, tu),
                    ) {
                        Ok(t) => Ok(Some(t)),
                        Err(e) => Err(e),
                    },
                }
            }
        },
        _ => Ok(None),
    }
}

/// Computes the count of ticks that the parts name.
pub fn naive_datetime(p: &Parts, tu: TimeUnit) -> (r: Result<Option<i64>, Reason>)
    ensures
        lift_opt(r) == naive_instant(*p, tu),
{
    match (p.year, p.month, p.day, p.hour, p.minute, p.second, p.microsecond) {
        (Some(y), Some(m), Some(d), Some(h), Some(mi), Some(s), Some(us)) => {
            if y < i32::MIN as i64 || y > i32::MAX as i64 || m < 1 || m > 12 || d < 1 || d > 31 {
                return Ok(None);
            }
            if h < 0 || h >= 24 || mi < 0 || mi >= 60 || s < 0 || s >= 60 || us < 0 {
                return Ok(None);
            }
            if !(us < 1_000_000 || (s == 59 && us < 2_000_000)) {
                return Ok(None);
            }
            match civil_to_epoch_day(y as i32, m as u32, d as u32) {
                None => Ok(None),
                Some(day) => {
                    let days: i128 = day as i128;
                    let secs: i128 = (h * 3600 + mi * 60 + s) as i128;
                    let micros: i128 = us as i128;
                    let wide: i128 = match tu {
                        TimeUnit::Nanoseconds => days * 86_400_000_000_000 + secs * 1_000_000_000
                            + micros * 1_000,
                        TimeUnit::Microseconds => days * 86_400_000_000 + secs * 1_000_000 + micros,
                        TimeUnit::Milliseconds => days * 86_400_000 + secs * 1_000 + micros / 1_000,
                    };
                    match narrow(wide) {
                        Ok(t) => Ok(Some(t)),
                        Err(e) => Err(e),
                    }
                },
            }
        },
        _ => Ok(None),
    }
}

/// The policy that `use_earliest` stands for: the earlier instant, the
/// later, or, where nothing is said, a failure.
pub open spec fn policy_of(use_earliest: Option<bool>) -> AmbiguousPolicy {
    match use_earliest {
        Some(true) => AmbiguousPolicy::Earliest,
        Some(false) => AmbiguousPolicy::Latest,
        None => AmbiguousPolicy::Raise,
    }
}

/// The value of a column of parts in row `i` of `n` rows: a column shorter
/// than `n` gives its first value to every row.
pub open spec fn part_at(values: Seq<Option<i64>>, n: int, i: int) -> Option<i64> {
    if values.len() < n {
        values[0]
    } else {
        values[i]
    }
}

/// The greatest of the lengths of seven columns.
pub open spec fn rows_of(s: Seq<IntSeries>) -> int {
    let a = s[0].values@.len() as int;
    let b = if s[1].values@.len() > a { s[1].values@.len() as int } else { a };
    let c = if s[2].values@.len() > b { s[2].values@.len() as int } else { b };
    let d = if s[3].values@.len() > c { s[3].values@.len() as int } else { c };
    let e = if s[4].values@.len() > d { s[4].values@.len() as int } else { d };
    let f = if s[5].values@.len() > e { s[5].values@.len() as int } else { e };
    if s[6].values@.len() > f {
        s[6].values@.len() as int
    } else {
        f
    }
}

/// The parts of row `i`.
pub open spec fn parts_at(s: Seq<IntSeries>, i: int) -> Parts {
    let n = rows_of(s);
    Parts {
        year: part_at(s[0].values@, n, i),
        month: part_at(s[1].values@, n, i),
        day: part_at(s[2].values@, n, i),
        hour: part_at(s[3].values@, n, i),
        minute: part_at(s[4].values@, n, i),
        second: part_at(s[5].values@, n, i),
        microsecond: part_at(s[6].values@, n, i),
    }
}

/// Whether some column is empty while another is not.
pub open spec fn has_empty_part(s: Seq<IntSeries>) -> bool {
    rows_of(s) > 0 && exists|k: int| 0 <= k < 7 && (#[trigger] s[k]).values@.len() == 0
}

/// The clock readings of all rows are in `naive`.
pub open spec fn is_naive_column(naive: Seq<Option<i64>>, s: Seq<IntSeries>, tu: TimeUnit) -> bool {
    &&& naive.len() == rows_of(s)
    &&& forall|i: int|
        0 <= i < naive.len() ==> naive_instant(parts_at(s, i), tu) == Ok::<Option<int>, Reason>(
            lift_value(#[trigger] naive[i]),
        )
}

/// Row `i` is the first whose clock reading is out of range.
pub open spec fn naive_fails_at(i: int, s: Seq<IntSeries>, tu: TimeUnit) -> bool {
    &&& 0 <= i < rows_of(s)
    &&& naive_instant(parts_at(s, i), tu) is Err
    &&& forall|j: int| 0 <= j < i ==> (#[trigger] naive_instant(parts_at(s, j), tu)) is Ok
}

/// Some row has a clock reading that is out of range.
pub open spec fn naive_fails(s: Seq<IntSeries>, tu: TimeUnit) -> bool {
    exists|i: int| #[trigger] naive_fails_at(i, s, tu)
}

/// The instant of a clock reading in the zone, under the policy; a null
/// stays a null.
pub open spec fn placed(
    local: Option<i64>,
    tu: TimeUnit,
    zone: ZoneModel,
    policy: AmbiguousPolicy,
) -> Result<Option<int>, Reason> {
    match local {
        None => Ok(None),
        Some(t) => replaced_instant(t as int, tu, ZoneModel::Fixed(0), zone, Some(policy)),
    }
}

/// The instants of the clock readings `naive` are in `out`.
pub open spec fn is_placed(
    out: Seq<Option<i64>>,
    naive: Seq<Option<i64>>,
    tu: TimeUnit,
    zone: ZoneModel,
    policy: AmbiguousPolicy,
) -> bool {
    &&& out.len() == naive.len()
    &&& forall|i: int|
        0 <= i < naive.len() ==> placed(#[trigger] naive[i], tu, zone, policy) == Ok::<
            Option<int>,
            Reason,
        >(lift_value(out[i]))
}

/// The clock reading at `i` is the first that cannot be placed, and fails
/// for `reason`.
pub open spec fn placing_fails_at(
    i: int,
    reason: Reason,
    naive: Seq<Option<i64>>,
    tu: TimeUnit,
    zone: ZoneModel,
    policy: AmbiguousPolicy,
) -> bool {
    &&& 0 <= i < naive.len()
    &&& placed(naive[i], tu, zone, policy) == Err::<Option<int>, Reason>(reason)
    &&& forall|j: int| 0 <= j < i ==> (#[trigger] placed(naive[j], tu, zone, policy)) is Ok
}

/// Some clock reading cannot be placed, for `reason`.
pub open spec fn placing_fails(
    reason: Reason,
    naive: Seq<Option<i64>>,
    tu: TimeUnit,
    zone: ZoneModel,
    policy: AmbiguousPolicy,
) -> bool {
    exists|i: int| #[trigger] placing_fails_at(i, reason, naive, tu, zone, policy)
}

/// The clock readings of all rows.
fn naive_column(s: &[IntSeries], tu: TimeUnit) -> (r: Result<Vec<Option<i64>>, Reason>)
    requires
        s@.len() >= 7,
    ensures
        match r {
            Ok(naive) => !has_empty_part(s@) && is_naive_column(naive@, s@, tu),
            Err(reason) => if has_empty_part(s@) {
                reason == Reason::LengthMismatch
            } else {
                reason == Reason::OutOfRange && naive_fails(s@, tu)
            },
        },
{
    let mut n: usize = s[0].values.len();
    if s[1].values.len() > n {
        n = s[1].values.len();
    }
    if s[2].values.len() > n {
        n = s[2].values.len();
    }
    if s[3].values.len() > n {
        n = s[3].values.len();
    }
    if s[4].values.len() > n {
        n = s[4].values.len();
    }
    if s[5].values.len() > n {
        n = s[5].values.len();
    }
    if s[6].values.len() > n {
        n = s[6].values.len();
    }
    assert(n == rows_of(s@));
    if n > 0 && (s[0].values.len() == 0 || s[1].values.len() == 0 || s[2].values.len() == 0
        || s[3].values.len() == 0 || s[4].values.len() == 0 || s[5].values.len() == 0
        || s[6].values.len() == 0) {
        return Err(Reason::LengthMismatch);
    }
    assert(!has_empty_part(s@));
    let mut out: Vec<Option<i64>> = Vec::new();
    let mut i: usize = 0;
    while i < n
        invariant
            s@.len() >= 7,
            n == rows_of(s@),
            !has_empty_part(s@),
            n > 0 ==> forall|k: int| 0 <= k < 7 ==> (#[trigger] s@[k]).values@.len() > 0,
            i <= n,
            out@.len() == i,
            forall|j: int|
                #![trigger out@[j]]
                #![trigger parts_at(s@, j)]
                0 <= j < i ==> naive_instant(parts_at(s@, j), tu) == Ok::<Option<int>, Reason>(
                    lift_value(out@[j]),
                ),
        decreases n - i,
    {
        let parts = Parts {
            year: pick(&s[0].values, n, i),
            month: pick(&s[1].values, n, i),
            day: pick(&s[2].values, n, i),
            hour: pick(&s[3].values, n, i),
            minute: pick(&s[4].values, n, i),
            second: pick(&s[5].values, n, i),
            microsecond: pick(&s[6].values, n, i),
        };
        assert(parts == parts_at(s@, i as int));
        match naive_datetime(&parts, tu) {
            Ok(v) => {
                out.push(v);
            },
            Err(reason) => {
                assert(naive_fails_at(i as int, s@, tu));
                return Err(Reason::OutOfRange);
            },
        }
        i = i + 1;
    }
    Ok(out)
}

/// The value of a column of parts in row `i` of `n` rows.
fn pick(values: &Vec<Option<i64>>, n: usize, i: usize) -> (r: Option<i64>)
    requires
        values@.len() <= n,
        values@.len() > 0,
        i < n,
    ensures
        r == part_at(values@, n as int, i as int),
{
    if values.len() < n {
        values[0]
    } else {
        values[i]
    }
}

/// Places each clock reading in the zone.
fn place_all(naive: &Vec<Option<i64>>, tu: TimeUnit, zone: &Zone, policy: AmbiguousPolicy) -> (r:
    Result<Vec<Option<i64>>, Reason>)
    ensures
        match r {
            Ok(out) => is_placed(out@, naive@, tu, zone@, policy),
            Err(reason) => placing_fails(reason, naive@, tu, zone@, policy),
        },
{
    let utc = Zone::Fixed(0);
    let mut out: Vec<Option<i64>> = Vec::new();
    let mut i: usize = 0;
    while i < naive.len()
        invariant
            i <= naive.len(),
            utc@ == ZoneModel::Fixed(0),
            out@.len() == i,
            forall|j: int|
                #![trigger naive@[j]]
                0 <= j < i ==> placed(naive@[j], tu, zone@, policy) == Ok::<Option<int>, Reason>(
                    lift_value(out@[j]),
                ),
        decreases naive.len() - i,
    {
        match naive[i] {
            None => {
                out.push(None);
            },
            Some(t) => match replace_instant(t, tu, &utc, zone, Some(policy)) {
                Ok(v) => {
                    out.push(v);
                },
                Err(reason) => {
                    assert(placing_fails_at(i as int, reason, naive@, tu, zone@, policy));
                    return Err(reason);
                },
            },
        }
        i = i + 1;
    }
    Ok(out)
}

/// Some clock readings `naive` of all rows are placed in `out`.
pub open spec fn places_some_column(
    out: Seq<Option<i64>>,
    s: Seq<IntSeries>,
    tu: TimeUnit,
    zone: ZoneModel,
    policy: AmbiguousPolicy,
) -> bool {
    exists|naive: Seq<Option<i64>>| #[trigger]
        is_naive_column(naive, s, tu) && is_placed(out, naive, tu, zone, policy)
}

/// Some clock reading of the rows cannot be placed, for `reason`.
pub open spec fn fails_to_place_some_column(
    reason: Reason,
    s: Seq<IntSeries>,
    tu: TimeUnit,
    zone: ZoneModel,
    policy: AmbiguousPolicy,
) -> bool {
    exists|naive: Seq<Option<i64>>| #[trigger]
        is_naive_column(naive, s, tu) && placing_fails(reason, naive, tu, zone, policy)
}

/// What `datetime` returns. An empty column beside a column that is not
/// empty fails the call; then a row whose clock reading is out of range;
/// then a zone that is not known; then a clock reading that cannot be
/// placed in the zone. Else the column is named `datetime`, in the unit
/// and the zone asked for, and holds the instants of the rows.
pub open spec fn is_datetime(
    r: Result<DatetimeColumn, TemporalError>,
    s: Seq<IntSeries>,
    tu: TimeUnit,
    time_zone: Option<&str>,
    use_earliest: Option<bool>,
) -> bool {
    if has_empty_part(s) {
        r matches Err(e) && e@ == (Failure { reason: Reason::LengthMismatch, literal: Seq::empty() })
    } else if naive_fails(s, tu) {
        r matches Err(e) && e@ == (Failure { reason: Reason::OutOfRange, literal: Seq::empty() })
    } else {
        match time_zone {
            None => r matches Ok(out) && is_naive_column(out.values@, s, tu) && out.name@
                == "datetime"@ && out.time_unit == tu && out.time_zone is None && out.sorted
                == IsSorted::Not,
            Some(text) => if !zone_known(text@) {
                r matches Err(e) && e@ == (Failure {
                    reason: Reason::UnknownTimeZone,
                    literal: text@,
                })
            } else {
                match r {
                    Ok(out) => {
                        &&& places_some_column(
                            out.values@,
                            s,
                            tu,
                            ZoneModel::Named(text@),
                            policy_of(use_earliest),
                        )
                        &&& out.name@ == "datetime"@
                        &&& out.time_unit == tu
                        &&& out.time_zone matches Some(z)
                        &&& z@ == ZoneModel::Named(text@)
                        &&& out.sorted == IsSorted::Not
                    },
                    Err(e) => e.literal@ == text@ && fails_to_place_some_column(
                        e.reason,
                        s,
                        tu,
                        ZoneModel::Named(text@),
                        policy_of(use_earliest),
                    ),
                }
            },
        }
    }
}

/// A row cannot both have a clock reading and have one out of range.
proof fn lemma_naive_column_excludes_failure(naive: Seq<Option<i64>>, s: Seq<IntSeries>, tu: TimeUnit)
    requires
        is_naive_column(naive, s, tu),
    ensures
        !naive_fails(s, tu),
{
    if naive_fails(s, tu) {
        let i = choose|i: int| #[trigger] naive_fails_at(i, s, tu);
        assert(naive_instant(parts_at(s, i), tu) == Ok::<Option<int>, Reason>(lift_value(naive[i])));
    }
}

/// A column of instants from seven columns of calendar parts: year, month,
/// day, hour, minute, second and microsecond. A column shorter than the
/// longest gives its first value to every row. A row with a null, or whose
/// parts name no date and time, gives a null. In a zone, the date and time
/// are read on the clock of the zone; a reading that the zone shows twice
/// is resolved as `use_earliest` says.
pub fn datetime(
    s: &[IntSeries],
    time_unit: &TimeUnit,
    time_zone: Option<&str>,
    use_earliest: Option<bool>,
) -> (r: Result<DatetimeColumn, TemporalError>)
    requires
        s@.len() >= 7,
    ensures
        is_datetime(r, s@, *time_unit, time_zone, use_earliest),
{
    let tu: TimeUnit = *time_unit;
    let naive: Vec<Option<i64>> = match naive_column(s, tu) {
        Ok(naive) => naive,
        Err(reason) => {
            return Err(TemporalError::new(reason));
        },
    };
    proof {
        lemma_naive_column_excludes_failure(naive@, s@, tu);
    }
    match time_zone {
        None => Ok(
            DatetimeColumn {
                name: String::from_str("datetime"),
                values: naive,
                time_unit: tu,
                time_zone: None,
                sorted: IsSorted::Not,
            },
        ),
        Some(text) => {
            let zone: Zone = match parse_time_zone(text) {
                Ok(zone) => zone,
                Err(e) => {
                    return Err(e);
                },
            };
            let policy: AmbiguousPolicy = match use_earliest {
                Some(true) => AmbiguousPolicy::Earliest,
                Some(false) => AmbiguousPolicy::Latest,
                None => AmbiguousPolicy::Raise,
            };
            match place_all(&naive, tu, &zone, policy) {
                Err(reason) => Err(TemporalError::with_literal(reason, text)),
                Ok(values) => Ok(
                    DatetimeColumn {
                        name: String::from_str("datetime"),
                        values,
                        time_unit: tu,
                        time_zone: Some(zone),
                        sorted: IsSorted::Not,
                    },
                ),
            }
        },
    }
}

} // verus!
