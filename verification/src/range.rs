//! Ranges of instants: every instant from a start, one interval apart, up to
//! an end or for a number of periods.

use vstd::prelude::*;
use vstd::string::*;
use crate::arith::lift;
use crate::calendar::{CivilDateTime, CivilTime};
use crate::column::{all_present, DatetimeColumn, IsSorted, TimeColumn};
use crate::duration::Duration;
use crate::error::{Reason, TemporalError};
use crate::text::{range_error, range_failure};
use crate::timezone::Zone;
use crate::units::TimeUnit;

verus! {

/// Which ends of a range belong to it.
#[derive(Clone, Copy, Debug, PartialEq, Eq, Structural)]
pub enum ClosedWindow {
    Left,
    Right,
    Both,
    Neither,
}

impl ClosedWindow {
    /// The index of the first instant of a range: 0 where the start
    /// belongs to it, else 1.
    pub open spec fn spec_first_index(self) -> int {
        match self {
            ClosedWindow::Both | ClosedWindow::Left => 0,
            ClosedWindow::Right | ClosedWindow::Neither => 1,
        }
    }

    /// Whether an instant is still inside a range that ends at `end`.
    pub open spec fn spec_admits(self, t: int, end: int) -> bool {
        match self {
            ClosedWindow::Both | ClosedWindow::Right => t <= end,
            ClosedWindow::Left | ClosedWindow::Neither => t < end,
        }
    }

    pub fn first_index(self) -> (r: i64)
        ensures
            r == self.spec_first_index(),
    {
        match self {
            ClosedWindow::Both | ClosedWindow::Left => 0,
            ClosedWindow::Right | ClosedWindow::Neither => 1,
        }
    }

    pub fn admits(self, t: i64, end: i64) -> (r: bool)
        ensures
            r == self.spec_admits(t as int, end as int),
    {
        match self {
            ClosedWindow::Both | ClosedWindow::Right => t <= end,
            ClosedWindow::Left | ClosedWindow::Neither => t < end,
        }
    }
}

/// Whether an interval moves time forward: it is not negative, not zero,
/// and, where it has no calendar part, at least one tick long.
pub open spec fn interval_is_positive(interval: Duration, tu: TimeUnit) -> bool {
    !interval.negative && !interval.spec_is_zero() && (interval.spec_has_calendar_part()
        || interval.nsecs as int / tu.ns_per_tick() > 0)
}

/// The instant `k` intervals after `start`.
pub open spec fn instant_at(
    start: int,
    interval: Duration,
    k: int,
    tu: TimeUnit,
    zone: Option<&Zone>,
) -> Result<int, Reason> {
    match interval.spec_scaled(k) {
        None => Err(Reason::OutOfRange),
        Some(d) => d.spec_add(start, tu, zone),
    }
}

/// Computes the instant `k` intervals after `start`.
pub fn nth_instant(
    start: i64,
    interval: &Duration,
    k: i64,
    tu: TimeUnit,
    zone: Option<&Zone>,
) -> (r: Result<i64, Reason>)
    requires
        interval.wf(),
        k >= 0,
    ensures
        lift(r) == instant_at(start as int, *interval, k as int, tu, zone),
{
    match interval.scaled(k) {
        None => Err(Reason::OutOfRange),
        Some(d) => d.add(start, tu, zone),
    }
}

/// `v` holds, in order, the instants at the indexes `first`, `first + 1`,
/// ... of the progression from `start`.
pub open spec fn follows_progression(
    v: Seq<i64>,
    start: int,
    interval: Duration,
    first: int,
    tu: TimeUnit,
    zone: Option<&Zone>,
) -> bool {
    forall|j: int|
        0 <= j < v.len() ==> instant_at(start, interval, first + j, tu, zone) == Ok::<int, Reason>(
            #[trigger] v[j] as int,
        )
}

/// Each element is greater than the one before it.
pub open spec fn strictly_increasing(v: Seq<i64>) -> bool {
    forall|i: int, j: int| 0 <= i < j < v.len() ==> v[i] < v[j]
}

/// Every element is inside the range that ends at `end`.
pub open spec fn all_admitted(v: Seq<i64>, closed: ClosedWindow, end: int) -> bool {
    forall|j: int| 0 <= j < v.len() ==> closed.spec_admits(#[trigger] v[j] as int, end)
}

/// A range up to `end` was cut short after `v` for `reason`: the next
/// instant cannot be computed, or is inside the range but does not come
/// after the last of `v`.
pub open spec fn until_breaks_after(
    v: Seq<i64>,
    start: int,
    end: int,
    interval: Duration,
    closed: ClosedWindow,
    tu: TimeUnit,
    zone: Option<&Zone>,
    reason: Reason,
) -> bool {
    &&& follows_progression(v, start, interval, closed.spec_first_index(), tu, zone)
    &&& strictly_increasing(v)
    &&& all_admitted(v, closed, end)
    &&& match instant_at(start, interval, closed.spec_first_index() + v.len(), tu, zone) {
        Err(e) => e == reason,
        Ok(x) => reason == Reason::OutOfRange && closed.spec_admits(x, end) && v.len() > 0 && x
            <= v.last(),
    }
}

/// A range up to `end` is cut short for `reason`.
pub open spec fn breaks_before(
    reason: Reason,
    start: int,
    end: int,
    interval: Duration,
    closed: ClosedWindow,
    tu: TimeUnit,
    zone: Option<&Zone>,
) -> bool {
    exists|v: Seq<i64>| #[trigger]
        until_breaks_after(v, start, end, interval, closed, tu, zone, reason)
}

/// What a range from `start` up to `end` is: the instants of the
/// progression, from the first index on, as long as they are inside the
/// range; an error where the interval is not positive, or where the
/// progression breaks before it leaves the range.
pub open spec fn is_range_until(
    r: Result<Seq<i64>, Reason>,
    start: int,
    end: int,
    interval: Duration,
    closed: ClosedWindow,
    tu: TimeUnit,
    zone: Option<&Zone>,
) -> bool {
    if !interval_is_positive(interval, tu) {
        r == Err::<Seq<i64>, Reason>(Reason::NonPositiveInterval)
    } else if start > end {
        r == Ok::<Seq<i64>, Reason>(Seq::empty())
    } else {
        match r {
            Ok(v) => {
                &&& follows_progression(v, start, interval, closed.spec_first_index(), tu, zone)
                &&& strictly_increasing(v)
                &&& all_admitted(v, closed, end)
                &&& match instant_at(start, interval, closed.spec_first_index() + v.len(), tu, zone) {
                    Ok(x) => !closed.spec_admits(x, end),
                    Err(_) => false,
                }
            },
            Err(e) => breaks_before(e, start, end, interval, closed, tu, zone),
        }
    }
}

/// A range of a number of periods was cut short after `v` for `reason`.
pub open spec fn periods_break_after(
    v: Seq<i64>,
    start: int,
    periods: int,
    interval: Duration,
    closed: ClosedWindow,
    tu: TimeUnit,
    zone: Option<&Zone>,
    reason: Reason,
) -> bool {
    &&& follows_progression(v, start, interval, closed.spec_first_index(), tu, zone)
    &&& strictly_increasing(v)
    &&& v.len() < periods
    &&& match instant_at(start, interval, closed.spec_first_index() + v.len(), tu, zone) {
        Err(e) => e == reason,
        Ok(x) => reason == Reason::OutOfRange && v.len() > 0 && x <= v.last(),
    }
}

/// A range of a number of periods is cut short for `reason`.
pub open spec fn breaks_within(
    reason: Reason,
    start: int,
    periods: int,
    interval: Duration,
    closed: ClosedWindow,
    tu: TimeUnit,
    zone: Option<&Zone>,
) -> bool {
    exists|v: Seq<i64>| #[trigger]
        periods_break_after(v, start, periods, interval, closed, tu, zone, reason)
}

/// What a range of `periods` periods from `start` is: `periods` instants
/// of the progression, from the first index on; none where `periods` is
/// not positive.
pub open spec fn is_range_periods(
    r: Result<Seq<i64>, Reason>,
    start: int,
    periods: int,
    interval: Duration,
    closed: ClosedWindow,
    tu: TimeUnit,
    zone: Option<&Zone>,
) -> bool {
    if !interval_is_positive(interval, tu) {
        r == Err::<Seq<i64>, Reason>(Reason::NonPositiveInterval)
    } else {
        match r {
            Ok(v) => {
                &&& follows_progression(v, start, interval, closed.spec_first_index(), tu, zone)
                &&& strictly_increasing(v)
                &&& v.len() == if periods > 0 {
                    periods
                } else {
                    0
                }
            },
            Err(e) => breaks_within(e, start, periods, interval, closed, tu, zone),
        }
    }
}

/// The elements of a fallible vector.
pub open spec fn seq_of(r: Result<Vec<i64>, Reason>) -> Result<Seq<i64>, Reason> {
    match r {
        Ok(v) => Ok(v@),
        Err(e) => Err(e),
    }
}

/// Whether an interval moves time forward.
pub fn positive_interval(interval: &Duration, tu: TimeUnit) -> (r: bool)
    requires
        interval.wf(),
    ensures
        r == interval_is_positive(*interval, tu),
{
    !interval.negative && !interval.is_zero() && (interval.has_calendar_part()
        || crate::arith::floor_div(interval.nsecs, tu.nanos_per_tick()) > 0)
}

/// An interval that moves time forward cannot be taken 2^63 - 1 times and
/// once more.
proof fn lemma_last_index(interval: Duration, tu: TimeUnit, k: int)
    requires
        interval.wf(),
        interval_is_positive(interval, tu),
        k > i64::MAX,
    ensures
        interval.spec_scaled(k) is None,
{
    if interval.months >= 1 {
        assert(interval.months * k >= k) by (nonlinear_arith)
            requires
                interval.months >= 1,
                k > 0,
        ;
    } else if interval.weeks >= 1 {
        assert(interval.weeks * k >= k) by (nonlinear_arith)
            requires
                interval.weeks >= 1,
                k > 0,
        ;
    } else if interval.days >= 1 {
        assert(interval.days * k >= k) by (nonlinear_arith)
            requires
                interval.days >= 1,
                k > 0,
        ;
    } else {
        assert(interval.nsecs >= 1);
        assert(interval.nsecs * k >= k) by (nonlinear_arith)
            requires
                interval.nsecs >= 1,
                k > 0,
        ;
    }
}

/// The instants from `start`, one interval apart, that lie inside the
/// range ending at `end`.
pub fn range_until(
    start: i64,
    end: i64,
    interval: &Duration,
    closed: ClosedWindow,
    tu: TimeUnit,
    zone: Option<&Zone>,
) -> (r: Result<Vec<i64>, Reason>)
    requires
        interval.wf(),
    ensures
        is_range_until(seq_of(r), start as int, end as int, *interval, closed, tu, zone),
{
    if !positive_interval(interval, tu) {
        return Err(Reason::NonPositiveInterval);
    }
    let mut ts: Vec<i64> = Vec::new();
    if start > end {
        return Ok(ts);
    }
    let first: i64 = closed.first_index();
    let mut k: i64 = first;
    let mut prev: i64 = start;
    loop
        invariant
            interval.wf(),
            interval_is_positive(*interval, tu),
            start <= end,
            first == closed.spec_first_index(),
            k == first + ts.len(),
            ts.len() > 0 ==> prev == ts@.last(),
            follows_progression(ts@, start as int, *interval, first as int, tu, zone),
            strictly_increasing(ts@),
            all_admitted(ts@, closed, end as int),
        decreases
                (if ts.len() == 0 {
                    end - i64::MIN + 1
                } else {
                    end - prev
                }),
    {
        let t: i64 = match nth_instant(start, interval, k, tu, zone) {
            Ok(t) => t,
            Err(e) => {
                assert(until_breaks_after(
                    ts@,
                    start as int,
                    end as int,
                    *interval,
                    closed,
                    tu,
                    zone,
                    e,
                ));
                return Err(e);
            },
        };
        if !closed.admits(t, end) {
            return Ok(ts);
        }
        if ts.len() > 0 && t <= prev {
            assert(until_breaks_after(
                ts@,
                start as int,
                end as int,
                *interval,
                closed,
                tu,
                zone,
                Reason::OutOfRange,
            ));
            return Err(Reason::OutOfRange);
        }
        ts.push(t);
        prev = t;
        if k == i64::MAX {
            proof {
                lemma_last_index(*interval, tu, k + 1);
                assert(until_breaks_after(
                    ts@,
                    start as int,
                    end as int,
                    *interval,
                    closed,
                    tu,
                    zone,
                    Reason::OutOfRange,
                ));
            }
            return Err(Reason::OutOfRange);
        }
        k = k + 1;
    }
}

/// The `periods` instants from `start`, one interval apart, that begin at
/// the first index.
pub fn range_periods(
    start: i64,
    periods: i64,
    interval: &Duration,
    closed: ClosedWindow,
    tu: TimeUnit,
    zone: Option<&Zone>,
) -> (r: Result<Vec<i64>, Reason>)
    requires
        interval.wf(),
    ensures
        is_range_periods(seq_of(r), start as int, periods as int, *interval, closed, tu, zone),
{
    if !positive_interval(interval, tu) {
        return Err(Reason::NonPositiveInterval);
    }
    let mut ts: Vec<i64> = Vec::new();
    let first: i64 = closed.first_index();
    let mut done: i64 = 0;
    let mut prev: i64 = start;
    while done < periods
        invariant
            interval.wf(),
            interval_is_positive(*interval, tu),
            first == closed.spec_first_index(),
            done == ts.len(),
            periods > 0 ==> done <= periods,
            periods <= 0 ==> done == 0,
            ts.len() > 0 ==> prev == ts@.last(),
            follows_progression(ts@, start as int, *interval, first as int, tu, zone),
            strictly_increasing(ts@),
        decreases periods - done,
    {
        let k: i64 = first + done;
        let t: i64 = match nth_instant(start, interval, k, tu, zone) {
            Ok(t) => t,
            Err(e) => {
                assert(periods_break_after(
                    ts@,
                    start as int,
                    periods as int,
                    *interval,
                    closed,
                    tu,
                    zone,
                    e,
                ));
                return Err(e);
            },
        };
        if ts.len() > 0 && t <= prev {
            assert(periods_break_after(
                ts@,
                start as int,
                periods as int,
                *interval,
                closed,
                tu,
                zone,
                Reason::OutOfRange,
            ));
            return Err(Reason::OutOfRange);
        }
        ts.push(t);
        prev = t;
        done = done + 1;
    }
    Ok(ts)
}

/// The instants of a range as 64-bit counts: up to `end`, or for `periods`
/// periods. Exactly one of the two is given.
pub fn datetime_range_i64(
    start: i64,
    end: Option<i64>,
    periods: Option<i64>,
    interval: Duration,
    closed: ClosedWindow,
    tu: TimeUnit,
    tz: Option<&Zone>,
) -> (r: Result<Vec<i64>, Reason>)
    requires
        interval.wf(),
        (end is Some) != (periods is Some),
    ensures
        is_range(seq_of(r), start as int, end, periods, interval, closed, tu, tz),
        interval.negative || interval.spec_is_zero() ==> r == Err::<Vec<i64>, Reason>(
            Reason::NonPositiveInterval,
        ),
        periods is None && interval_is_positive(interval, tu) && start > end.unwrap() ==> (r matches Ok(
            v,
        ) && v@.len() == 0),
{
    match periods {
        Some(p) => range_periods(start, p, &interval, closed, tu, tz),
        None => match end {
            Some(e) => range_until(start, e, &interval, closed, tu, tz),
            None => Err(Reason::OutOfRange),
        },
    }
}

/// The values of a column without nulls.
pub open spec fn present_values(values: Seq<Option<i64>>) -> Seq<i64> {
    Seq::new(values.len(), |i: int| values[i].unwrap())
}

/// No value of the column is null.
pub open spec fn no_nulls(values: Seq<Option<i64>>) -> bool {
    forall|i: int| 0 <= i < values.len() ==> (#[trigger] values[i]) is Some
}

/// What a range is for the bounds given, of which there is exactly one:
/// for `periods` periods, or up to `end`.
pub open spec fn is_range(
    r: Result<Seq<i64>, Reason>,
    start: int,
    end: Option<i64>,
    periods: Option<i64>,
    interval: Duration,
    closed: ClosedWindow,
    tu: TimeUnit,
    zone: Option<&Zone>,
) -> bool {
    match periods {
        Some(p) => is_range_periods(r, start, p as int, interval, closed, tu, zone),
        None => is_range_until(r, start, end.unwrap() as int, interval, closed, tu, zone),
    }
}

/// A copy of an optional zone behind a reference.
fn owned_zone(zone: Option<&Zone>) -> (z: Option<Zone>)
    ensures
        match (zone, z) {
            (Some(a), Some(b)) => *a == b,
            (None, None) => true,
            _ => false,
        },
{
    match zone {
        Some(zone) => Some(zone.duplicate()),
        None => None,
    }
}

/// A column of the instants of a range, in ascending order and without
/// nulls, in the zone given.
pub fn datetime_range_impl(
    name: &str,
    start: i64,
    end: Option<i64>,
    periods: Option<i64>,
    interval: Duration,
    closed: ClosedWindow,
    tu: TimeUnit,
    tz: Option<&Zone>,
) -> (r: Result<DatetimeColumn, TemporalError>)
    requires
        interval.wf(),
        (end is Some) != (periods is Some),
    ensures
        match r {
            Ok(out) => {
                &&& no_nulls(out.values@)
                &&& is_range(
                    Ok(present_values(out.values@)),
                    start as int,
                    end,
                    periods,
                    interval,
                    closed,
                    tu,
                    tz,
                )
                &&& out.name@ == name@
                &&& out.time_unit == tu
                &&& match (tz, out.time_zone) {
                    (Some(a), Some(b)) => *a == b,
                    (None, None) => true,
                    _ => false,
                }
                &&& out.sorted == IsSorted::Ascending
            },
            Err(e) => e@ == range_failure(e.reason, interval, None) && is_range(
                Err(e.reason),
                start as int,
                end,
                periods,
                interval,
                closed,
                tu,
                tz,
            ),
        },
{
    match datetime_range_i64(start, end, periods, interval, closed, tu, tz) {
        Err(reason) => Err(range_error(reason, &interval, None)),
        Ok(ts) => {
            let values: Vec<Option<i64>> = all_present(&ts);
            assert(present_values(values@) =~= ts@);
            Ok(
                DatetimeColumn {
                    name: name.to_owned(),
                    values,
                    time_unit: tu,
                    time_zone: owned_zone(tz),
                    sorted: IsSorted::Ascending,
                },
            )
        },
    }
}

/// The first of the bounds that has no count of ticks, if any.
pub open spec fn bounds_as_instants(
    start: CivilDateTime,
    end: Option<CivilDateTime>,
    tu: TimeUnit,
) -> Result<(int, Option<int>), Reason> {
    match start.spec_timestamp(tu) {
        Err(e) => Err(e),
        Ok(s) => match end {
            None => Ok((s, None)),
            Some(e) => match e.spec_timestamp(tu) {
                Err(reason) => Err(reason),
                Ok(e) => Ok((s, Some(e))),
            },
        },
    }
}

/// A column of the instants from `start`, one interval apart, up to `end`
/// or for `periods` periods, the bounds given as calendar dates and times.
/// A bound that cannot be counted in `tu` is out of range.
pub fn date_range(
    name: &str,
    start: CivilDateTime,
    end: Option<CivilDateTime>,
    periods: Option<i64>,
    interval: Duration,
    closed: ClosedWindow,
    tu: TimeUnit,
    tz: Option<&Zone>,
) -> (r: Result<DatetimeColumn, TemporalError>)
    requires
        interval.wf(),
        (end is Some) != (periods is Some),
    ensures
        match bounds_as_instants(start, end, tu) {
            Err(reason) => r matches Err(e) && e.reason == reason && e.literal@.len() == 0,
            Ok((s, e)) => match r {
                Ok(out) => {
                    &&& no_nulls(out.values@)
                    &&& is_range(
                        Ok(present_values(out.values@)),
                        s,
                        match e {
                            Some(e) => Some(e as i64),
                            None => None,
                        },
                        periods,
                        interval,
                        closed,
                        tu,
                        tz,
                    )
                    &&& out.name@ == name@
                    &&& out.time_unit == tu
                    &&& out.sorted == IsSorted::Ascending
                },
                Err(f) => f@ == range_failure(f.reason, interval, None) && is_range(
                    Err(f.reason),
                    s,
                    match e {
                        Some(e) => Some(e as i64),
                        None => None,
                    },
                    periods,
                    interval,
                    closed,
                    tu,
                    tz,
                ),
            },
        },
{
    let s: i64 = match start.timestamp(tu) {
        Ok(s) => s,
        Err(reason) => {
            return Err(TemporalError::new(reason));
        },
    };
    let e: Option<i64> = match end {
        None => None,
        Some(end) => match end.timestamp(tu) {
            Ok(e) => Some(e),
            Err(reason) => {
                return Err(TemporalError::new(reason));
            },
        },
    };
    datetime_range_impl(name, s, e, periods, interval, closed, tu, tz)
}

/// A column of the times of day from `start`, one interval apart, up to
/// `end`, as nanoseconds since midnight, in ascending order.
pub fn time_range_impl(
    name: &str,
    start: i64,
    end: i64,
    interval: Duration,
    closed: ClosedWindow,
) -> (r: Result<TimeColumn, TemporalError>)
    requires
        interval.wf(),
    ensures
        match r {
            Ok(out) => {
                &&& no_nulls(out.values@)
                &&& is_range_until(
                    Ok(present_values(out.values@)),
                    start as int,
                    end as int,
                    interval,
                    closed,
                    TimeUnit::Nanoseconds,
                    None,
                )
                &&& out.name@ == name@
                &&& out.sorted == IsSorted::Ascending
            },
            Err(e) => e@ == range_failure(e.reason, interval, None) && is_range_until(
                Err(e.reason),
                start as int,
                end as int,
                interval,
                closed,
                TimeUnit::Nanoseconds,
                None,
            ),
        },
{
    match range_until(start, end, &interval, closed, TimeUnit::Nanoseconds, None) {
        Err(reason) => Err(range_error(reason, &interval, None)),
        Ok(ts) => {
            let values: Vec<Option<i64>> = all_present(&ts);
            assert(present_values(values@) =~= ts@);
            Ok(TimeColumn { name: name.to_owned(), values, sorted: IsSorted::Ascending })
        },
    }
}

/// A column of the times of day from `start` to `end`, one interval apart.
/// A bound that is no time of day is out of range.
pub fn time_range(
    name: &str,
    start: CivilTime,
    end: CivilTime,
    interval: Duration,
    closed: ClosedWindow,
) -> (r: Result<TimeColumn, TemporalError>)
    requires
        interval.wf(),
    ensures
        if !start.spec_is_valid() || !end.spec_is_valid() {
            r matches Err(e) && e.reason == Reason::OutOfRange && e.literal@.len() == 0
        } else {
            match r {
                Ok(out) => {
                    &&& no_nulls(out.values@)
                    &&& is_range_until(
                        Ok(present_values(out.values@)),
                        start.spec_ns_of_day(),
                        end.spec_ns_of_day(),
                        interval,
                        closed,
                        TimeUnit::Nanoseconds,
                        None,
                    )
                    &&& out.name@ == name@
                    &&& out.sorted == IsSorted::Ascending
                },
                Err(e) => e@ == range_failure(e.reason, interval, None) && is_range_until(
                    Err(e.reason),
                    start.spec_ns_of_day(),
                    end.spec_ns_of_day(),
                    interval,
                    closed,
                    TimeUnit::Nanoseconds,
                    None,
                ),
            }
        },
{
    let s: i64 = match start.ns_of_day() {
        Ok(s) => s,
        Err(reason) => {
            return Err(TemporalError::new(reason));
        },
    };
    let e: i64 = match end.ns_of_day() {
        Ok(e) => e,
        Err(reason) => {
            return Err(TemporalError::new(reason));
        },
    };
    time_range_impl(name, s, e, interval, closed)
}

/// A range up to an end, with a fixed interval, holds no more instants
/// than the estimate made from its bounds: the steps that fit between
/// start and end, and one.
pub proof fn lemma_range_within_estimate(
    v: Seq<i64>,
    start: i64,
    end: i64,
    interval: Duration,
    closed: ClosedWindow,
    tu: TimeUnit,
    zone: Option<&Zone>,
)
    requires
        interval.wf(),
        !interval.spec_has_calendar_part(),
        is_range_until(Ok(v), start as int, end as int, interval, closed, tu, zone),
    ensures
        interval_is_positive(interval, tu),
        start > end ==> v.len() == 0,
        start <= end ==> v.len() <= (end - start) / (interval.nsecs as int / tu.ns_per_tick()) + 1,
{
    if start <= end && v.len() > 0 {
        let step = interval.nsecs as int / tu.ns_per_tick();
        let per_tick = tu.ns_per_tick();
        let j = v.len() - 1;
        let k = closed.spec_first_index() + j;
        assert(instant_at(start as int, interval, k, tu, zone) == Ok::<int, Reason>(v[j] as int));
        assert(closed.spec_admits(v[j] as int, end as int));
        let moved = (interval.nsecs * k) / per_tick;
        assert(moved >= k * step) by (nonlinear_arith)
            requires
                moved == (interval.nsecs * k) / per_tick,
                step == interval.nsecs as int / per_tick,
                per_tick > 0,
                interval.nsecs >= 0,
                k >= 0,
        ;
        assert(k <= (end - start) / step) by (nonlinear_arith)
            requires
                k * step <= end - start,
                step > 0,
                k >= 0,
        ;
    }
}

/// The instants of a progression with a fixed interval are counted from
/// the start: the instant at place `j` of a range lies `first + j`
/// intervals after `start`, the intervals taken together and then given in
/// ticks.
pub proof fn lemma_fixed_progression_values(
    v: Seq<i64>,
    start: i64,
    interval: Duration,
    first: int,
    tu: TimeUnit,
    zone: Option<&Zone>,
    j: int,
)
    requires
        interval.wf(),
        !interval.negative,
        !interval.spec_has_calendar_part(),
        first >= 0,
        0 <= j < v.len(),
        follows_progression(v, start as int, interval, first, tu, zone),
    ensures
        v[j] == start + ((first + j) * interval.nsecs) / tu.ns_per_tick(),
        interval.nsecs as int % tu.ns_per_tick() == 0 ==> v[j] == start + (first + j) * (
        interval.nsecs as int / tu.ns_per_tick()),
{
    let k = first + j;
    let per_tick = tu.ns_per_tick();
    assert(instant_at(start as int, interval, k, tu, zone) == Ok::<int, Reason>(v[j] as int));
    assert(interval.nsecs * k == k * interval.nsecs) by (nonlinear_arith);
    if interval.nsecs as int % per_tick == 0 {
        assert((k * interval.nsecs) / per_tick == k * (interval.nsecs as int / per_tick))
            by (nonlinear_arith)
            requires
                interval.nsecs as int % per_tick == 0,
                per_tick > 0,
        ;
    }
}

} // verus!
