//! Rounding and truncation of whole columns, row by row.
//!
//! One kernel serves dates, instants and spans. What it returns is stated
//! by the row: [`snap_row`] says what a row gives, [`is_snapped`] that the
//! column holds what its rows give, or fails as its first failing row does.
//! The shortcuts that the kernel takes for a single step are proved against
//! that statement.

use vstd::prelude::*;
use vstd::string::*;
use vstd::utf8::encode_utf8;
use crate::arith::{floor_div, lift, lift_value};
use crate::cache::DurationCache;
use crate::column::{broadcast_len, broadcast_rows, row_of, DateColumn, DatetimeColumn, DurationColumn, IsSorted, StringColumn};
use crate::duration::{lemma_parse_spec_wf, parse_spec, Duration};
use crate::error::{outcome, row_outcome, Failure, Reason, TemporalError};
use crate::timezone::{duplicate_zone, Zone};
use crate::units::TimeUnit;
use crate::window::{
    floor_to_multiple, lemma_closed_forms_agree, lemma_fixed_step_keeps_order, round_half_away, Window,
};

verus! {

/// What the values of a column count.
#[derive(Clone, Copy, Debug, PartialEq, Eq, Structural)]
pub enum TemporalKind {
    /// Days since 1970-01-01.
    Date,
    /// Ticks since the epoch.
    Datetime,
    /// Ticks of a span.
    Duration,
}

/// The two ways of moving a value to a bucket boundary.
#[derive(Clone, Copy, Debug, PartialEq, Eq, Structural)]
pub enum Snap {
    Round,
    Truncate,
}

/// The quotient of `x` by a positive `d`, rounded toward zero.
pub open spec fn trunc_div(x: int, d: int) -> int {
    if x >= 0 {
        x / d
    } else {
        -((-x) / d)
    }
}

/// The window's boundary for `t` under `op`.
pub open spec fn window_op(op: Snap, w: Window, t: int, tu: TimeUnit, zone: Option<&Zone>) -> Result<
    int,
    Reason,
> {
    match op {
        Snap::Round => w.spec_round(t, tu, zone),
        Snap::Truncate => w.spec_truncate(t, tu, zone),
    }
}

/// What one value becomes. An instant goes to the boundary of its window in
/// the zone. A date is snapped as the instant of its midnight, in
/// milliseconds and without a zone, and the boundary is given as its count
/// of days, rounded toward zero. A span needs a step without calendar part
/// and of at least one tick, and is snapped without a zone.
#[verifier::opaque]
pub open spec fn snap_instant(
    kind: TemporalKind,
    op: Snap,
    t: int,
    every: Duration,
    offset: Duration,
    tu: TimeUnit,
    zone: Option<&Zone>,
) -> Result<int, Reason> {
    let w = Window { every, period: every, offset };
    match kind {
        TemporalKind::Datetime => window_op(op, w, t, tu, zone),
        TemporalKind::Date => if i32::MIN <= t <= i32::MAX {
            match window_op(op, w, t * 86_400_000, TimeUnit::Milliseconds, None) {
                Err(e) => Err(e),
                Ok(ms) => {
                    let day = trunc_div(ms, 86_400_000);
                    if i32::MIN <= day <= i32::MAX {
                        Ok(day)
                    } else {
                        Err(Reason::OutOfRange)
                    }
                },
            }
        } else {
            Err(Reason::OutOfRange)
        },
        TemporalKind::Duration => if every.negative {
            Err(Reason::NegativeDuration)
        } else if every.spec_has_calendar_part() {
            Err(Reason::NonConstantDuration)
        } else if every.nsecs as int / tu.ns_per_tick() == 0 {
            Err(Reason::ZeroDuration)
        } else {
            window_op(op, w, t, tu, None)
        },
    }
}

/// The literal that a failure for `reason` carries: the zone's name where
/// the zone is not known, else the step as it was written.
pub open spec fn failure_literal(reason: Reason, text: Seq<char>, zone: Option<&Zone>) -> Seq<
    char,
> {
    if reason == Reason::UnknownTimeZone {
        match zone {
            Some(Zone::Named(name)) => name@,
            _ => Seq::empty(),
        }
    } else {
        text
    }
}

/// What one row gives: a null where the value or the step is null, else the
/// value snapped by the step that the text denotes.
#[verifier::opaque]
pub open spec fn snap_row(
    kind: TemporalKind,
    op: Snap,
    value: Option<i64>,
    every: Option<String>,
    offset: Duration,
    tu: TimeUnit,
    zone: Option<&Zone>,
) -> Result<Option<int>, Failure> {
    match (value, every) {
        (Some(t), Some(text)) => match parse_spec(encode_utf8(text@)) {
            None => Err(Failure { reason: Reason::MalformedDuration, literal: text@ }),
            Some(d) => match snap_instant(kind, op, t as int, d, offset, tu, zone) {
                Ok(v) => Ok(Some(v)),
                Err(reason) => Err(
                    Failure { reason, literal: failure_literal(reason, text@, zone) },
                ),
            },
        },
        _ => Ok(None),
    }
}

/// The outcome of snapping a column: one output row for each row of the
/// operation, or the failure of the first row that fails.
pub open spec fn is_snapped(
    out: Result<Seq<Option<i64>>, Failure>,
    kind: TemporalKind,
    op: Snap,
    values: Seq<Option<i64>>,
    every: Seq<Option<String>>,
    offset: Duration,
    tu: TimeUnit,
    zone: Option<&Zone>,
) -> bool {
    match broadcast_len(values.len(), every.len()) {
        None => out == Err::<Seq<Option<i64>>, Failure>(
            Failure { reason: Reason::LengthMismatch, literal: Seq::empty() },
        ),
        Some(n) => match out {
            Ok(v) => {
                &&& v.len() == n
                &&& forall|i: int|
                    0 <= i < n ==> snap_row(
                        kind,
                        op,
                        row_of(values, i),
                        row_of(every, i),
                        offset,
                        tu,
                        zone,
                    ) == Ok::<Option<int>, Failure>(lift_value(#[trigger] v[i]))
            },
            Err(f) => snap_fails(f, n as int, kind, op, values, every, offset, tu, zone),
        },
    }
}

/// Some row is the first to fail, and fails with `f`.
pub open spec fn snap_fails(
    f: Failure,
    n: int,
    kind: TemporalKind,
    op: Snap,
    values: Seq<Option<i64>>,
    every: Seq<Option<String>>,
    offset: Duration,
    tu: TimeUnit,
    zone: Option<&Zone>,
) -> bool {
    exists|i: int| #[trigger] fails_first_at(i, f, n, kind, op, values, every, offset, tu, zone)
}

/// Row `i` fails with `f` and no row before it fails.
pub open spec fn fails_first_at(
    i: int,
    f: Failure,
    n: int,
    kind: TemporalKind,
    op: Snap,
    values: Seq<Option<i64>>,
    every: Seq<Option<String>>,
    offset: Duration,
    tu: TimeUnit,
    zone: Option<&Zone>,
) -> bool {
    &&& 0 <= i < n
    &&& snap_row(kind, op, row_of(values, i), row_of(every, i), offset, tu, zone) == Err::<
        Option<int>,
        Failure,
    >(f)
    &&& forall|j: int|
        0 <= j < i ==> (#[trigger] snap_row(
            kind,
            op,
            row_of(values, j),
            row_of(every, j),
            offset,
            tu,
            zone,
        )) is Ok
}

/// Divides by the milliseconds of a day, rounding toward zero.
fn ms_to_days(ms: i64) -> (r: i64)
    ensures
        r == trunc_div(ms as int, 86_400_000),
{
    if ms >= 0 {
        ms / 86_400_000
    } else if ms == i64::MIN {
        -106_751_991_167
    } else {
        -((-ms) / 86_400_000)
    }
}

/// Snaps one value.
pub fn snap_value(
    kind: TemporalKind,
    op: Snap,
    t: i64,
    every: &Duration,
    offset: &Duration,
    tu: TimeUnit,
    zone: Option<&Zone>,
) -> (r: Result<i64, Reason>)
    requires
        every.wf(),
        offset.wf(),
    ensures
        lift(r) == snap_instant(kind, op, t as int, *every, *offset, tu, zone),
{
    reveal(snap_instant);
    let w = Window::new(*every, *every, *offset);
    match kind {
        TemporalKind::Datetime => match op {
            Snap::Round => w.round(t, tu, zone),
            Snap::Truncate => w.truncate(t, tu, zone),
        },
        TemporalKind::Date => {
            if t < i32::MIN as i64 || t > i32::MAX as i64 {
                return Err(Reason::OutOfRange);
            }
            let snapped = match op {
                Snap::Round => w.round(t * 86_400_000, TimeUnit::Milliseconds, None),
                Snap::Truncate => w.truncate(t * 86_400_000, TimeUnit::Milliseconds, None),
            };
            match snapped {
                Err(e) => Err(e),
                Ok(ms) => {
                    let day: i64 = ms_to_days(ms);
                    if day < i32::MIN as i64 || day > i32::MAX as i64 {
                        Err(Reason::OutOfRange)
                    } else {
                        Ok(day)
                    }
                },
            }
        },
        TemporalKind::Duration => {
            if every.negative {
                Err(Reason::NegativeDuration)
            } else if every.has_calendar_part() {
                Err(Reason::NonConstantDuration)
            } else if floor_div(every.nsecs, tu.nanos_per_tick()) == 0 {
                Err(Reason::ZeroDuration)
            } else {
                match op {
                    Snap::Round => w.round(t, tu, None),
                    Snap::Truncate => w.truncate(t, tu, None),
                }
            }
        },
    }
}

/// The failure that a row reports for `reason`.
pub(crate) fn row_failure(reason: Reason, text: &str, zone: Option<&Zone>) -> (e: TemporalError)
    ensures
        e@ == (Failure { reason, literal: failure_literal(reason, text@, zone) }),
{
    match reason {
        Reason::UnknownTimeZone => match zone {
            Some(Zone::Named(name)) => TemporalError::with_literal(reason, name.as_str()),
            _ => TemporalError::new(reason),
        },
        _ => TemporalError::with_literal(reason, text),
    }
}

/// Whether the closed forms may stand in for the window: the step is
/// fixed, positive and at least one tick, the offset is zero, the values
/// are no dates, and the instants are naive or in UTC.
pub open spec fn closed_form_applies(
    kind: TemporalKind,
    every: Duration,
    offset: Duration,
    tu: TimeUnit,
    zone: Option<&Zone>,
) -> bool {
    &&& kind != TemporalKind::Date
    &&& !every.negative
    &&& !every.spec_has_calendar_part()
    &&& offset.spec_is_zero()
    &&& every.nsecs as int / tu.ns_per_tick() > 0
    &&& (zone is None || zone.unwrap().spec_is_utc())
}

/// Snaps one value by the closed forms.
pub fn snap_value_closed_form(
    kind: TemporalKind,
    op: Snap,
    t: i64,
    every: &Duration,
    offset: &Duration,
    tu: TimeUnit,
    zone: Option<&Zone>,
) -> (r: Result<i64, Reason>)
    requires
        every.wf(),
        offset.wf(),
        closed_form_applies(kind, *every, *offset, tu, zone),
    ensures
        lift(r) == snap_instant(kind, op, t as int, *every, *offset, tu, zone),
{
    let step: i64 = floor_div(every.nsecs, tu.nanos_per_tick());
    proof {
        reveal(snap_instant);
        let w = Window { every: *every, period: *every, offset: *offset };
        lemma_closed_forms_agree(w, t, tu, zone);
        lemma_closed_forms_agree(w, t, tu, None);
    }
    match op {
        Snap::Round => round_half_away(t, step),
        Snap::Truncate => floor_to_multiple(t, step),
    }
}

/// Snaps one row. `parsed` is the step that `step` denotes where the caller
/// has read it already; `closed_form` says that the closed forms apply to
/// that step.
fn snap_one_row(
    kind: TemporalKind,
    op: Snap,
    value: Option<i64>,
    step: &Option<String>,
    parsed: Option<Option<Duration>>,
    closed_form: bool,
    offset: &Duration,
    tu: TimeUnit,
    zone: Option<&Zone>,
) -> (r: Result<Option<i64>, TemporalError>)
    requires
        offset.wf(),
        parsed matches Some(p) ==> (step matches Some(text) && p == parse_spec(encode_utf8(text@))),
        parsed matches Some(Some(d)) ==> d.wf(),
        closed_form ==> (parsed matches Some(Some(d)) && closed_form_applies(
            kind,
            d,
            *offset,
            tu,
            zone,
        )),
    ensures
        row_outcome(r) == snap_row(kind, op, value, *step, *offset, tu, zone),
{
    reveal(snap_row);
    match (value, step) {
        (Some(t), Some(text)) => {
            let read: Option<Duration> = match parsed {
                Some(p) => p,
                None => Duration::parse_bytes(text.as_str().as_bytes()),
            };
            match read {
                None => Err(TemporalError::with_literal(Reason::MalformedDuration, text.as_str())),
                Some(d) => {
                    let result = if closed_form {
                        snap_value_closed_form(kind, op, t, &d, offset, tu, zone)
                    } else {
                        snap_value(kind, op, t, &d, offset, tu, zone)
                    };
                    match result {
                        Ok(v) => Ok(Some(v)),
                        Err(reason) => Err(row_failure(reason, text.as_str(), zone)),
                    }
                },
            }
        },
        _ => Ok(None),
    }
}

/// Snaps a column of values by a column of steps, row by row. A column of
/// one row stands for every row. A single step is read once, and where the
/// closed forms apply they replace the window. Steps that differ from row
/// to row are read through a cache, so that a step that repeats is not
/// read again.
pub fn snap_column(
    kind: TemporalKind,
    op: Snap,
    values: &Vec<Option<i64>>,
    every: &Vec<Option<String>>,
    offset: &Duration,
    tu: TimeUnit,
    zone: Option<&Zone>,
) -> (r: Result<Vec<Option<i64>>, TemporalError>)
    requires
        offset.wf(),
    ensures
        is_snapped(outcome(r), kind, op, values@, every@, *offset, tu, zone),
{
    let n: usize = match broadcast_rows(values.len(), every.len()) {
        Some(n) => n,
        None => {
            return Err(TemporalError::new(Reason::LengthMismatch));
        },
    };
    let single: bool = every.len() == 1;
    let scalar: Option<Option<Duration>> = if single {
        match &every[0] {
            Some(text) => Some(Duration::parse_bytes(text.as_str().as_bytes())),
            None => None,
        }
    } else {
        None
    };
    let closed_form: bool = match scalar {
        Some(Some(d)) => can_use_closed_form(kind, &d, offset, tu, zone),
        _ => false,
    };
    let mut cache = DurationCache::new(n);
    let mut out: Vec<Option<i64>> = Vec::new();
    let mut i: usize = 0;
    while i < n
        invariant
            offset.wf(),
            cache.wf(),
            i <= n,
            broadcast_len(values@.len(), every@.len()) == Some(n as nat),
            single == (every@.len() == 1),
            scalar is Some ==> single,
            scalar matches Some(Some(d)) ==> d.wf(),
            scalar matches Some(p) ==> (every@[0] matches Some(text) && p == parse_spec(
                encode_utf8(text@),
            )),
            closed_form ==> (scalar matches Some(Some(d)) && closed_form_applies(
                kind,
                d,
                *offset,
                tu,
                zone,
            )),
            out@.len() == i,
            forall|j: int|
                #![trigger out@[j]]
                #![trigger row_of(values@, j)]
                0 <= j < i ==> snap_row(
                    kind,
                    op,
                    row_of(values@, j),
                    row_of(every@, j),
                    *offset,
                    tu,
                    zone,
                ) == Ok::<Option<int>, Failure>(lift_value(out@[j])),
        decreases n - i,
    {
        let value: Option<i64> = if values.len() == 1 {
            values[0]
        } else {
            values[i]
        };
        let step: &Option<String> = if single {
            &every[0]
        } else {
            &every[i]
        };
        assert(value == row_of(values@, i as int));
        assert(*step == row_of(every@, i as int));
        let parsed: Option<Option<Duration>> = if single {
            scalar
        } else {
            match (value, step) {
                (Some(_), Some(text)) => Some(cache.get_or_insert(text.as_str())),
                _ => None,
            }
        };
        match snap_one_row(kind, op, value, step, parsed, closed_form, offset, tu, zone) {
            Ok(v) => {
                out.push(v);
            },
            Err(e) => {
                assert(fails_first_at(
                    i as int,
                    e@,
                    n as int,
                    kind,
                    op,
                    values@,
                    every@,
                    *offset,
                    tu,
                    zone,
                ));
                return Err(e);
            },
        }
        i = i + 1;
    }
    Ok(out)
}

/// Decides whether the closed forms apply.
fn can_use_closed_form(
    kind: TemporalKind,
    every: &Duration,
    offset: &Duration,
    tu: TimeUnit,
    zone: Option<&Zone>,
) -> (r: bool)
    ensures
        r == closed_form_applies(kind, *every, *offset, tu, zone),
{
    let zone_is_plain: bool = match zone {
        None => true,
        Some(z) => z.is_utc(),
    };
    match kind {
        TemporalKind::Date => false,
        _ => !every.negative && !every.has_calendar_part() && offset.is_zero() && floor_div(
            every.nsecs,
            tu.nanos_per_tick(),
        ) > 0 && zone_is_plain,
    }
}

/// Whether snapping keeps the order of the values: there is one step for
/// the whole column, it is a constant duration in the zone, and the offset
/// has no calendar part.
pub open spec fn keeps_order(every: Seq<Option<String>>, offset: Duration, zone: Option<&Zone>) -> bool {
    &&& every.len() == 1
    &&& every[0] matches Some(text)
    &&& parse_spec(encode_utf8(text@)) matches Some(d)
    &&& d.spec_is_constant_duration(zone)
    &&& !offset.spec_has_calendar_part()
}

/// The order flag of a snapped column: that of the input where the order
/// is kept, else unsorted.
pub open spec fn flag_after(
    flag: IsSorted,
    every: Seq<Option<String>>,
    offset: Duration,
    zone: Option<&Zone>,
) -> IsSorted {
    if keeps_order(every, offset, zone) {
        flag
    } else {
        IsSorted::Not
    }
}

/// Computes the order flag of a snapped column.
pub fn sorted_flag_after(
    flag: IsSorted,
    every: &Vec<Option<String>>,
    offset: &Duration,
    zone: Option<&Zone>,
) -> (r: IsSorted)
    ensures
        r == flag_after(flag, every@, *offset, zone),
{
    if every.len() == 1 && !offset.has_calendar_part() {
        match &every[0] {
            Some(text) => match Duration::parse_bytes(text.as_str().as_bytes()) {
                Some(d) => if d.is_constant_duration(zone) {
                    flag
                } else {
                    IsSorted::Not
                },
                None => IsSorted::Not,
            },
            None => IsSorted::Not,
        }
    } else {
        IsSorted::Not
    }
}

/// Dates as 64-bit counts.
pub open spec fn widened(values: Seq<Option<i32>>) -> Seq<Option<i64>> {
    Seq::new(
        values.len(),
        |i: int|
            match values[i] {
                Some(d) => Some(d as i64),
                None => None,
            },
    )
}

/// Widens a column of dates to 64-bit counts.
pub fn widen_dates(values: &Vec<Option<i32>>) -> (r: Vec<Option<i64>>)
    ensures
        r@ == widened(values@),
{
    let mut out: Vec<Option<i64>> = Vec::new();
    let mut i: usize = 0;
    while i < values.len()
        invariant
            i <= values.len(),
            out@.len() == i,
            forall|j: int| 0 <= j < i ==> #[trigger] out@[j] == widened(values@)[j],
        decreases values.len() - i,
    {
        out.push(
            match values[i] {
                Some(d) => Some(d as i64),
                None => None,
            },
        );
        i = i + 1;
    }
    assert(out@ =~= widened(values@));
    out
}

/// A snapped date is a date: it fits 32 bits.
pub proof fn lemma_snapped_date_fits(
    op: Snap,
    value: Option<i64>,
    every: Option<String>,
    offset: Duration,
    tu: TimeUnit,
    zone: Option<&Zone>,
)
    ensures
        snap_row(TemporalKind::Date, op, value, every, offset, tu, zone) matches Ok(Some(d))
            ==> i32::MIN <= d <= i32::MAX,
{
    reveal(snap_row);
    reveal(snap_instant);
}

/// Narrows snapped dates to 32-bit counts.
fn narrow_dates(values: &Vec<Option<i64>>) -> (r: Vec<Option<i32>>)
    requires
        forall|i: int|
            0 <= i < values@.len() ==> (#[trigger] values@[i] matches Some(d) ==> i32::MIN <= d
                <= i32::MAX),
    ensures
        widened(r@) == values@,
{
    let mut out: Vec<Option<i32>> = Vec::new();
    let mut i: usize = 0;
    while i < values.len()
        invariant
            i <= values.len(),
            out@.len() == i,
            forall|i: int|
                0 <= i < values@.len() ==> (#[trigger] values@[i] matches Some(d) ==> i32::MIN
                    <= d <= i32::MAX),
            forall|j: int|
                0 <= j < i ==> values@[j] == match #[trigger] out@[j] {
                    Some(d) => Some(d as i64),
                    None => None,
                },
        decreases values.len() - i,
    {
        out.push(
            match values[i] {
                Some(d) => Some(d as i32),
                None => None,
            },
        );
        i = i + 1;
    }
    assert(widened(out@) =~= values@);
    out
}

/// Snaps a column of instants. The output keeps the name, unit and zone of
/// the input.
pub fn snap_datetime(
    column: &DatetimeColumn,
    op: Snap,
    every: &StringColumn,
    offset: &Duration,
    zone: Option<&Zone>,
) -> (r: Result<DatetimeColumn, TemporalError>)
    requires
        offset.wf(),
    ensures
        match r {
            Ok(out) => {
                &&& is_snapped(
                    Ok(out.values@),
                    TemporalKind::Datetime,
                    op,
                    column.values@,
                    every.values@,
                    *offset,
                    column.time_unit,
                    zone,
                )
                &&& out.name == column.name
                &&& out.time_unit == column.time_unit
                &&& out.time_zone == column.time_zone
                &&& out.sorted == flag_after(column.sorted, every.values@, *offset, zone)
            },
            Err(e) => is_snapped(
                Err(e@),
                TemporalKind::Datetime,
                op,
                column.values@,
                every.values@,
                *offset,
                column.time_unit,
                zone,
            ),
        },
{
    match snap_column(
        TemporalKind::Datetime,
        op,
        &column.values,
        &every.values,
        offset,
        column.time_unit,
        zone,
    ) {
        Err(e) => Err(e),
        Ok(values) => Ok(
            DatetimeColumn {
                name: column.name.clone(),
                values,
                time_unit: column.time_unit,
                time_zone: duplicate_zone(&column.time_zone),
                sorted: sorted_flag_after(column.sorted, &every.values, offset, zone),
            },
        ),
    }
}

/// Snaps a column of spans; no zone takes part.
pub fn snap_duration(column: &DurationColumn, op: Snap, every: &StringColumn, offset: &Duration) -> (r:
    Result<DurationColumn, TemporalError>)
    requires
        offset.wf(),
    ensures
        match r {
            Ok(out) => {
                &&& is_snapped(
                    Ok(out.values@),
                    TemporalKind::Duration,
                    op,
                    column.values@,
                    every.values@,
                    *offset,
                    column.time_unit,
                    None,
                )
                &&& out.name == column.name
                &&& out.time_unit == column.time_unit
                &&& out.sorted == flag_after(column.sorted, every.values@, *offset, None)
            },
            Err(e) => is_snapped(
                Err(e@),
                TemporalKind::Duration,
                op,
                column.values@,
                every.values@,
                *offset,
                column.time_unit,
                None,
            ),
        },
{
    match snap_column(
        TemporalKind::Duration,
        op,
        &column.values,
        &every.values,
        offset,
        column.time_unit,
        None,
    ) {
        Err(e) => Err(e),
        Ok(values) => Ok(
            DurationColumn {
                name: column.name.clone(),
                values,
                time_unit: column.time_unit,
                sorted: sorted_flag_after(column.sorted, &every.values, offset, None),
            },
        ),
    }
}

/// Snaps a column of dates, each as the instant of its midnight.
pub fn snap_date(column: &DateColumn, op: Snap, every: &StringColumn, offset: &Duration) -> (r: Result<
    DateColumn,
    TemporalError,
>)
    requires
        offset.wf(),
    ensures
        match r {
            Ok(out) => {
                &&& is_snapped(
                    Ok(widened(out.values@)),
                    TemporalKind::Date,
                    op,
                    widened(column.values@),
                    every.values@,
                    *offset,
                    TimeUnit::Milliseconds,
                    None,
                )
                &&& out.name == column.name
                &&& out.sorted == flag_after(column.sorted, every.values@, *offset, None)
            },
            Err(e) => is_snapped(
                Err(e@),
                TemporalKind::Date,
                op,
                widened(column.values@),
                every.values@,
                *offset,
                TimeUnit::Milliseconds,
                None,
            ),
        },
{
    let wide: Vec<Option<i64>> = widen_dates(&column.values);
    match snap_column(
        TemporalKind::Date,
        op,
        &wide,
        &every.values,
        offset,
        TimeUnit::Milliseconds,
        None,
    ) {
        Err(e) => Err(e),
        Ok(values) => {
            proof {
                assert forall|i: int| 0 <= i < values@.len() implies (#[trigger] values@[i] matches Some(
                    d,
                ) ==> i32::MIN <= d <= i32::MAX) by {
                    lemma_snapped_date_fits(
                        op,
                        row_of(wide@, i),
                        row_of(every.values@, i),
                        *offset,
                        TimeUnit::Milliseconds,
                        None,
                    );
                }
            }
            Ok(
                DateColumn {
                    name: column.name.clone(),
                    values: narrow_dates(&values),
                    sorted: sorted_flag_after(column.sorted, &every.values, offset, None),
                },
            )
        },
    }
}

/// A row whose value or whose step is null gives a null, never an error.
pub proof fn lemma_snap_null_row(
    kind: TemporalKind,
    op: Snap,
    value: Option<i64>,
    every: Option<String>,
    offset: Duration,
    tu: TimeUnit,
    zone: Option<&Zone>,
)
    requires
        value is None || every is None,
    ensures
        snap_row(kind, op, value, every, offset, tu, zone) == Ok::<Option<int>, Failure>(None),
{
    reveal(snap_row);
}

/// A step that is negative or zero fails a row that has a value, whatever
/// the value: a negative step as a computation error, a zero step as an
/// invalid operation.
pub proof fn lemma_snap_rejects_bad_step(
    kind: TemporalKind,
    op: Snap,
    t: i64,
    every: Duration,
    offset: Duration,
    tu: TimeUnit,
    zone: Option<&Zone>,
)
    requires
        every.wf(),
        every.negative || every.spec_is_zero(),
        kind == TemporalKind::Date ==> i32::MIN <= t <= i32::MAX,
    ensures
        snap_instant(kind, op, t as int, every, offset, tu, zone) == if every.negative {
            Err::<int, Reason>(Reason::NegativeDuration)
        } else {
            Err::<int, Reason>(Reason::ZeroDuration)
        },
        Reason::NegativeDuration.spec_kind() == crate::error::ErrorKind::Compute,
        Reason::ZeroDuration.spec_kind() == crate::error::ErrorKind::InvalidOperation,
{
    reveal(snap_instant);
}

/// One step for the whole column gives what the same step written in
/// every row gives: the outcomes of the two calls are the same, failures
/// included.
pub proof fn lemma_single_step_is_repeated_step(
    out: Result<Seq<Option<i64>>, Failure>,
    kind: TemporalKind,
    op: Snap,
    values: Seq<Option<i64>>,
    step: Option<String>,
    offset: Duration,
    tu: TimeUnit,
    zone: Option<&Zone>,
)
    ensures
        is_snapped(out, kind, op, values, seq![step], offset, tu, zone) == is_snapped(
            out,
            kind,
            op,
            values,
            Seq::new(values.len(), |i: int| step),
            offset,
            tu,
            zone,
        ),
{
    let single = seq![step];
    let repeated = Seq::new(values.len(), |i: int| step);
    let n = values.len() as int;
    assert(broadcast_len(values.len(), single.len()) == Some(values.len()));
    assert(broadcast_len(values.len(), repeated.len()) == Some(values.len()));
    assert forall|i: int| 0 <= i < n implies #[trigger] row_of(single, i) == row_of(repeated, i) by {}
    match out {
        Ok(v) => {
            if is_snapped(out, kind, op, values, single, offset, tu, zone) {
                assert forall|i: int| 0 <= i < n implies snap_row(
                    kind,
                    op,
                    row_of(values, i),
                    row_of(repeated, i),
                    offset,
                    tu,
                    zone,
                ) == Ok::<Option<int>, Failure>(lift_value(#[trigger] v[i])) by {
                    assert(row_of(single, i) == row_of(repeated, i));
                }
            }
            if is_snapped(out, kind, op, values, repeated, offset, tu, zone) {
                assert forall|i: int| 0 <= i < n implies snap_row(
                    kind,
                    op,
                    row_of(values, i),
                    row_of(single, i),
                    offset,
                    tu,
                    zone,
                ) == Ok::<Option<int>, Failure>(lift_value(#[trigger] v[i])) by {
                    assert(row_of(single, i) == row_of(repeated, i));
                }
            }
        },
        Err(f) => {
            if snap_fails(f, n, kind, op, values, single, offset, tu, zone) {
                let i = choose|i: int| #[trigger]
                    fails_first_at(i, f, n, kind, op, values, single, offset, tu, zone);
                assert(row_of(single, i) == row_of(repeated, i));
                assert forall|j: int| 0 <= j < i implies (#[trigger] snap_row(
                    kind,
                    op,
                    row_of(values, j),
                    row_of(repeated, j),
                    offset,
                    tu,
                    zone,
                )) is Ok by {
                    assert(row_of(single, j) == row_of(repeated, j));
                    assert(snap_row(kind, op, row_of(values, j), row_of(single, j), offset, tu, zone) is Ok);
                }
                assert(fails_first_at(i, f, n, kind, op, values, repeated, offset, tu, zone));
            }
            if snap_fails(f, n, kind, op, values, repeated, offset, tu, zone) {
                let i = choose|i: int| #[trigger]
                    fails_first_at(i, f, n, kind, op, values, repeated, offset, tu, zone);
                assert(row_of(single, i) == row_of(repeated, i));
                assert forall|j: int| 0 <= j < i implies (#[trigger] snap_row(
                    kind,
                    op,
                    row_of(values, j),
                    row_of(single, j),
                    offset,
                    tu,
                    zone,
                )) is Ok by {
                    assert(row_of(single, j) == row_of(repeated, j));
                    assert(snap_row(kind, op, row_of(values, j), row_of(repeated, j), offset, tu, zone) is Ok);
                }
                assert(fails_first_at(i, f, n, kind, op, values, single, offset, tu, zone));
            }
        },
    }
}

/// Where a snapped column keeps the order flag of its input, snapping
/// keeps the order of the values: of two values, the greater is never
/// moved below the lesser.
pub proof fn lemma_kept_flag_means_kept_order(
    kind: TemporalKind,
    op: Snap,
    lesser: i64,
    greater: i64,
    step: Option<String>,
    offset: Duration,
    tu: TimeUnit,
    zone: Option<&Zone>,
)
    requires
        offset.wf(),
        keeps_order(seq![step], offset, zone),
        lesser <= greater,
    ensures
        match (
            snap_row(kind, op, Some(lesser), step, offset, tu, zone),
            snap_row(kind, op, Some(greater), step, offset, tu, zone),
        ) {
            (Ok(Some(a)), Ok(Some(b))) => a <= b,
            _ => true,
        },
{
    reveal(snap_row);
    reveal(snap_instant);
    let text = step.unwrap();
    lemma_parse_spec_wf(encode_utf8(text@));
    let d = parse_spec(encode_utf8(text@)).unwrap();
    let w = Window { every: d, period: d, offset };
    match kind {
        TemporalKind::Datetime => {
            lemma_fixed_step_keeps_order(w, lesser, greater, tu, zone);
        },
        TemporalKind::Duration => {
            lemma_fixed_step_keeps_order(w, lesser, greater, tu, None);
        },
        TemporalKind::Date => {
            if i32::MIN <= lesser <= i32::MAX && i32::MIN <= greater <= i32::MAX {
                lemma_fixed_step_keeps_order(
                    w,
                    (lesser * 86_400_000) as i64,
                    (greater * 86_400_000) as i64,
                    TimeUnit::Milliseconds,
                    None,
                );
            }
        },
    }
}

/// Row `i` fails, and its value and its step are both present.
pub open spec fn present_row_fails(
    i: int,
    f: Failure,
    n: int,
    kind: TemporalKind,
    op: Snap,
    values: Seq<Option<i64>>,
    every: Seq<Option<String>>,
    offset: Duration,
    tu: TimeUnit,
    zone: Option<&Zone>,
) -> bool {
    &&& fails_first_at(i, f, n, kind, op, values, every, offset, tu, zone)
    &&& row_of(values, i) is Some
    &&& row_of(every, i) is Some
}

/// Nulls in a snapped column. Where the call returns a column, a row is
/// null exactly where its value or its step is null. Where the call fails,
/// the row that fails has both its value and its step: a null never fails
/// the call. And the call returns a column wherever no row fails.
pub proof fn lemma_snap_nulls_in_column(
    out: Result<Seq<Option<i64>>, Failure>,
    kind: TemporalKind,
    op: Snap,
    values: Seq<Option<i64>>,
    every: Seq<Option<String>>,
    offset: Duration,
    tu: TimeUnit,
    zone: Option<&Zone>,
)
    requires
        broadcast_len(values.len(), every.len()) is Some,
        is_snapped(out, kind, op, values, every, offset, tu, zone),
    ensures
        ({
            let n = broadcast_len(values.len(), every.len()).unwrap() as int;
            &&& out matches Ok(v) ==> v.len() == n && forall|i: int|
                0 <= i < n ==> ((#[trigger] v[i]) is None <==> (row_of(values, i) is None || row_of(
                    every,
                    i,
                ) is None))
            &&& out matches Err(f) ==> exists|i: int| #[trigger]
                present_row_fails(i, f, n, kind, op, values, every, offset, tu, zone)
            &&& (forall|i: int|
                0 <= i < n ==> (#[trigger] snap_row(
                    kind,
                    op,
                    row_of(values, i),
                    row_of(every, i),
                    offset,
                    tu,
                    zone,
                )) is Ok) ==> out is Ok
        }),
{
    reveal(snap_row);
    let n = broadcast_len(values.len(), every.len()).unwrap() as int;
    match out {
        Ok(v) => {
            assert forall|i: int| 0 <= i < n implies ((#[trigger] v[i]) is None <==> (row_of(
                values,
                i,
            ) is None || row_of(every, i) is None)) by {
                assert(snap_row(kind, op, row_of(values, i), row_of(every, i), offset, tu, zone)
                    == Ok::<Option<int>, Failure>(lift_value(v[i])));
            }
        },
        Err(f) => {
            let i = choose|i: int| #[trigger]
                fails_first_at(i, f, n, kind, op, values, every, offset, tu, zone);
            assert(present_row_fails(i, f, n, kind, op, values, every, offset, tu, zone));
        },
    }
}

} // verus!
