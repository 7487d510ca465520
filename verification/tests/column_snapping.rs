use temporal_kernels::column::{DateColumn, DatetimeColumn, DurationColumn, IsSorted, StringColumn};
use temporal_kernels::duration::Duration;
use temporal_kernels::error::{ErrorKind, Reason};
use temporal_kernels::round::PolarsRound;
use temporal_kernels::snap::{snap_value, snap_value_closed_form, Snap, TemporalKind};
use temporal_kernels::timezone::Zone;
use temporal_kernels::truncate::PolarsTruncate;
use temporal_kernels::units::TimeUnit;

fn steps(v: &[Option<&str>]) -> StringColumn {
    StringColumn { name: String::from("every"), values: v.iter().map(|o| o.map(String::from)).collect() }
}

fn instants(v: Vec<Option<i64>>, tu: TimeUnit) -> DatetimeColumn {
    DatetimeColumn { name: String::from("t"), values: v, time_unit: tu, time_zone: None, sorted: IsSorted::Ascending }
}

#[test]
fn round_datetime_single_step() {
    let col = instants(vec![Some(5), None, Some(-5), Some(14)], TimeUnit::Nanoseconds);
    let out = col.round(&steps(&[Some("10ns")]), None).unwrap();
    assert_eq!(out.values, vec![Some(10), None, Some(-10), Some(10)]);
    assert_eq!(out.name, "t");
    assert_eq!(out.time_unit, TimeUnit::Nanoseconds);
    assert_eq!(out.sorted, IsSorted::Ascending);
}

#[test]
fn round_datetime_step_per_row() {
    let col = instants(vec![Some(5), Some(5), None, Some(7)], TimeUnit::Nanoseconds);
    let out = col.round(&steps(&[Some("10ns"), Some("4ns"), Some("1ns"), None]), None).unwrap();
    assert_eq!(out.values, vec![Some(10), Some(4), None, None]);
    assert_eq!(out.sorted, IsSorted::Not);
}

#[test]
fn single_step_and_repeated_step_agree() {
    let values = vec![Some(-25), Some(-15), Some(-5), Some(0), Some(5), Some(15), Some(26), None];
    let col = instants(values.clone(), TimeUnit::Microseconds);
    let fast = col.round(&steps(&[Some("10us")]), None).unwrap();
    let each: Vec<Option<&str>> = values.iter().map(|_| Some("10us")).collect();
    let slow = col.round(&steps(&each), None).unwrap();
    assert_eq!(fast.values, slow.values);
    let fast = col.truncate(None, &steps(&[Some("10us")]), "0ns").unwrap();
    let slow = col.truncate(None, &steps(&each), "0ns").unwrap();
    assert_eq!(fast.values, slow.values);
    assert_eq!(fast.values, vec![Some(-30), Some(-20), Some(-10), Some(0), Some(0), Some(10), Some(20), None]);
}

#[test]
fn closed_form_matches_window_on_values() {
    let every = Duration::parse("7ns").unwrap();
    let zero = Duration::new(0);
    for t in -30i64..30 {
        for op in [Snap::Round, Snap::Truncate] {
            let a = snap_value(TemporalKind::Datetime, op, t, &every, &zero, TimeUnit::Nanoseconds, None);
            let b = snap_value_closed_form(TemporalKind::Datetime, op, t, &every, &zero, TimeUnit::Nanoseconds, None);
            assert_eq!(a, b);
        }
    }
}

#[test]
fn null_scalar_step_gives_all_null() {
    let col = instants(vec![Some(5), Some(6)], TimeUnit::Nanoseconds);
    let out = col.round(&steps(&[None]), None).unwrap();
    assert_eq!(out.values, vec![None, None]);
}

#[test]
fn single_value_broadcasts_over_steps() {
    let col = instants(vec![Some(17)], TimeUnit::Nanoseconds);
    let out = col.truncate(None, &steps(&[Some("10ns"), Some("5ns"), None]), "0ns").unwrap();
    assert_eq!(out.values, vec![Some(10), Some(15), None]);
}

#[test]
fn mismatched_lengths_fail() {
    let col = instants(vec![Some(1), Some(2), Some(3)], TimeUnit::Nanoseconds);
    let e = col.round(&steps(&[Some("1ns"), Some("1ns")]), None).unwrap_err();
    assert_eq!(e.reason, Reason::LengthMismatch);
}

#[test]
fn malformed_step_fails_with_its_text() {
    let col = instants(vec![Some(1)], TimeUnit::Nanoseconds);
    let e = col.round(&steps(&[Some("10 parsecs")]), None).unwrap_err();
    assert_eq!(e.reason, Reason::MalformedDuration);
    assert_eq!(e.literal, "10 parsecs");
    assert_eq!(e.kind(), ErrorKind::Parse);
}

#[test]
fn malformed_step_on_null_rows_is_not_read() {
    let col = instants(vec![None, None], TimeUnit::Nanoseconds);
    let out = col.round(&steps(&[Some("bogus")]), None).unwrap();
    assert_eq!(out.values, vec![None, None]);
}

#[test]
fn negative_and_zero_steps_fail() {
    let col = instants(vec![Some(1)], TimeUnit::Nanoseconds);
    let e = col.round(&steps(&[Some("-1h")]), None).unwrap_err();
    assert_eq!(e.reason, Reason::NegativeDuration);
    assert_eq!(e.kind(), ErrorKind::Compute);
    assert_eq!(e.literal, "-1h");
    let e = col.truncate(None, &steps(&[Some("0h")]), "0ns").unwrap_err();
    assert_eq!(e.reason, Reason::ZeroDuration);
    assert_eq!(e.kind(), ErrorKind::InvalidOperation);
    assert_eq!(e.message(), "duration cannot be zero: '0h'");
}

#[test]
fn truncate_with_bad_offset_fails_before_rows() {
    let col = instants(vec![], TimeUnit::Nanoseconds);
    let e = col.truncate(None, &steps(&[Some("1h")]), "soon").unwrap_err();
    assert_eq!(e.reason, Reason::MalformedDuration);
    assert_eq!(e.literal, "soon");
}

#[test]
fn truncate_datetime_in_zone_by_day() {
    let zone = Zone::parse("Europe/Amsterdam").unwrap();
    let mut col = instants(vec![Some(1_622_541_600_000)], TimeUnit::Milliseconds);
    col.time_zone = Some(zone.duplicate());
    let out = col.truncate(Some(&zone), &steps(&[Some("1d")]), "0ns").unwrap();
    assert_eq!(out.values, vec![Some(1_622_498_400_000)]);
    assert_eq!(out.sorted, IsSorted::Not);
    assert!(matches!(out.time_zone, Some(Zone::Named(ref n)) if n == "Europe/Amsterdam"));
}

#[test]
fn round_dates_to_week_and_month() {
    // 2020-02-15 is day 18307; its week starts Monday 2020-02-10 (18302), the next on 18309.
    let col = DateColumn { name: String::from("d"), values: vec![Some(18_307), None, Some(18_305)], sorted: IsSorted::Not };
    let out = col.round(&steps(&[Some("1w")]), None).unwrap();
    assert_eq!(out.values, vec![Some(18_309), None, Some(18_302)]);
    let out = col.truncate(None, &steps(&[Some("1mo")]), "0ns").unwrap();
    assert_eq!(out.values, vec![Some(18_293), None, Some(18_293)]);
}

#[test]
fn duration_columns_need_constant_steps() {
    let col = DurationColumn { name: String::from("d"), values: vec![Some(25), Some(-25)], time_unit: TimeUnit::Milliseconds, sorted: IsSorted::Not };
    let out = col.round(&steps(&[Some("10ms")]), None).unwrap();
    assert_eq!(out.values, vec![Some(30), Some(-30)]);
    let out = col.truncate(None, &steps(&[Some("10ms")]), "0ns").unwrap();
    assert_eq!(out.values, vec![Some(20), Some(-30)]);
    let e = col.round(&steps(&[Some("1d")]), None).unwrap_err();
    assert_eq!(e.reason, Reason::NonConstantDuration);
    assert_eq!(e.kind(), ErrorKind::InvalidOperation);
    let e = col.truncate(None, &steps(&[Some("10ms")]), "1ms").unwrap_err();
    assert_eq!(e.reason, Reason::OffsetNotSupported);
    let e = col.round(&steps(&[Some("10ns")]), None).unwrap_err();
    assert_eq!(e.reason, Reason::ZeroDuration);
}
