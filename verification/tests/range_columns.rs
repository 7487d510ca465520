use temporal_kernels::calendar::{in_nanoseconds_window, CivilDate, CivilDateTime, CivilTime};
use temporal_kernels::column::IsSorted;
use temporal_kernels::duration::Duration;
use temporal_kernels::error::Reason;
use temporal_kernels::range::{date_range, datetime_range_impl, time_range, time_range_impl, ClosedWindow};
use temporal_kernels::timezone::Zone;
use temporal_kernels::units::TimeUnit;

fn at(year: i32, month: u32, day: u32, hour: u32, minute: u32, second: u32, nanosecond: u32) -> CivilDateTime {
    CivilDateTime { date: CivilDate { year, month, day }, time: CivilTime { hour, minute, second, nanosecond } }
}

#[test]
fn civil_timestamps_in_each_unit() {
    let t = at(2020, 2, 29, 12, 30, 15, 500_000_999);
    assert_eq!(t.timestamp(TimeUnit::Milliseconds), Ok(1_582_979_415_500));
    assert_eq!(t.timestamp(TimeUnit::Microseconds), Ok(1_582_979_415_500_000));
    assert_eq!(t.timestamp(TimeUnit::Nanoseconds), Ok(1_582_979_415_500_000_999));
    assert_eq!(at(1969, 12, 31, 23, 0, 0, 0).timestamp(TimeUnit::Milliseconds), Ok(-3_600_000));
    assert_eq!(at(2021, 2, 29, 0, 0, 0, 0).timestamp(TimeUnit::Milliseconds), Err(Reason::OutOfRange));
    assert_eq!(at(2021, 1, 1, 24, 0, 0, 0).timestamp(TimeUnit::Milliseconds), Err(Reason::OutOfRange));
    assert_eq!(at(3000, 1, 1, 0, 0, 0, 0).timestamp(TimeUnit::Nanoseconds), Err(Reason::OutOfRange));
}

#[test]
fn leap_seconds_are_folded() {
    let t = CivilTime::folding_leap_second(23, 59, 59, 1_500_000_000);
    assert_eq!(t, CivilTime { hour: 23, minute: 59, second: 59, nanosecond: 999_999_999 });
    assert!(t.is_valid());
    let t = CivilTime::folding_leap_second(1, 2, 3, 4);
    assert_eq!(t, CivilTime { hour: 1, minute: 2, second: 3, nanosecond: 4 });
}

#[test]
fn nanosecond_window_is_1386_to_2554() {
    assert!(in_nanoseconds_window(&at(1386, 1, 1, 0, 0, 0, 0)));
    assert!(in_nanoseconds_window(&at(2554, 12, 31, 0, 0, 0, 0)));
    assert!(!in_nanoseconds_window(&at(1385, 12, 31, 0, 0, 0, 0)));
    assert!(!in_nanoseconds_window(&at(2555, 1, 1, 0, 0, 0, 0)));
}

#[test]
fn date_range_by_month_from_civil_bounds() {
    let every = Duration::parse("1mo").unwrap();
    let col = date_range(
        "dates",
        at(2020, 1, 31, 0, 0, 0, 0),
        Some(at(2020, 3, 31, 0, 0, 0, 0)),
        None,
        every,
        ClosedWindow::Both,
        TimeUnit::Milliseconds,
        None,
    )
    .unwrap();
    assert_eq!(col.values, vec![Some(1_580_428_800_000), Some(1_582_934_400_000), Some(1_585_612_800_000)]);
    assert_eq!(col.name, "dates");
    assert_eq!(col.sorted, IsSorted::Ascending);
    assert_eq!(col.time_unit, TimeUnit::Milliseconds);
    assert!(col.time_zone.is_none());
}

#[test]
fn date_range_rejects_invalid_bound() {
    let every = Duration::parse("1d").unwrap();
    let e = date_range("x", at(2020, 13, 1, 0, 0, 0, 0), None, Some(2), every, ClosedWindow::Both, TimeUnit::Milliseconds, None).unwrap_err();
    assert_eq!(e.reason, Reason::OutOfRange);
}

#[test]
fn datetime_range_in_zone_keeps_zone() {
    let zone = Zone::parse("Europe/Amsterdam").unwrap();
    let every = Duration::parse("1d").unwrap();
    let col = datetime_range_impl("t", 1_616_799_600_000, Some(1_616_968_800_000), None, every, ClosedWindow::Left, TimeUnit::Milliseconds, Some(&zone)).unwrap();
    assert_eq!(col.values, vec![Some(1_616_799_600_000), Some(1_616_886_000_000)]);
    assert!(matches!(col.time_zone, Some(Zone::Named(ref n)) if n == "Europe/Amsterdam"));
    let e = datetime_range_impl("t", 0, Some(10), None, Duration::parse("-1d").unwrap(), ClosedWindow::Left, TimeUnit::Milliseconds, None).unwrap_err();
    assert_eq!(e.reason, Reason::NonPositiveInterval);
    assert_eq!(e.literal, "-1d");
    assert_eq!(e.message(), "`interval` must be positive: '-1d'");
}

#[test]
fn time_range_by_hours() {
    let noon = CivilTime { hour: 12, minute: 0, second: 0, nanosecond: 0 };
    let later = CivilTime { hour: 14, minute: 30, second: 0, nanosecond: 0 };
    let col = time_range("t", noon, later, Duration::parse("1h").unwrap(), ClosedWindow::Both).unwrap();
    let h = 3_600_000_000_000i64;
    assert_eq!(col.values, vec![Some(12 * h), Some(13 * h), Some(14 * h)]);
    assert_eq!(col.sorted, IsSorted::Ascending);
    let col = time_range_impl("t", 0, 2 * h, Duration::parse("1h").unwrap(), ClosedWindow::Neither).unwrap();
    assert_eq!(col.values, vec![Some(h)]);
    let bad = CivilTime { hour: 12, minute: 60, second: 0, nanosecond: 0 };
    assert_eq!(time_range("t", bad, later, Duration::parse("1h").unwrap(), ClosedWindow::Both).unwrap_err().reason, Reason::OutOfRange);
}
