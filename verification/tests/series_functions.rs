use temporal_kernels::business_days::{business_day_count, business_day_count_impl};
use temporal_kernels::column::{DateColumn, IsSorted, StringColumn};
use temporal_kernels::combine::combine;
use temporal_kernels::construct::{datetime, IntSeries};
use temporal_kernels::duration::Duration;
use temporal_kernels::error::Reason;
use temporal_kernels::offset::{compute_kernel2, date_offset};
use temporal_kernels::range::ClosedWindow;
use temporal_kernels::range_expr::{date_range, date_ranges};
use temporal_kernels::series::{cast_value, rescale, TemporalSeries, TemporalType};
use temporal_kernels::temporal::{temporal_range_dispatch, temporal_ranges_dispatch};
use temporal_kernels::timezone::Zone;
use temporal_kernels::units::TimeUnit;

const DAY_MS: i64 = 86_400_000;

fn series(name: &str, dtype: TemporalType, values: Vec<Option<i64>>) -> TemporalSeries {
    TemporalSeries { name: String::from(name), dtype, values, sorted: IsSorted::Ascending }
}

fn strings(v: &[Option<&str>]) -> StringColumn {
    StringColumn { name: String::from("s"), values: v.iter().map(|o| o.map(String::from)).collect() }
}

fn ints(v: Vec<Option<i64>>) -> IntSeries {
    IntSeries { name: String::from("part"), values: v }
}

#[test]
fn casts_between_temporal_types() {
    let ms = TemporalType::Datetime(TimeUnit::Milliseconds, None);
    let us = TemporalType::Datetime(TimeUnit::Microseconds, None);
    assert_eq!(cast_value(18_262, &TemporalType::Date, &ms), Ok(18_262 * DAY_MS));
    assert_eq!(cast_value(-1, &ms, &TemporalType::Date), Ok(-1));
    assert_eq!(cast_value(1_500, &us, &ms), Ok(1));
    assert_eq!(cast_value(-1_500, &us, &ms), Ok(-1));
    assert_eq!(cast_value(2, &ms, &us), Ok(2_000));
    assert_eq!(cast_value(5, &TemporalType::Time, &ms), Err(Reason::UnsupportedType));
    assert_eq!(rescale(i64::MAX, TimeUnit::Milliseconds, TimeUnit::Nanoseconds), Err(Reason::OutOfRange));
}

#[test]
fn range_dispatch_of_dates_stays_dates() {
    let s = [series("start", TemporalType::Date, vec![Some(18_292)]), series("stop", TemporalType::Date, vec![Some(18_352)])];
    let out = temporal_range_dispatch(&s, "r", Duration::parse("1mo").unwrap(), ClosedWindow::Both, None, None).unwrap();
    assert_eq!(out.values, vec![Some(18_292), Some(18_321), Some(18_352)]);
    assert!(matches!(out.dtype, TemporalType::Date));
    assert_eq!(out.name, "r");
}

#[test]
fn range_dispatch_of_dates_with_hours_gives_instants() {
    let s = [series("start", TemporalType::Date, vec![Some(1)]), series("stop", TemporalType::Date, vec![Some(2)])];
    let out = temporal_range_dispatch(&s, "r", Duration::parse("12h").unwrap(), ClosedWindow::Both, None, None).unwrap();
    let h = 3_600_000_000i64;
    assert_eq!(out.values, vec![Some(24 * h), Some(36 * h), Some(48 * h)]);
    assert!(matches!(out.dtype, TemporalType::Datetime(TimeUnit::Microseconds, None)));
    let out = temporal_range_dispatch(&s, "r", Duration::parse("12h1ns").unwrap(), ClosedWindow::Left, None, None).unwrap();
    assert!(matches!(out.dtype, TemporalType::Datetime(TimeUnit::Nanoseconds, None)));
    assert_eq!(out.values, vec![Some(24 * h * 1000), Some(36 * h * 1000 + 1)]);
    let out = temporal_range_dispatch(&s, "r", Duration::parse("12h").unwrap(), ClosedWindow::Both, Some(TimeUnit::Milliseconds), None).unwrap();
    assert_eq!(out.values, vec![Some(DAY_MS), Some(DAY_MS + DAY_MS / 2), Some(2 * DAY_MS)]);
}

#[test]
fn range_dispatch_in_zone_steps_on_local_clock() {
    let zone = || Some(Zone::parse("Europe/Amsterdam").unwrap());
    let dtype = || TemporalType::Datetime(TimeUnit::Milliseconds, zone());
    let s = [series("start", dtype(), vec![Some(1_616_799_600_000)]), series("stop", dtype(), vec![Some(1_616_968_800_000)])];
    let out = temporal_range_dispatch(&s, "r", Duration::parse("1d").unwrap(), ClosedWindow::Both, None, None).unwrap();
    assert_eq!(out.values, vec![Some(1_616_799_600_000), Some(1_616_886_000_000), Some(1_616_968_800_000)]);
    assert!(matches!(out.dtype, TemporalType::Datetime(TimeUnit::Milliseconds, Some(Zone::Named(ref n))) if n == "Europe/Amsterdam"));
}

#[test]
fn range_dispatch_failures() {
    let date = |v| series("d", TemporalType::Date, v);
    let every = || Duration::parse("1d").unwrap();
    let e = temporal_range_dispatch(&[date(vec![Some(1)]), date(vec![])], "r", every(), ClosedWindow::Both, None, None).unwrap_err();
    assert_eq!(e.reason, Reason::LengthMismatch);
    let e = temporal_range_dispatch(&[date(vec![None]), date(vec![Some(2)])], "r", every(), ClosedWindow::Both, None, None).unwrap_err();
    assert_eq!(e.reason, Reason::OutOfRange);
    let e = temporal_range_dispatch(&[date(vec![Some(1)]), date(vec![Some(2)])], "r", Duration::parse("0d").unwrap(), ClosedWindow::Both, None, None).unwrap_err();
    assert_eq!(e.reason, Reason::NonPositiveInterval);
    let bad = TemporalType::Datetime(TimeUnit::Milliseconds, Some(Zone::Named(String::from("Nowhere/Land"))));
    let good = TemporalType::Datetime(TimeUnit::Milliseconds, Some(Zone::Named(String::from("Nowhere/Land"))));
    let e = temporal_range_dispatch(&[series("a", bad, vec![Some(1)]), series("b", good, vec![Some(2)])], "r", every(), ClosedWindow::Both, None, None).unwrap_err();
    assert_eq!(e.reason, Reason::UnknownTimeZone);
    assert_eq!(e.literal, "Nowhere/Land");
}

#[test]
fn ranges_dispatch_row_by_row() {
    let s = [series("start", TemporalType::Time, vec![Some(0), None, Some(10)]), series("stop", TemporalType::Time, vec![Some(4), Some(4), Some(5)])];
    let out = temporal_ranges_dispatch(&s, "r", Duration::parse("2ns").unwrap(), ClosedWindow::Both, None, None).unwrap();
    assert_eq!(out.values, vec![Some(vec![0, 2, 4]), None, Some(vec![])]);
    assert!(matches!(out.dtype, TemporalType::Time));
}

#[test]
fn date_range_over_series() {
    let s = [series("start", TemporalType::Date, vec![Some(18_262)]), series("stop", TemporalType::Date, vec![Some(18_268)])];
    let out = date_range(&s, None, Duration::parse("3d").unwrap(), ClosedWindow::Both).unwrap();
    assert_eq!(out.values, vec![Some(18_262), Some(18_265), Some(18_268)]);
    assert_eq!(out.name, "start");
    let out = date_range(&s[..1], Some(2), Duration::parse("1w").unwrap(), ClosedWindow::Both).unwrap();
    assert_eq!(out.values, vec![Some(18_262), Some(18_269)]);
    let e = date_range(&s, None, Duration::parse("36h").unwrap(), ClosedWindow::Both).unwrap_err();
    assert_eq!(e.reason, Reason::NotFullDays);
    assert_eq!(e.literal, "129600000000000ns");
    let two = [series("start", TemporalType::Date, vec![Some(1), Some(2)]), series("stop", TemporalType::Date, vec![Some(5)])];
    assert_eq!(date_range(&two, None, Duration::parse("1d").unwrap(), ClosedWindow::Both).unwrap_err().reason, Reason::LengthMismatch);
}

#[test]
fn date_ranges_broadcast_start() {
    let s = [series("start", TemporalType::Date, vec![Some(10)]), series("stop", TemporalType::Date, vec![Some(12), None, Some(9)])];
    let out = date_ranges(&s, Duration::parse("1d").unwrap(), ClosedWindow::Left).unwrap();
    assert_eq!(out.values, vec![Some(vec![10, 11]), None, Some(vec![])]);
    assert_eq!(date_ranges(&s, Duration::parse("1h").unwrap(), ClosedWindow::Left).unwrap_err().reason, Reason::NotFullDays);
}

#[test]
fn offset_dates_and_instants() {
    let dates = series("d", TemporalType::Date, vec![Some(18_292), None, Some(18_321)]);
    let out = date_offset(&dates, &strings(&[Some("1mo")])).unwrap();
    assert_eq!(out.values, vec![Some(18_321), None, Some(18_350)]);
    assert_eq!(out.sorted, IsSorted::Ascending);
    let out = date_offset(&dates, &strings(&[Some("1d"), Some("1d"), None])).unwrap();
    assert_eq!(out.values, vec![Some(18_293), None, None]);
    let out = date_offset(&dates, &strings(&[None])).unwrap();
    assert_eq!(out.values, dates.values);
    let zoned = series("t", TemporalType::Datetime(TimeUnit::Milliseconds, Some(Zone::parse("Europe/Amsterdam").unwrap())), vec![Some(1_616_799_600_000)]);
    let out = date_offset(&zoned, &strings(&[Some("2d")])).unwrap();
    assert_eq!(out.values, vec![Some(1_616_968_800_000)]);
    assert_eq!(out.sorted, IsSorted::Not);
    let out = date_offset(&zoned, &strings(&[Some("48h")])).unwrap();
    assert_eq!(out.values, vec![Some(1_616_799_600_000 + 2 * DAY_MS)]);
    assert_eq!(out.sorted, IsSorted::Ascending);
}

#[test]
fn offset_failures() {
    let times = series("t", TemporalType::Time, vec![Some(0)]);
    let e = date_offset(&times, &strings(&[Some("1h")])).unwrap_err();
    assert_eq!(e.reason, Reason::UnsupportedType);
    assert_eq!(e.literal, "time");
    assert_eq!(e.message(), "operation does not support this type: 'time'");
    let dates = series("d", TemporalType::Date, vec![Some(1), Some(2)]);
    let e = date_offset(&dates, &strings(&[Some("1d"), Some("tomorrow")])).unwrap_err();
    assert_eq!(e.reason, Reason::MalformedDuration);
    assert_eq!(e.literal, "tomorrow");
    assert_eq!(date_offset(&dates, &strings(&[])).unwrap_err().reason, Reason::LengthMismatch);
    let r = compute_kernel2(&vec![Some(5), None], &vec![Some(String::from("3us")), Some(String::from("1us"))], TimeUnit::Microseconds, None);
    assert_eq!(r.unwrap(), vec![Some(8), None]);
    let r = compute_kernel2(&vec![Some(5)], &vec![None], TimeUnit::Microseconds, None);
    assert_eq!(r.unwrap(), vec![None]);
}

#[test]
fn combine_dates_and_times() {
    let h = 3_600_000_000_000i64;
    let s = [series("d", TemporalType::Date, vec![Some(18_321), Some(0), None]), series("t", TemporalType::Time, vec![Some(12 * h + 1_999), Some(h), Some(0)])];
    let out = combine(&s, TimeUnit::Microseconds).unwrap();
    assert_eq!(out.values, vec![Some(18_321 * DAY_MS * 1000 + 12 * 3_600_000_000 + 1), Some(3_600_000_000), None]);
    assert!(matches!(out.dtype, TemporalType::Datetime(TimeUnit::Microseconds, None)));
    assert_eq!(out.name, "d");
    let zoned = TemporalType::Datetime(TimeUnit::Milliseconds, Some(Zone::parse("Europe/Amsterdam").unwrap()));
    // The date of the instant 2021-03-27T12:00Z with the time 00:00 is local midnight of the 27th.
    let s = [series("d", zoned, vec![Some(1_616_846_400_000)]), series("t", TemporalType::Time, vec![Some(0)])];
    assert_eq!(combine(&s, TimeUnit::Milliseconds).unwrap().values, vec![Some(1_616_799_600_000)]);
    let wrong = [series("d", TemporalType::Time, vec![Some(0)]), series("t", TemporalType::Time, vec![Some(0)])];
    let e = combine(&wrong, TimeUnit::Milliseconds).unwrap_err();
    assert_eq!(e.reason, Reason::UnsupportedType);
    assert_eq!(e.literal, "time");
    let zone = Some(Zone::parse("Asia/Tokyo").unwrap());
    let wrong = [series("d", TemporalType::Date, vec![Some(0)]), series("t", TemporalType::Datetime(TimeUnit::Microseconds, zone), vec![Some(0)])];
    let e = combine(&wrong, TimeUnit::Milliseconds).unwrap_err();
    assert_eq!(e.literal, "datetime[us, Asia/Tokyo]");
    assert_eq!(e.message(), "operation does not support this type: 'datetime[us, Asia/Tokyo]'");
    assert_eq!(TemporalType::Date.name(), "date");
    assert_eq!(TemporalType::Datetime(TimeUnit::Nanoseconds, None).name(), "datetime[ns]");
    assert_eq!(TemporalType::Datetime(TimeUnit::Milliseconds, Some(Zone::Fixed(60))).name(), "datetime[ms]");
}

#[test]
fn datetime_from_parts() {
    let s = [
        ints(vec![Some(2020), Some(2021), Some(2020), None]),
        ints(vec![Some(2)]),
        ints(vec![Some(29)]),
        ints(vec![Some(12)]),
        ints(vec![Some(30)]),
        ints(vec![Some(15)]),
        ints(vec![Some(500_000), Some(0), Some(-1), Some(0)]),
    ];
    let out = datetime(&s, &TimeUnit::Milliseconds, None, None).unwrap();
    assert_eq!(out.values, vec![Some(1_582_979_415_500), None, None, None]);
    assert_eq!(out.name, "datetime");
    assert!(out.time_zone.is_none());
}

#[test]
fn datetime_in_zone_resolves_fold() {
    let parts = |hour: i64| [ints(vec![Some(2021)]), ints(vec![Some(11)]), ints(vec![Some(7)]), ints(vec![Some(hour)]), ints(vec![Some(30)]), ints(vec![Some(0)]), ints(vec![Some(0)])];
    let us = TimeUnit::Microseconds;
    let out = datetime(&parts(1), &us, Some("America/New_York"), Some(true)).unwrap();
    assert_eq!(out.values, vec![Some(1_636_263_000_000_000)]);
    let out = datetime(&parts(1), &us, Some("America/New_York"), Some(false)).unwrap();
    assert_eq!(out.values, vec![Some(1_636_266_600_000_000)]);
    let e = datetime(&parts(1), &us, Some("America/New_York"), None).unwrap_err();
    assert_eq!(e.reason, Reason::AmbiguousLocalTime);
    assert_eq!(e.literal, "America/New_York");
    let e = datetime(&parts(1), &us, Some("America/Old_York"), None).unwrap_err();
    assert_eq!(e.reason, Reason::UnknownTimeZone);
    let mut empty = parts(1);
    empty[3] = ints(vec![]);
    assert_eq!(datetime(&empty, &us, None, None).unwrap_err().reason, Reason::LengthMismatch);
    let far = [ints(vec![Some(9999)]), ints(vec![Some(1)]), ints(vec![Some(1)]), ints(vec![Some(0)]), ints(vec![Some(0)]), ints(vec![Some(0)]), ints(vec![Some(0)])];
    assert_eq!(datetime(&far, &TimeUnit::Nanoseconds, None, None).unwrap_err().reason, Reason::OutOfRange);
}

#[test]
fn day_counts() {
    let r = business_day_count_impl(&vec![Some(18_262), None, Some(5)], &vec![Some(18_292), Some(1), Some(3)]).unwrap();
    assert_eq!(r, vec![Some(30), None, Some(-2)]);
    let r = business_day_count_impl(&vec![Some(1)], &vec![Some(4), Some(5)]).unwrap();
    assert_eq!(r, vec![Some(3), Some(4)]);
    assert_eq!(business_day_count_impl(&vec![Some(i32::MIN)], &vec![Some(1)]).unwrap_err().reason, Reason::OutOfRange);
    assert_eq!(business_day_count_impl(&vec![Some(1), Some(2)], &vec![Some(1), Some(2), Some(3)]).unwrap_err().reason, Reason::LengthMismatch);
    let cols = [
        DateColumn { name: String::from("start"), values: vec![Some(19_357)], sorted: IsSorted::Not },
        DateColumn { name: String::from("end"), values: vec![Some(19_359)], sorted: IsSorted::Not },
    ];
    let out = business_day_count(&cols).unwrap();
    assert_eq!(out.values, vec![Some(2)]);
    assert_eq!(out.name, "start");
}
