use temporal_kernels::duration::Duration;
use temporal_kernels::error::Reason;
use temporal_kernels::timezone::Zone;
use temporal_kernels::units::TimeUnit;
use temporal_kernels::window::Window;

fn ns(n: i64) -> Duration {
    Duration { months: 0, weeks: 0, days: 0, nsecs: n, negative: false, parsed_int: false }
}

fn window(every: Duration) -> Window {
    Window::new(every, every, ns(0))
}

#[test]
fn round_tie_goes_away_from_zero() {
    let w = window(ns(10));
    assert_eq!(w.round_ns(5, None), Ok(10));
    assert_eq!(w.round_ns(-5, None), Ok(-10));
    assert_eq!(w.round_ns(4, None), Ok(0));
    assert_eq!(w.round_ns(-4, None), Ok(0));
    assert_eq!(w.round_ns(-15, None), Ok(-20));
    assert_eq!(w.round_ns(15, None), Ok(20));
}

#[test]
fn truncate_floors_negative_instants() {
    let w = window(ns(10));
    assert_eq!(w.truncate_ns(17, None), Ok(10));
    assert_eq!(w.truncate_ns(-1, None), Ok(-10));
    assert_eq!(w.truncate_ns(-10, None), Ok(-10));
}

#[test]
fn truncate_with_offset_anchors_buckets() {
    let w = Window::new(ns(10), ns(10), ns(3));
    assert_eq!(w.truncate_ns(12, None), Ok(3));
    assert_eq!(w.truncate_ns(13, None), Ok(13));
    assert_eq!(w.truncate_ns(2, None), Ok(-7));
}

#[test]
fn truncate_rejects_zero_and_negative() {
    assert_eq!(window(ns(0)).truncate_ns(5, None), Err(Reason::ZeroDuration));
    assert_eq!(window(ns(0)).round_ns(5, None), Err(Reason::ZeroDuration));
    let neg = Duration::parse("-1h").unwrap();
    assert_eq!(window(neg).truncate_ms(5, None), Err(Reason::NegativeDuration));
    assert_eq!(window(neg).round_ms(5, None), Err(Reason::NegativeDuration));
}

#[test]
fn truncate_rejects_mixed_units() {
    let d = Duration::parse("1mo1d").unwrap();
    assert_eq!(window(d).truncate_ms(0, None), Err(Reason::MixedUnits));
}

#[test]
fn truncate_to_month_start() {
    // 2020-02-15T12:00:00Z -> 2020-02-01T00:00:00Z
    let w = window(Duration::parse("1mo").unwrap());
    assert_eq!(w.truncate_ms(1_581_768_000_000, None), Ok(1_580_515_200_000));
}

#[test]
fn truncate_to_week_starts_on_monday() {
    // 2020-02-15 is a Saturday; the week starts on Monday 2020-02-10.
    let w = window(Duration::parse("1w").unwrap());
    assert_eq!(w.truncate_ms(1_581_768_000_000, None), Ok(1_581_292_800_000));
}

#[test]
fn truncate_to_day_in_zone_uses_local_midnight() {
    // 2021-06-01T10:00:00Z is 12:00 in Amsterdam; local midnight is 2021-05-31T22:00:00Z.
    let zone = Zone::parse("Europe/Amsterdam").unwrap();
    let w = window(Duration::parse("1d").unwrap());
    assert_eq!(w.truncate_ms(1_622_541_600_000, Some(&zone)), Ok(1_622_498_400_000));
}

#[test]
fn round_to_day_picks_nearer_midnight() {
    let w = window(Duration::parse("1d").unwrap());
    // 2020-02-15T12:00:00Z is halfway: goes up to 2020-02-16.
    assert_eq!(w.round_ms(1_581_768_000_000, None), Ok(1_581_811_200_000));
    // 2020-02-15T11:59:59.999Z goes down.
    assert_eq!(w.round_ms(1_581_767_999_999, None), Ok(1_581_724_800_000));
}

#[test]
fn add_month_then_fixed_part() {
    let d = Duration::parse("1mo1h").unwrap();
    // 2020-01-31T00:00 + 1mo -> 2020-02-29T00:00, + 1h
    assert_eq!(d.add(1_580_428_800_000, TimeUnit::Milliseconds, None), Ok(1_582_934_400_000 + 3_600_000));
    let back = Duration::parse("-1mo").unwrap();
    // 2020-03-31 - 1mo -> 2020-02-29
    assert_eq!(back.add_ms(1_585_612_800_000, None), Ok(1_582_934_400_000));
}

#[test]
fn add_day_into_gap_fails() {
    // 2021-03-27T02:30 local in Amsterdam plus one day lands in the spring-forward gap.
    let zone = Zone::parse("Europe/Amsterdam").unwrap();
    let d = Duration::parse("1d").unwrap();
    let start = 1_616_808_600_000i64; // 2021-03-27T01:30:00Z = 02:30 local
    assert_eq!(d.add_ms(start, Some(&zone)), Err(Reason::NonExistentLocalTime));
}

#[test]
fn unknown_zone_is_reported() {
    let e = Zone::parse("Mars/Olympus").unwrap_err();
    assert_eq!(e.reason, Reason::UnparsedTimeZone);
    assert_eq!(e.literal, "Mars/Olympus");
    assert_eq!(e.message(), "Could not parse timezone: 'Mars/Olympus'");
    let e = Zone::parse_named("Mars/Olympus").unwrap_err();
    assert_eq!(e.reason, Reason::UnknownTimeZone);
    assert_eq!(e.message(), "unable to parse time zone: 'Mars/Olympus'");
    let fixed = Zone::parse("-05:30").unwrap();
    assert!(matches!(fixed, Zone::Fixed(-19_800)));
}

#[test]
fn truncation_brackets_the_instant() {
    for (every, offset) in [(7i64, 0i64), (10, 3), (1, 0), (1_000, 999)] {
        let w = Window::new(ns(every), ns(every), ns(offset));
        for t in -50i64..50 {
            let start = w.truncate_ns(t, None).unwrap();
            assert!(start <= t && t < start + every);
            assert_eq!((start - offset).rem_euclid(every), 0);
        }
    }
}

#[test]
fn fixed_steps_keep_order() {
    let w = Window::new(ns(7), ns(7), ns(2));
    let mut last_truncated = i64::MIN;
    let mut last_rounded = i64::MIN;
    for t in -40i64..40 {
        let truncated = w.truncate_ns(t, None).unwrap();
        let rounded = w.round_ns(t, None).unwrap();
        assert!(last_truncated <= truncated);
        assert!(last_rounded <= rounded);
        last_truncated = truncated;
        last_rounded = rounded;
    }
}

#[test]
fn steps_below_one_tick_are_zero_steps() {
    let w = window(ns(500));
    assert_eq!(w.truncate_ms(1_234, None), Err(Reason::ZeroDuration));
    assert_eq!(w.round_us(1_234, None), Err(Reason::ZeroDuration));
    assert_eq!(w.truncate_ns(1_234, None), Ok(1_000));
    assert_eq!(window(ns(1_500)).truncate_us(7, None), Ok(7));
    assert_eq!(window(ns(2_000)).truncate_us(7, None), Ok(6));
    assert_eq!(Duration::parse("500us").unwrap().truncate(9, TimeUnit::Milliseconds, None), Err(Reason::ZeroDuration));
}

#[test]
fn boundaries_out_of_range_are_errors() {
    let w = window(ns(10));
    assert_eq!(w.truncate_ns(i64::MIN, None), Err(Reason::OutOfRange));
    assert_eq!(w.round_ns(i64::MAX, None), Err(Reason::OutOfRange));
    assert_eq!(w.round_ns(i64::MAX - 4, None), Ok(i64::MAX - 7));
}
