use temporal_kernels::duration::Duration;
use temporal_kernels::error::{ErrorKind, Reason};
use temporal_kernels::timezone::Zone;
use temporal_kernels::units::TimeUnit;

fn parts(months: i64, weeks: i64, days: i64, nsecs: i64) -> Duration {
    Duration { months, weeks, days, nsecs, negative: false, parsed_int: false }
}

#[test]
fn parse_mixed_units() {
    let d = Duration::parse("3mo2d4h").unwrap();
    assert_eq!(d.months, 3);
    assert_eq!(d.weeks, 0);
    assert_eq!(d.days, 2);
    assert_eq!(d.nsecs, 4 * 3_600_000_000_000);
    assert!(!d.negative);
    assert!(!d.parsed_int);
}

#[test]
fn parse_every_unit() {
    assert_eq!(Duration::parse("7ns").unwrap(), parts(0, 0, 0, 7));
    assert_eq!(Duration::parse("7us").unwrap(), parts(0, 0, 0, 7_000));
    assert_eq!(Duration::parse("7ms").unwrap(), parts(0, 0, 0, 7_000_000));
    assert_eq!(Duration::parse("7s").unwrap(), parts(0, 0, 0, 7_000_000_000));
    assert_eq!(Duration::parse("7m").unwrap(), parts(0, 0, 0, 420_000_000_000));
    assert_eq!(Duration::parse("7h").unwrap(), parts(0, 0, 0, 25_200_000_000_000));
    assert_eq!(Duration::parse("7d").unwrap(), parts(0, 0, 7, 0));
    assert_eq!(Duration::parse("7w").unwrap(), parts(0, 7, 0, 0));
    assert_eq!(Duration::parse("7mo").unwrap(), parts(7, 0, 0, 0));
    assert_eq!(Duration::parse("7y").unwrap(), parts(84, 0, 0, 0));
    assert_eq!(Duration::parse("1y2mo").unwrap(), parts(14, 0, 0, 0));
    assert_eq!(Duration::parse("1h1h1s").unwrap(), parts(0, 0, 0, 7_201_000_000_000));
    assert_eq!(Duration::parse("007d").unwrap(), parts(0, 0, 7, 0));
}

#[test]
fn parse_row_count_and_sign() {
    let d = Duration::parse("3i").unwrap();
    assert!(d.parsed_int);
    assert_eq!(d.nsecs, 3);
    assert_eq!(d, Duration::new(3));
    let d = Duration::parse("-1w2d").unwrap();
    assert!(d.negative);
    assert_eq!((d.weeks(), d.days(), d.months(), d.nanoseconds()), (1, 2, 0, 0));
    assert!(d.negative());
    let d = Duration::new(-5);
    assert!(d.negative);
    assert_eq!(d.nsecs, 5);
    assert_eq!(d.negated(), Duration::new(5));
}

#[test]
fn parse_rejects_unknown_unit() {
    let e = Duration::parse("3x").unwrap_err();
    assert_eq!(e.reason, Reason::MalformedDuration);
    assert_eq!(e.kind(), ErrorKind::Parse);
    assert_eq!(e.literal, "3x");
    assert_eq!(e.message(), "malformed duration expression: '3x'");
}

#[test]
fn parse_rejects_malformed_text() {
    for text in ["", "-", "10", "h", "1h 2m", "1.5h", "1h-2m", "+1h", "1H", "1hh", "1q", "1µs", "--1h", "1h-", "9223372036854775808ns", "9223372036854775807us", "800000000000000000y", "1d1"] {
        let e = Duration::parse(text).unwrap_err();
        assert_eq!(e.reason, Reason::MalformedDuration, "{:?}", text);
        assert_eq!(e.literal, text);
    }
    assert_eq!(Duration::parse("9223372036854775807ns").unwrap().nsecs, i64::MAX);
    assert!(Duration::parse("9223372036854775807ns1ns").is_err());
}

#[test]
fn lengths_in_ticks() {
    let d = Duration::parse("1w1d1500ns").unwrap();
    assert_eq!(d.ticks(TimeUnit::Nanoseconds), Some(8 * 86_400_000_000_000 + 1_500));
    assert_eq!(d.duration_ns(), 8 * 86_400_000_000_000 + 1_500);
    assert_eq!(d.duration_us(), 8 * 86_400_000_000 + 1);
    assert_eq!(d.duration_ms(), 8 * 86_400_000);
    assert_eq!(Duration::parse("1mo").unwrap().ticks(TimeUnit::Milliseconds), None);
    assert_eq!(parts(0, i64::MAX, 0, 0).ticks(TimeUnit::Nanoseconds), None);
    assert_eq!(parts(0, 15_250_284_452, 0, 0).ticks(TimeUnit::Milliseconds), Some(15_250_284_452 * 604_800_000));
}

#[test]
fn full_days_and_constant_durations() {
    assert!(Duration::parse("3d").unwrap().is_full_days());
    assert!(Duration::parse("48h").unwrap().is_full_days());
    assert!(Duration::parse("1mo").unwrap().is_full_days());
    assert!(!Duration::parse("36h").unwrap().is_full_days());
    assert!(!Duration::parse("1d1ns").unwrap().is_full_days());
    let hour = Duration::parse("1h").unwrap();
    let day = Duration::parse("1d").unwrap();
    let amsterdam = Zone::parse("Europe/Amsterdam").unwrap();
    let utc = Zone::parse("UTC").unwrap();
    assert!(hour.is_constant_duration(None));
    assert!(hour.is_constant_duration(Some(&utc)));
    assert!(hour.is_constant_duration(Some(&Zone::Fixed(3600))));
    assert!(!hour.is_constant_duration(Some(&amsterdam)));
    assert!(!day.is_constant_duration(None));
    assert!(!Duration::parse("1w").unwrap().is_constant_duration(None));
    assert!(!Duration::parse("1mo").unwrap().is_constant_duration(None));
    assert!(Duration::new(0).is_zero());
    assert!(!hour.is_zero());
    assert!(day.has_calendar_part());
}

#[test]
fn scaling_a_duration() {
    let d = Duration::parse("-1mo2d3ns").unwrap();
    let s = d.scaled(4).unwrap();
    assert_eq!((s.months, s.days, s.nsecs, s.negative), (4, 8, 12, true));
    assert!(d.scaled(0).unwrap().is_zero());
    assert!(parts(0, 0, 0, i64::MAX / 2 + 1).scaled(2).is_none());
    assert_eq!(parts(0, 0, 0, i64::MAX / 2).scaled(2).unwrap().nsecs, i64::MAX - 1);
}

#[test]
fn adding_fixed_and_calendar_parts() {
    let ms = TimeUnit::Milliseconds;
    assert_eq!(Duration::parse("1500us").unwrap().add(10, ms, None), Ok(11));
    assert_eq!(Duration::parse("-1500us").unwrap().add(10, ms, None), Ok(9));
    assert_eq!(Duration::parse("1ns").unwrap().add_ns(i64::MAX, None), Err(Reason::OutOfRange));
    assert_eq!(Duration::parse("1w1d").unwrap().add_ms(5, None), Ok(8 * 86_400_000 + 5));
    assert_eq!(Duration::parse("-1d").unwrap().add_us(5, None), Ok(5 - 86_400_000_000));
    assert_eq!(Duration::parse("12mo").unwrap().add_ms(1_582_934_400_000, None), Ok(1_614_470_400_000));
    assert_eq!(Duration::parse("1mo").unwrap().add_ms(i64::MAX, None), Err(Reason::OutOfRange));
    let unknown = Zone::Named(String::from("Middle/Earth"));
    assert_eq!(Duration::parse("1d").unwrap().add_ms(0, Some(&unknown)), Err(Reason::UnknownTimeZone));
}

#[test]
fn durations_as_text() {
    for text in ["3mo2d4h", "-1w", "7i", "1y", "5ns", "2w3d"] {
        let d = Duration::parse(text).unwrap();
        assert_eq!(Duration::parse(&d.to_text()).unwrap(), d, "{:?}", text);
    }
    assert_eq!(Duration::parse("3mo2d4h").unwrap().to_text(), "3mo2d14400000000000ns");
    assert_eq!(Duration::parse("-1w").unwrap().to_text(), "-1w");
    assert_eq!(Duration::new(0).to_text(), "0i");
    assert_eq!(Duration::parse("0h").unwrap().to_text(), "0ns");
    assert_eq!(Duration::parse("9223372036854775807ns").unwrap().to_text(), "9223372036854775807ns");
    assert_eq!(Duration::parse("120d").unwrap().to_text(), "120d");
}
