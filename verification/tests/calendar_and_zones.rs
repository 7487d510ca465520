use temporal_kernels::arith::{floor_div, floor_mod};
use temporal_kernels::cache::{integer_sqrt, DurationCache};
use temporal_kernels::calendar::{civil_from_day, day_from_civil, leap_year, month_floor, month_length, shift_months, CivilDate};
use temporal_kernels::duration::Duration;
use temporal_kernels::error::Reason;
use temporal_kernels::timezone::{parse_fixed_offset, same_text, AmbiguousPolicy, Zone};
use temporal_kernels::window::{floor_to_multiple, round_half_away};

#[test]
fn floor_division() {
    assert_eq!(floor_div(7, 2), 3);
    assert_eq!(floor_div(-7, 2), -4);
    assert_eq!(floor_mod(-7, 2), 1);
    assert_eq!(floor_mod(7, 2), 1);
    assert_eq!(floor_div(i64::MIN, 1), i64::MIN);
    assert_eq!(floor_mod(i64::MIN, 10), 2);
}

#[test]
fn days_and_civil_dates() {
    assert_eq!(civil_from_day(0), Ok(CivilDate { year: 1970, month: 1, day: 1 }));
    assert_eq!(civil_from_day(18_321), Ok(CivilDate { year: 2020, month: 2, day: 29 }));
    assert_eq!(civil_from_day(-1), Ok(CivilDate { year: 1969, month: 12, day: 31 }));
    assert_eq!(civil_from_day(-719_162), Ok(CivilDate { year: 1, month: 1, day: 1 }));
    assert_eq!(civil_from_day(i64::MAX), Err(Reason::OutOfRange));
    assert_eq!(civil_from_day(100_000_000), Err(Reason::OutOfRange));
    assert_eq!(day_from_civil(2020, 2, 29), Ok(18_321));
    assert_eq!(day_from_civil(1970, 1, 1), Ok(0));
    assert_eq!(day_from_civil(2021, 2, 29), Err(Reason::OutOfRange));
    assert_eq!(day_from_civil(400_000, 1, 1), Err(Reason::OutOfRange));
    assert_eq!(day_from_civil(1 << 40, 1, 1), Err(Reason::OutOfRange));
}

#[test]
fn month_lengths() {
    assert!(leap_year(2000));
    assert!(leap_year(2024));
    assert!(leap_year(-4));
    assert!(!leap_year(1900));
    assert!(!leap_year(2023));
    let lengths: Vec<i64> = (1..=12).map(|m| month_length(2023, m)).collect();
    assert_eq!(lengths, vec![31, 28, 31, 30, 31, 30, 31, 31, 30, 31, 30, 31]);
    assert_eq!(month_length(2024, 2), 29);
}

#[test]
fn moving_by_months() {
    assert_eq!(shift_months(18_292, 1), Ok(18_321)); // 2020-01-31 -> 2020-02-29
    assert_eq!(shift_months(18_352, -1), Ok(18_321)); // 2020-03-31 -> 2020-02-29
    assert_eq!(shift_months(18_321, 12), Ok(18_321 + 365)); // 2020-02-29 -> 2021-02-28
    assert_eq!(shift_months(0, -1), Ok(-31));
    assert_eq!(shift_months(0, 0), Ok(0));
    assert_eq!(shift_months(0, i64::MAX), Err(Reason::OutOfRange));
    assert_eq!(month_floor(18_321, 1), Ok(18_293)); // -> 2020-02-01
    assert_eq!(month_floor(18_321, 3), Ok(18_262)); // quarter -> 2020-01-01
    assert_eq!(month_floor(18_321, 12), Ok(18_262));
    assert_eq!(month_floor(-1, 1), Ok(-31));
}

#[test]
fn fixed_offsets() {
    assert_eq!(parse_fixed_offset(b"+01:00"), Some(3_600));
    assert_eq!(parse_fixed_offset(b"-05:30"), Some(-19_800));
    assert_eq!(parse_fixed_offset(b"00:00"), Some(0));
    assert_eq!(parse_fixed_offset(b"5:7"), Some(18_420));
    assert_eq!(parse_fixed_offset(b"23:59"), Some(86_340));
    for bad in [&b"24:00"[..], b"+0100", b"01:", b":30", b"", b"+", b"01:00:00", b"1h", b"01:0x", b"99999999999999999999:00"] {
        assert_eq!(parse_fixed_offset(bad), None, "{:?}", bad);
    }
}

#[test]
fn policies_and_text() {
    assert_eq!(AmbiguousPolicy::parse("earliest"), Some(AmbiguousPolicy::Earliest));
    assert_eq!(AmbiguousPolicy::parse("latest"), Some(AmbiguousPolicy::Latest));
    assert_eq!(AmbiguousPolicy::parse("raise"), Some(AmbiguousPolicy::Raise));
    assert_eq!(AmbiguousPolicy::parse("null"), Some(AmbiguousPolicy::Null));
    assert_eq!(AmbiguousPolicy::parse("Earliest"), None);
    assert!(same_text("abc", "abc"));
    assert!(!same_text("abc", "abd"));
    assert!(Zone::Fixed(0).is_usable());
    assert!(!Zone::Named(String::from("No/Where")).is_usable());
    assert!(Zone::parse_named("Asia/Tokyo").is_ok());
}

#[test]
fn closed_forms() {
    assert_eq!(round_half_away(5, 10), Ok(10));
    assert_eq!(round_half_away(-5, 10), Ok(-10));
    assert_eq!(round_half_away(1, 3), Ok(0));
    assert_eq!(round_half_away(2, 3), Ok(3));
    assert_eq!(round_half_away(-2, 3), Ok(-3));
    assert_eq!(round_half_away(0, 7), Ok(0));
    assert_eq!(round_half_away(i64::MAX, 10), Err(Reason::OutOfRange));
    assert_eq!(round_half_away(i64::MIN, 10), Err(Reason::OutOfRange));
    assert_eq!(round_half_away(i64::MAX, 1), Ok(i64::MAX));
    assert_eq!(floor_to_multiple(-1, 10), Ok(-10));
    assert_eq!(floor_to_multiple(19, 10), Ok(10));
    assert_eq!(floor_to_multiple(i64::MIN, 10), Err(Reason::OutOfRange));
}

#[test]
fn square_roots_and_cache() {
    assert_eq!(integer_sqrt(0), 0);
    assert_eq!(integer_sqrt(15), 3);
    assert_eq!(integer_sqrt(16), 4);
    assert_eq!(integer_sqrt(usize::MAX), (usize::MAX as f64).sqrt() as usize - 1);
    let mut cache = DurationCache::new(4);
    for text in ["1h", "2h", "1h", "3h", "oops", "1h", "2h", "oops"] {
        assert_eq!(cache.get_or_insert(text), Duration::parse(text).ok());
    }
}
