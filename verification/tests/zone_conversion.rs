use temporal_kernels::cast_timezone::{cast_timezone, convert_micros, convert_millis, convert_nanos, from_to};
use temporal_kernels::column::{DatetimeColumn, IsSorted, StringColumn};
use temporal_kernels::error::Reason;
use temporal_kernels::replace_time_zone::{parse_time_zone, replace_time_zone};
use temporal_kernels::timezone::{AmbiguousPolicy, LocalOffsets, Zone};
use temporal_kernels::units::TimeUnit;

fn policy(v: &[Option<&str>]) -> StringColumn {
    StringColumn { name: String::from("ambiguous"), values: v.iter().map(|o| o.map(String::from)).collect() }
}

fn column(values: Vec<Option<i64>>, zone: Option<&str>) -> DatetimeColumn {
    DatetimeColumn {
        name: String::from("t"),
        values,
        time_unit: TimeUnit::Milliseconds,
        time_zone: zone.map(|z| Zone::parse(z).unwrap()),
        sorted: IsSorted::Ascending,
    }
}

// 2021-06-01T12:00:00 as a count of milliseconds.
const NOON: i64 = 1_622_548_800_000;
// 2021-10-31T02:30:00, a clock reading that Amsterdam shows twice.
const FOLD: i64 = 1_635_647_400_000;
// 2021-03-28T02:30:00, a clock reading that Amsterdam never shows.
const GAP: i64 = 1_616_898_600_000;

#[test]
fn zone_offsets_come_from_the_database() {
    let z = Zone::parse("Europe/Amsterdam").unwrap();
    assert_eq!(z.offset_at_utc(NOON / 1000), Ok(7200));
    assert_eq!(z.offsets_at_local(FOLD / 1000), Ok(LocalOffsets::Fold(7200, 3600)));
    assert_eq!(z.offsets_at_local(GAP / 1000), Ok(LocalOffsets::Gap));
    assert_eq!(z.to_local(NOON, TimeUnit::Milliseconds), Ok(NOON + 7_200_000));
    assert_eq!(z.to_utc(NOON, TimeUnit::Milliseconds, AmbiguousPolicy::Raise), Ok(Some(NOON - 7_200_000)));
    let utc = Zone::parse("UTC").unwrap();
    assert!(utc.is_utc());
    assert_eq!(utc.offset_at_utc(NOON / 1000), Ok(0));
}

#[test]
fn replace_utc_by_zone_keeps_clock_reading() {
    let col = column(vec![Some(NOON), None], None);
    let out = replace_time_zone(&col, Some("Europe/Amsterdam"), &policy(&[Some("raise")])).unwrap();
    assert_eq!(out.values, vec![Some(NOON - 7_200_000), None]);
    assert!(matches!(out.time_zone, Some(Zone::Named(ref n)) if n == "Europe/Amsterdam"));
    assert_eq!(out.sorted, IsSorted::Ascending);
    assert_eq!(out.time_unit, TimeUnit::Milliseconds);
}

#[test]
fn replace_round_trip_recovers_instants() {
    let col = column(vec![Some(NOON), Some(NOON + 86_400_000)], Some("America/New_York"));
    let there = replace_time_zone(&col, Some("UTC"), &policy(&[Some("raise")])).unwrap();
    assert_eq!(there.values, vec![Some(NOON - 4 * 3_600_000), Some(NOON + 86_400_000 - 4 * 3_600_000)]);
    let back = replace_time_zone(&there, Some("America/New_York"), &policy(&[Some("raise")])).unwrap();
    assert_eq!(back.values, col.values);
}

#[test]
fn replace_resolves_fold_by_policy() {
    let col = column(vec![Some(FOLD)], None);
    let run = |p: &str| replace_time_zone(&col, Some("Europe/Amsterdam"), &policy(&[Some(p)]));
    assert_eq!(run("earliest").unwrap().values, vec![Some(FOLD - 7_200_000)]);
    assert_eq!(run("latest").unwrap().values, vec![Some(FOLD - 3_600_000)]);
    assert_eq!(run("null").unwrap().values, vec![None]);
    let e = run("raise").unwrap_err();
    assert_eq!(e.reason, Reason::AmbiguousLocalTime);
    assert_eq!(e.literal, "Europe/Amsterdam");
    let e = run("whenever").unwrap_err();
    assert_eq!(e.reason, Reason::UnknownAmbiguousPolicy);
    assert_eq!(e.literal, "whenever");
}

#[test]
fn replace_fails_in_gap_unless_null() {
    let col = column(vec![Some(GAP)], None);
    let e = replace_time_zone(&col, Some("Europe/Amsterdam"), &policy(&[Some("earliest")])).unwrap_err();
    assert_eq!(e.reason, Reason::NonExistentLocalTime);
    let out = replace_time_zone(&col, Some("Europe/Amsterdam"), &policy(&[Some("null")])).unwrap();
    assert_eq!(out.values, vec![None]);
}

#[test]
fn replace_with_policy_per_row() {
    let col = column(vec![Some(FOLD), Some(FOLD), Some(NOON), Some(NOON)], None);
    let p = policy(&[Some("earliest"), Some("latest"), Some("bogus"), None]);
    let out = replace_time_zone(&col, Some("Europe/Amsterdam"), &p).unwrap();
    assert_eq!(out.values, vec![Some(FOLD - 7_200_000), Some(FOLD - 3_600_000), Some(NOON - 7_200_000), None]);
    assert_eq!(out.sorted, IsSorted::Not);
    let e = replace_time_zone(&col, Some("Europe/Amsterdam"), &policy(&[Some("raise"), None])).unwrap_err();
    assert_eq!(e.reason, Reason::LengthMismatch);
}

#[test]
fn replace_null_policy_gives_all_null() {
    let col = column(vec![Some(NOON), Some(FOLD)], None);
    let out = replace_time_zone(&col, None, &policy(&[None])).unwrap();
    assert_eq!(out.values, vec![None, None]);
    assert!(out.time_zone.is_none());
}

#[test]
fn replace_reports_unknown_zone() {
    let col = column(vec![Some(NOON)], None);
    let e = replace_time_zone(&col, Some("Atlantis/Central"), &policy(&[Some("raise")])).unwrap_err();
    assert_eq!(e.reason, Reason::UnknownTimeZone);
    assert_eq!(e.literal, "Atlantis/Central");
    assert_eq!(e.message(), "unable to parse time zone: 'Atlantis/Central'");
    assert!(parse_time_zone("+01:00").is_err());
    assert!(parse_time_zone("Asia/Tokyo").is_ok());
}

#[test]
fn cast_between_named_zones() {
    // 12:00 in Tokyo is 05:00 in Amsterdam in summer.
    let out = cast_timezone(&vec![Some(NOON), None], TimeUnit::Milliseconds, String::from("Asia/Tokyo"), String::from("Europe/Amsterdam")).unwrap();
    assert_eq!(out, vec![Some(NOON - 7 * 3_600_000), None]);
}

#[test]
fn cast_between_fixed_offsets_and_zones() {
    let ms = TimeUnit::Milliseconds;
    let out = cast_timezone(&vec![Some(NOON)], ms, String::from("+01:00"), String::from("-05:30")).unwrap();
    assert_eq!(out, vec![Some(NOON - 6 * 3_600_000 - 1_800_000)]);
    let out = cast_timezone(&vec![Some(NOON)], ms, String::from("+02:00"), String::from("Asia/Tokyo")).unwrap();
    assert_eq!(out, vec![Some(NOON + 7 * 3_600_000)]);
    let out = cast_timezone(&vec![Some(NOON)], ms, String::from("Asia/Tokyo"), String::from("00:00")).unwrap();
    assert_eq!(out, vec![Some(NOON - 9 * 3_600_000)]);
}

#[test]
fn cast_reports_the_zone_that_does_not_parse() {
    let ms = TimeUnit::Milliseconds;
    let e = cast_timezone(&vec![], ms, String::from("nowhere"), String::from("nothing")).unwrap_err();
    assert_eq!(e.reason, Reason::UnparsedTimeZone);
    assert_eq!(e.literal, "nowhere");
    assert_eq!(e.message(), "Could not parse timezone: 'nowhere'");
    let e = cast_timezone(&vec![], ms, String::from("UTC"), String::from("25:00")).unwrap_err();
    assert_eq!(e.literal, "25:00");
    let e = cast_timezone(&vec![Some(0)], ms, String::from("UTC"), String::from("Not/AZone")).unwrap_err();
    assert_eq!(e.kind(), temporal_kernels::error::ErrorKind::Compute);
    assert_eq!(e.message(), "Could not parse timezone: 'Not/AZone'");
}

#[test]
fn cast_fails_on_reading_that_source_shows_twice() {
    let e = cast_timezone(&vec![Some(NOON), Some(FOLD)], TimeUnit::Milliseconds, String::from("Europe/Amsterdam"), String::from("UTC")).unwrap_err();
    assert_eq!(e.reason, Reason::AmbiguousLocalTime);
    assert_eq!(e.literal, "Europe/Amsterdam");
}

#[test]
fn convert_single_readings() {
    let a = Zone::parse("Asia/Tokyo").unwrap();
    let b = Zone::Fixed(3600);
    assert_eq!(convert_millis(NOON, &a, &b), Ok(NOON - 8 * 3_600_000));
    assert_eq!(convert_micros(NOON * 1_000 + 1, &a, &b), Ok((NOON - 8 * 3_600_000) * 1_000 + 1));
    assert_eq!(convert_nanos(NOON * 1_000_000 + 1, &a, &b), Ok((NOON - 8 * 3_600_000) * 1_000_000 + 1));
    assert_eq!(from_to(&b, &a, NOON * 1000, TimeUnit::Microseconds), Ok((NOON + 8 * 3_600_000) * 1000));
}

#[test]
fn microsecond_instants_beyond_chrono_are_out_of_range() {
    let z = Zone::parse("Asia/Tokyo").unwrap();
    assert_eq!(z.to_local(i64::MAX, TimeUnit::Microseconds), Err(Reason::OutOfRange));
}
