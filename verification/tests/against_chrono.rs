use chrono::{Datelike, LocalResult, Months, NaiveDate, Offset, TimeZone};
use temporal_kernels::calendar::{civil_from_day, day_from_civil, shift_months, CivilDate};
use temporal_kernels::cast_timezone::from_to;
use temporal_kernels::duration::Duration;
use temporal_kernels::timezone::{AmbiguousPolicy, LocalOffsets, Zone};
use temporal_kernels::units::TimeUnit;

fn epoch() -> NaiveDate {
    NaiveDate::from_ymd_opt(1970, 1, 1).unwrap()
}

#[test]
fn civil_dates_agree_with_chrono() {
    let mut day = -800_000i64;
    while day < 800_000 {
        let date = epoch() + chrono::Duration::days(day);
        let civil = CivilDate { year: date.year(), month: date.month(), day: date.day() };
        assert_eq!(civil_from_day(day), Ok(civil));
        assert_eq!(day_from_civil(date.year() as i64, date.month() as i64, date.day() as i64), Ok(day));
        day += 97;
    }
}

#[test]
fn month_shifts_agree_with_chrono() {
    let mut day = -40_000i64;
    while day < 40_000 {
        let date = epoch() + chrono::Duration::days(day);
        for months in [1u32, 2, 11, 12, 13, 25, 120] {
            let forward = date.checked_add_months(Months::new(months)).unwrap();
            let backward = date.checked_sub_months(Months::new(months)).unwrap();
            assert_eq!(shift_months(day, months as i64), Ok((forward - epoch()).num_days()));
            assert_eq!(shift_months(day, -(months as i64)), Ok((backward - epoch()).num_days()));
        }
        day += 13;
    }
}

#[test]
fn zone_offsets_agree_with_chrono_tz() {
    for name in ["Europe/Amsterdam", "America/New_York", "Asia/Kolkata", "Australia/Lord_Howe", "UTC", "Pacific/Apia"] {
        let zone = Zone::parse(name).unwrap();
        let tz: chrono_tz::Tz = name.parse().unwrap();
        // Every half hour of 2011 and of 2021, as instants and as clock readings.
        for start in [1_293_840_000i64, 1_609_459_200] {
            let mut secs = start;
            while secs < start + 366 * 86_400 {
                let utc = chrono::DateTime::from_timestamp(secs, 0).unwrap().naive_utc();
                let offset = tz.offset_from_utc_datetime(&utc).fix().local_minus_utc();
                assert_eq!(zone.offset_at_utc(secs), Ok(offset), "{} at {}", name, secs);
                assert_eq!(zone.to_local(secs * 1_000, TimeUnit::Milliseconds), Ok((secs + offset as i64) * 1_000));
                let expected = match tz.from_local_datetime(&utc) {
                    LocalResult::None => LocalOffsets::Gap,
                    LocalResult::Single(t) => LocalOffsets::Single((secs - t.timestamp()) as i32),
                    LocalResult::Ambiguous(a, b) => LocalOffsets::Fold((secs - a.timestamp()) as i32, (secs - b.timestamp()) as i32),
                };
                assert_eq!(zone.offsets_at_local(secs), Ok(expected), "{} at local {}", name, secs);
                if let LocalOffsets::Fold(first, second) = expected {
                    assert!(first > second, "the earlier instant has the greater offset");
                    assert_eq!(zone.to_utc(secs * 1_000, TimeUnit::Milliseconds, AmbiguousPolicy::Earliest), Ok(Some((secs - first as i64) * 1_000)));
                    assert_eq!(zone.to_utc(secs * 1_000, TimeUnit::Milliseconds, AmbiguousPolicy::Latest), Ok(Some((secs - second as i64) * 1_000)));
                }
                secs += 1_800;
            }
        }
    }
}

#[test]
fn conversions_agree_with_chrono_tz() {
    let from: chrono_tz::Tz = "America/New_York".parse().unwrap();
    let to: chrono_tz::Tz = "Asia/Kolkata".parse().unwrap();
    let a = Zone::parse("America/New_York").unwrap();
    let b = Zone::parse("Asia/Kolkata").unwrap();
    let mut secs = 1_609_459_200i64;
    while secs < 1_609_459_200 + 365 * 86_400 {
        let local = chrono::DateTime::from_timestamp(secs, 0).unwrap().naive_utc();
        let got = from_to(&a, &b, secs * 1_000_000, TimeUnit::Microseconds);
        match from.from_local_datetime(&local) {
            LocalResult::Single(t) => {
                let there = t.with_timezone(&to).naive_local().and_utc().timestamp();
                assert_eq!(got, Ok(there * 1_000_000));
            },
            _ => assert!(got.is_err()),
        }
        secs += 3_000;
    }
}

#[test]
fn adding_days_in_a_zone_agrees_with_chrono_tz() {
    let tz: chrono_tz::Tz = "Europe/Amsterdam".parse().unwrap();
    let zone = Zone::parse("Europe/Amsterdam").unwrap();
    let day = Duration::parse("1d").unwrap();
    let mut secs = 1_609_459_200i64 + 11 * 3_600;
    for _ in 0..365 {
        let local = tz.timestamp_opt(secs, 0).unwrap().naive_local();
        let next = tz.from_local_datetime(&(local + chrono::Duration::days(1))).unwrap().timestamp();
        assert_eq!(day.add_ms(secs * 1_000, Some(&zone)), Ok(next * 1_000));
        secs = next;
    }
}
