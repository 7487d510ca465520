use temporal_kernels::duration::Duration;
use temporal_kernels::error::Reason;
use temporal_kernels::range::{datetime_range_i64, ClosedWindow};
use temporal_kernels::timezone::Zone;
use temporal_kernels::units::TimeUnit;

fn ns(n: i64) -> Duration {
    Duration { months: 0, weeks: 0, days: 0, nsecs: n, negative: false, parsed_int: false }
}

#[test]
fn range_closed_both() {
    let r = datetime_range_i64(0, Some(10), None, ns(2), ClosedWindow::Both, TimeUnit::Nanoseconds, None);
    assert_eq!(r, Ok(vec![0, 2, 4, 6, 8, 10]));
}

#[test]
fn range_closed_left() {
    let r = datetime_range_i64(0, Some(10), None, ns(2), ClosedWindow::Left, TimeUnit::Nanoseconds, None);
    assert_eq!(r, Ok(vec![0, 2, 4, 6, 8]));
}

#[test]
fn range_closed_right() {
    let r = datetime_range_i64(0, Some(10), None, ns(2), ClosedWindow::Right, TimeUnit::Nanoseconds, None);
    assert_eq!(r, Ok(vec![2, 4, 6, 8, 10]));
}

#[test]
fn range_closed_neither() {
    let r = datetime_range_i64(0, Some(10), None, ns(2), ClosedWindow::Neither, TimeUnit::Nanoseconds, None);
    assert_eq!(r, Ok(vec![2, 4, 6, 8]));
}

#[test]
fn range_start_after_end_is_empty() {
    let r = datetime_range_i64(10, Some(0), None, ns(1), ClosedWindow::Both, TimeUnit::Nanoseconds, None);
    assert_eq!(r, Ok(vec![]));
}

#[test]
fn range_rejects_zero_interval() {
    let r = datetime_range_i64(0, Some(10), None, ns(0), ClosedWindow::Both, TimeUnit::Nanoseconds, None);
    assert_eq!(r, Err(Reason::NonPositiveInterval));
}

#[test]
fn range_rejects_negative_interval() {
    let d = Duration::parse("-1h").unwrap();
    let r = datetime_range_i64(0, Some(10), None, d, ClosedWindow::Both, TimeUnit::Milliseconds, None);
    assert_eq!(r, Err(Reason::NonPositiveInterval));
}

#[test]
fn range_rejects_interval_below_one_tick() {
    let r = datetime_range_i64(0, Some(10), None, ns(500), ClosedWindow::Both, TimeUnit::Milliseconds, None);
    assert_eq!(r, Err(Reason::NonPositiveInterval));
}

#[test]
fn range_by_periods() {
    let r = datetime_range_i64(5, None, Some(3), ns(10), ClosedWindow::Both, TimeUnit::Nanoseconds, None);
    assert_eq!(r, Ok(vec![5, 15, 25]));
    let r = datetime_range_i64(5, None, Some(3), ns(10), ClosedWindow::Right, TimeUnit::Nanoseconds, None);
    assert_eq!(r, Ok(vec![15, 25, 35]));
    let r = datetime_range_i64(5, None, Some(3), ns(10), ClosedWindow::Neither, TimeUnit::Nanoseconds, None);
    assert_eq!(r, Ok(vec![15, 25, 35]));
    let r = datetime_range_i64(5, None, Some(3), ns(10), ClosedWindow::Left, TimeUnit::Nanoseconds, None);
    assert_eq!(r, Ok(vec![5, 15, 25]));
    let r = datetime_range_i64(0, None, Some(3), ns(1_000_000), ClosedWindow::Right, TimeUnit::Milliseconds, None);
    assert_eq!(r, Ok(vec![1, 2, 3]));
    for closed in [ClosedWindow::Both, ClosedWindow::Left, ClosedWindow::Right, ClosedWindow::Neither] {
        assert_eq!(datetime_range_i64(5, None, Some(0), ns(10), closed, TimeUnit::Nanoseconds, None), Ok(vec![]));
        assert_eq!(datetime_range_i64(5, None, Some(-2), ns(10), closed, TimeUnit::Nanoseconds, None), Ok(vec![]));
        assert_eq!(datetime_range_i64(5, None, Some(7), ns(10), closed, TimeUnit::Nanoseconds, None).unwrap().len(), 7);
    }
}

#[test]
fn range_by_months_clamps_day() {
    // 2020-01-31 in milliseconds, stepping by one month through a leap February.
    let start = 1_580_428_800_000i64;
    let d = Duration::parse("1mo").unwrap();
    let r = datetime_range_i64(start, None, Some(3), d, ClosedWindow::Both, TimeUnit::Milliseconds, None).unwrap();
    assert_eq!(r, vec![1_580_428_800_000, 1_582_934_400_000, 1_585_612_800_000]);
}

#[test]
fn range_by_days_across_dst_keeps_local_midnight() {
    // 2021-03-27T00:00 and the two following local midnights in Amsterdam.
    let zone = Zone::parse("Europe/Amsterdam").unwrap();
    let start = 1_616_799_600_000i64;
    let d = Duration::parse("1d").unwrap();
    let r = datetime_range_i64(start, None, Some(3), d, ClosedWindow::Both, TimeUnit::Milliseconds, Some(&zone)).unwrap();
    assert_eq!(r, vec![1_616_799_600_000, 1_616_886_000_000, 1_616_968_800_000]);
}
