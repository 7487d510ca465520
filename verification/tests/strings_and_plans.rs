use temporal_kernels::column::StringColumn;
use temporal_kernels::duration::Duration;
use temporal_kernels::error::{Reason, TemporalError};
use temporal_kernels::plan::{apply_binary, business_day_count, ApplyOptions, Expr, FunctionExpr, FunctionOptions, GetOutput};
use temporal_kernels::range::ClosedWindow;
use temporal_kernels::rolling::{check_input, rolling_agg, RollingKernel, RollingOptions, RollingOptionsFixedWindow, RollingOptionsImpl};
use temporal_kernels::series::{TemporalSeries, TemporalType};
use temporal_kernels::strip::{
    strip_chars, strip_chars_binary, strip_chars_end, strip_chars_end_binary, strip_chars_start, strip_chars_start_binary, strip_prefix,
    strip_prefix_binary, strip_suffix, strip_suffix_binary, white_space,
};
use temporal_kernels::units::TimeUnit;

fn strings(v: &[Option<&str>]) -> StringColumn {
    StringColumn { name: String::from("s"), values: v.iter().map(|o| o.map(String::from)).collect() }
}

fn texts(c: &StringColumn) -> Vec<Option<&str>> {
    c.values.iter().map(|o| o.as_deref()).collect()
}

#[test]
fn strip_binary_functions() {
    assert_eq!(strip_chars_binary(Some("xxhixx"), Some("x")), Some("hi"));
    assert_eq!(strip_chars_binary(Some("abhiba"), Some("ab")), Some("hi"));
    assert_eq!(strip_chars_binary(Some("aaaa"), Some("a")), Some(""));
    assert_eq!(strip_chars_binary(Some(" \t hi\u{3000}\n"), None), Some("hi"));
    assert_eq!(strip_chars_binary(Some("hi"), Some("")), Some("hi"));
    assert_eq!(strip_chars_binary(None, Some("x")), None);
    assert_eq!(strip_chars_start_binary(Some("xxhixx"), Some("x")), Some("hixx"));
    assert_eq!(strip_chars_start_binary(Some("  hi  "), None), Some("hi  "));
    assert_eq!(strip_chars_end_binary(Some("xxhixx"), Some("x")), Some("xxhi"));
    assert_eq!(strip_chars_end_binary(Some("héé"), Some("é")), Some("h"));
    assert_eq!(strip_prefix_binary(Some("foobar"), Some("foo")), Some("bar"));
    assert_eq!(strip_prefix_binary(Some("foobar"), Some("bar")), Some("foobar"));
    assert_eq!(strip_prefix_binary(Some("fo"), Some("foo")), Some("fo"));
    assert_eq!(strip_prefix_binary(Some("foobar"), None), None);
    assert_eq!(strip_suffix_binary(Some("foobar"), Some("bar")), Some("foo"));
    assert_eq!(strip_suffix_binary(Some("foobar"), Some("foo")), Some("foobar"));
    assert_eq!(strip_suffix_binary(None, Some("foo")), None);
}

#[test]
fn white_space_agrees_with_std() {
    for n in 0u32..0x3100 {
        if let Some(c) = char::from_u32(n) {
            assert_eq!(white_space(c), c.is_whitespace(), "code point {:#x}", n);
        }
    }
}

#[test]
fn strip_binary_agrees_with_std() {
    for s in ["", "a", "  a b  ", "xyxhelloyx", "ééaéé", "\n\tq\r"] {
        for p in ["", "x", "xy", "é", " "] {
            assert_eq!(strip_chars_binary(Some(s), Some(p)), Some(s.trim_matches(|c| p.contains(c))));
            assert_eq!(strip_chars_start_binary(Some(s), Some(p)), Some(s.trim_start_matches(|c| p.contains(c))));
            assert_eq!(strip_chars_end_binary(Some(s), Some(p)), Some(s.trim_end_matches(|c| p.contains(c))));
            assert_eq!(strip_prefix_binary(Some(s), Some(p)), Some(s.strip_prefix(p).unwrap_or(s)));
            assert_eq!(strip_suffix_binary(Some(s), Some(p)), Some(s.strip_suffix(p).unwrap_or(s)));
        }
        assert_eq!(strip_chars_binary(Some(s), None), Some(s.trim()));
    }
}

#[test]
fn strip_columns() {
    let ca = strings(&[Some("xxaxx"), None, Some("  b ")]);
    assert_eq!(texts(&strip_chars(&ca, &strings(&[Some("x")])).unwrap()), vec![Some("a"), None, Some("  b ")]);
    assert_eq!(texts(&strip_chars(&ca, &strings(&[None])).unwrap()), vec![Some("xxaxx"), None, Some("b")]);
    assert_eq!(texts(&strip_chars_start(&ca, &strings(&[Some("x"), Some("x"), Some(" ")])).unwrap()), vec![Some("axx"), None, Some("b ")]);
    assert_eq!(texts(&strip_chars_end(&ca, &strings(&[Some("x")])).unwrap()), vec![Some("xxa"), None, Some("  b ")]);
    assert_eq!(texts(&strip_prefix(&ca, &strings(&[Some("xx")])).unwrap()), vec![Some("axx"), None, Some("  b ")]);
    assert_eq!(texts(&strip_prefix(&ca, &strings(&[None])).unwrap()), vec![None, None, None]);
    assert_eq!(texts(&strip_suffix(&ca, &strings(&[Some("xx"), None, Some(" ")])).unwrap()), vec![Some("xxa"), None, Some("  b")]);
    let out = strip_chars(&ca, &strings(&[Some("x")])).unwrap();
    assert_eq!(out.name, "s");
    assert_eq!(strip_chars(&ca, &strings(&[Some("x"), None])).unwrap_err().reason, Reason::LengthMismatch);
}

#[test]
fn business_day_count_expression() {
    let e = business_day_count(Expr::Column(String::from("a")), Expr::Column(String::from("b")));
    match e {
        Expr::Function { input, function, options } => {
            assert_eq!(input.len(), 2);
            assert!(matches!(&input[0], Expr::Column(n) if n == "a"));
            assert!(matches!(&input[1], Expr::Column(n) if n == "b"));
            assert_eq!(function, FunctionExpr::BusinessDayCount);
            assert_eq!(options.collect_groups, ApplyOptions::GroupWise);
            assert!(options.cast_to_supertypes);
            assert!(options.allow_rename);
            assert!(!options.returns_scalar);
        },
        _ => panic!("expected a function node"),
    }
    assert_eq!(FunctionOptions::default().collect_groups, ApplyOptions::GroupWise);
}

#[test]
fn apply_binary_holds_and_calls_the_function() {
    let f = |a: TemporalSeries, _b: TemporalSeries| -> Result<Option<TemporalSeries>, TemporalError> { Ok(Some(a)) };
    let node = apply_binary(Expr::Column(String::from("a")), Expr::Column(String::from("b")), f, GetOutput::SameType);
    assert_eq!(node.input.len(), 2);
    assert_eq!(node.output_type, GetOutput::SameType);
    let s = |name: &str| TemporalSeries { name: String::from(name), dtype: TemporalType::Date, values: vec![Some(1)], sorted: temporal_kernels::column::IsSorted::Not };
    let out = node.evaluate(s("left"), s("right")).unwrap().unwrap();
    assert_eq!(out.name, "left");
}

#[test]
fn rolling_options_and_kernels() {
    let d = RollingOptions::default();
    assert_eq!(d.window_size, Duration::parse("3i").unwrap());
    assert_eq!(d.min_periods, 1);
    let fixed = RollingOptionsFixedWindow::from(RollingOptions::default());
    assert_eq!(fixed, RollingOptionsFixedWindow { window_size: 3, min_periods: 1, center: false });
    let resolved = RollingOptionsImpl::from(RollingOptions::default());
    assert!(resolved.by.is_none());
    assert!(check_input(3, 3).is_ok());
    assert_eq!(check_input(3, 4).unwrap_err().reason, Reason::MinPeriodsExceedWindow);
    assert_eq!(rolling_agg(0, 0, &resolved).unwrap(), RollingKernel::Empty);
    assert_eq!(rolling_agg(10, 0, &resolved).unwrap(), RollingKernel::Fixed(fixed));
    assert_eq!(rolling_agg(10, 2, &resolved).unwrap(), RollingKernel::FixedWithNulls(fixed));
    let mut greedy = RollingOptionsImpl::default();
    greedy.min_periods = 5;
    assert_eq!(rolling_agg(10, 0, &greedy).unwrap_err().reason, Reason::MinPeriodsExceedWindow);
    let mut by_time = RollingOptionsImpl::default();
    by_time.window_size = Duration::parse("2h").unwrap();
    by_time.by = Some(vec![1, 2, 3]);
    by_time.tu = Some(TimeUnit::Milliseconds);
    by_time.closed_window = Some(ClosedWindow::Right);
    assert_eq!(
        rolling_agg(3, 0, &by_time).unwrap(),
        RollingKernel::Dynamic { window: Duration::parse("2h").unwrap(), closed: ClosedWindow::Right, tu: TimeUnit::Milliseconds }
    );
    by_time.window_size = Duration::parse("-2h").unwrap();
    assert_eq!(rolling_agg(3, 0, &by_time).unwrap_err().reason, Reason::NonPositiveWindow);
}
