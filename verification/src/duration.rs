//! Calendar-and-fixed durations such as `3mo2d4h`.

use vstd::prelude::*;
use vstd::string::*;
use crate::arith::{checked, floor_div, floor_mod, floor_mod_wide, lift, narrow};
use crate::calendar::{month_floor, shift_months, spec_month_floor, spec_shift_months};
use crate::error::{Reason, TemporalError};
use crate::timezone::{instant_of, local_of, to_instant_in, to_local_in, Zone};
use crate::units::{TimeUnit, NS_IN_DAY, NS_IN_HOUR, NS_IN_MINUTE, NS_IN_MS, NS_IN_SECOND, NS_IN_US};

verus! {

/// A span of time made of calendar parts (months, weeks, days) and a fixed
/// part in nanoseconds. The parts are magnitudes; `negative` gives the sign
/// of the whole.
#[derive(Clone, Copy, Debug, PartialEq, Eq, Structural)]
pub struct Duration {
    pub months: i64,
    pub weeks: i64,
    pub days: i64,
    pub nsecs: i64,
    pub negative: bool,
    /// Set where the value counts rows (unit `i`) rather than time.
    pub parsed_int: bool,
}

/// The units that a duration expression may name.
#[derive(Clone, Copy, Debug, PartialEq, Eq, Structural)]
pub enum DurationUnit {
    Nanosecond,
    Microsecond,
    Millisecond,
    Second,
    Minute,
    Hour,
    Day,
    Week,
    Month,
    Year,
    Index,
}

/// The unsigned parts of a duration while an expression is being read.
pub struct Magnitudes {
    pub months: int,
    pub weeks: int,
    pub days: int,
    pub nsecs: int,
    pub parsed_int: bool,
}

pub open spec fn is_digit(b: u8) -> bool {
    48 <= b <= 57
}

pub open spec fn is_letter(b: u8) -> bool {
    (65 <= b <= 90) || (97 <= b <= 122)
}

/// The first position at or after `pos` that holds no ASCII digit.
pub open spec fn digits_end(s: Seq<u8>, pos: int) -> int
    decreases s.len() - pos,
{
    if 0 <= pos < s.len() && is_digit(s[pos]) {
        digits_end(s, pos + 1)
    } else {
        pos
    }
}

/// The first position at or after `pos` that holds no ASCII letter.
pub open spec fn letters_end(s: Seq<u8>, pos: int) -> int
    decreases s.len() - pos,
{
    if 0 <= pos < s.len() && is_letter(s[pos]) {
        letters_end(s, pos + 1)
    } else {
        pos
    }
}

/// The number that a run of ASCII digits writes in base ten.
pub open spec fn decimal_value(s: Seq<u8>) -> int
    decreases s.len(),
{
    if s.len() == 0 {
        0
    } else {
        10 * decimal_value(s.drop_last()) + (s.last() - 48)
    }
}

/// The unit that a run of letters names, if any.
pub open spec fn unit_of(s: Seq<u8>) -> Option<DurationUnit> {
    if s.len() == 1 {
        if s[0] == 121 {
            Some(DurationUnit::Year)
        } else if s[0] == 119 {
            Some(DurationUnit::Week)
        } else if s[0] == 100 {
            Some(DurationUnit::Day)
        } else if s[0] == 104 {
            Some(DurationUnit::Hour)
        } else if s[0] == 109 {
            Some(DurationUnit::Minute)
        } else if s[0] == 115 {
            Some(DurationUnit::Second)
        } else if s[0] == 105 {
            Some(DurationUnit::Index)
        } else {
            None
        }
    } else if s.len() == 2 {
        if s[0] == 109 && s[1] == 111 {
            Some(DurationUnit::Month)
        } else if s[0] == 109 && s[1] == 115 {
            Some(DurationUnit::Millisecond)
        } else if s[0] == 117 && s[1] == 115 {
            Some(DurationUnit::Microsecond)
        } else if s[0] == 110 && s[1] == 115 {
            Some(DurationUnit::Nanosecond)
        } else {
            None
        }
    } else {
        None
    }
}

/// The parts after `n` of `unit` are added to `acc`.
pub open spec fn add_token(acc: Magnitudes, n: int, unit: DurationUnit) -> Magnitudes {
    match unit {
        DurationUnit::Nanosecond => Magnitudes { nsecs: acc.nsecs + n, ..acc },
        DurationUnit::Microsecond => Magnitudes { nsecs: acc.nsecs + n * 1_000, ..acc },
        DurationUnit::Millisecond => Magnitudes { nsecs: acc.nsecs + n * 1_000_000, ..acc },
        DurationUnit::Second => Magnitudes { nsecs: acc.nsecs + n * 1_000_000_000, ..acc },
        DurationUnit::Minute => Magnitudes { nsecs: acc.nsecs + n * 60_000_000_000, ..acc },
        DurationUnit::Hour => Magnitudes { nsecs: acc.nsecs + n * 3_600_000_000_000, ..acc },
        DurationUnit::Day => Magnitudes { days: acc.days + n, ..acc },
        DurationUnit::Week => Magnitudes { weeks: acc.weeks + n, ..acc },
        DurationUnit::Month => Magnitudes { months: acc.months + n, ..acc },
        DurationUnit::Year => Magnitudes { months: acc.months + n * 12, ..acc },
        DurationUnit::Index => Magnitudes { nsecs: acc.nsecs + n, parsed_int: true, ..acc },
    }
}

/// Every part fits a signed 64-bit integer.
pub open spec fn fits(m: Magnitudes) -> bool {
    m.months <= i64::MAX && m.weeks <= i64::MAX && m.days <= i64::MAX && m.nsecs <= i64::MAX
}

/// Reads `<integer><unit>` tokens from `pos` to the end of `s`, adding each to
/// `acc`. `None` where a token lacks its integer or its unit, names no known
/// unit, or takes a part beyond 64 bits.
pub open spec fn tokens_from(s: Seq<u8>, pos: int, acc: Magnitudes) -> Option<Magnitudes>
    decreases s.len() - pos,
    via tokens_from_terminates
{
    if pos >= s.len() {
        Some(acc)
    } else {
        let i = digits_end(s, pos);
        let j = letters_end(s, i);
        if i <= pos || j <= i {
            None
        } else {
            match unit_of(s.subrange(i, j)) {
                None => None,
                Some(unit) => {
                    let next = add_token(acc, decimal_value(s.subrange(pos, i)), unit);
                    if fits(next) {
                        tokens_from(s, j, next)
                    } else {
                        None
                    }
                },
            }
        }
    }
}

#[via_fn]
proof fn tokens_from_terminates(s: Seq<u8>, pos: int, acc: Magnitudes) {
    if 0 <= pos < s.len() {
        lemma_digits_end_bounds(s, pos);
        lemma_letters_end_bounds(s, digits_end(s, pos));
    }
}

/// A digit run that starts inside the text ends at or before the text's end.
pub proof fn lemma_digits_end_bounds(s: Seq<u8>, pos: int)
    requires
        0 <= pos <= s.len(),
    ensures
        pos <= digits_end(s, pos) <= s.len(),
        forall|k: int| pos <= k < digits_end(s, pos) ==> is_digit(#[trigger] s[k]),
        digits_end(s, pos) < s.len() ==> !is_digit(s[digits_end(s, pos)]),
    decreases s.len() - pos,
{
    if pos < s.len() && is_digit(s[pos]) {
        lemma_digits_end_bounds(s, pos + 1);
    }
}

/// A letter run that starts inside the text ends at or before the text's end.
pub proof fn lemma_letters_end_bounds(s: Seq<u8>, pos: int)
    requires
        0 <= pos <= s.len(),
    ensures
        pos <= letters_end(s, pos) <= s.len(),
        forall|k: int| pos <= k < letters_end(s, pos) ==> is_letter(#[trigger] s[k]),
        letters_end(s, pos) < s.len() ==> !is_letter(s[letters_end(s, pos)]),
    decreases s.len() - pos,
{
    if pos < s.len() && is_letter(s[pos]) {
        lemma_letters_end_bounds(s, pos + 1);
    }
}

/// The duration that the bytes of an expression denote: an optional leading
/// `-`, then one or more `<integer><unit>` tokens.
pub open spec fn parse_spec(s: Seq<u8>) -> Option<Duration> {
    let negative = s.len() > 0 && s[0] == 45;
    let start: int = if negative { 1 } else { 0 };
    if start >= s.len() {
        None
    } else {
        match tokens_from(
            s,
            start,
            Magnitudes { months: 0, weeks: 0, days: 0, nsecs: 0, parsed_int: false },
        ) {
            None => None,
            Some(m) => Some(
                Duration {
                    months: m.months as i64,
                    weeks: m.weeks as i64,
                    days: m.days as i64,
                    nsecs: m.nsecs as i64,
                    negative,
                    parsed_int: m.parsed_int,
                },
            ),
        }
    }
}

/// Appending one digit to a run multiplies its value by ten and adds the digit.
pub proof fn lemma_decimal_value_step(s: Seq<u8>, from: int, to: int)
    requires
        0 <= from <= to < s.len(),
    ensures
        decimal_value(s.subrange(from, to + 1)) == 10 * decimal_value(s.subrange(from, to)) + (
        s[to] - 48),
{
    assert(s.subrange(from, to + 1).drop_last() =~= s.subrange(from, to));
}

/// The value of a run of digits is not negative.
pub proof fn lemma_decimal_value_nonnegative(s: Seq<u8>)
    requires
        forall|k: int| 0 <= k < s.len() ==> is_digit(#[trigger] s[k]),
    ensures
        decimal_value(s) >= 0,
    decreases s.len(),
{
    if s.len() > 0 {
        lemma_decimal_value_nonnegative(s.drop_last());
    }
}

/// Tokens add to the parts that were read before them: none of the parts
/// comes out negative.
pub proof fn lemma_tokens_keep_magnitudes(s: Seq<u8>, pos: int, acc: Magnitudes)
    requires
        0 <= pos,
        acc.months >= 0 && acc.weeks >= 0 && acc.days >= 0 && acc.nsecs >= 0,
    ensures
        tokens_from(s, pos, acc) matches Some(m) ==> m.months >= 0 && m.weeks >= 0 && m.days >= 0
            && m.nsecs >= 0,
    decreases s.len() - pos,
{
    if pos < s.len() {
        lemma_digits_end_bounds(s, pos);
        let i = digits_end(s, pos);
        lemma_letters_end_bounds(s, i);
        let j = letters_end(s, i);
        if i > pos && j > i {
            match unit_of(s.subrange(i, j)) {
                None => {},
                Some(unit) => {
                    lemma_decimal_value_nonnegative(s.subrange(pos, i));
                    let next = add_token(acc, decimal_value(s.subrange(pos, i)), unit);
                    if fits(next) {
                        lemma_tokens_keep_magnitudes(s, j, next);
                    }
                },
            }
        }
    }
}

/// A duration that an expression denotes has no negative part.
pub proof fn lemma_parse_spec_wf(s: Seq<u8>)
    ensures
        parse_spec(s) matches Some(d) ==> d.wf(),
{
    let negative = s.len() > 0 && s[0] == 45;
    let start: int = if negative { 1 } else { 0 };
    let zero = Magnitudes { months: 0, weeks: 0, days: 0, nsecs: 0, parsed_int: false };
    lemma_tokens_keep_magnitudes(s, start, zero);
    lemma_tokens_fit(s, start, zero);
}

/// The parts that tokens give fit 64 bits where the parts before them do.
pub proof fn lemma_tokens_fit(s: Seq<u8>, pos: int, acc: Magnitudes)
    requires
        fits(acc),
    ensures
        tokens_from(s, pos, acc) matches Some(m) ==> fits(m),
    decreases s.len() - pos,
{
    if 0 <= pos < s.len() {
        lemma_digits_end_bounds(s, pos);
        let i = digits_end(s, pos);
        lemma_letters_end_bounds(s, i);
        let j = letters_end(s, i);
        if i > pos && j > i {
            match unit_of(s.subrange(i, j)) {
                None => {},
                Some(unit) => {
                    let next = add_token(acc, decimal_value(s.subrange(pos, i)), unit);
                    if fits(next) {
                        lemma_tokens_fit(s, j, next);
                    }
                },
            }
        }
    }
}

/// Reads the digit run at `pos`: where it ends, and its value if that fits.
pub(crate) fn read_number(bytes: &[u8], pos: usize) -> (r: (usize, Option<i64>))
    requires
        pos <= bytes.len(),
    ensures
        r.0 == digits_end(bytes@, pos as int),
        pos <= r.0 <= bytes.len(),
        r.1 matches Some(v) ==> v == decimal_value(bytes@.subrange(pos as int, r.0 as int)) && v
            >= 0,
        r.1 is None ==> decimal_value(bytes@.subrange(pos as int, r.0 as int)) > i64::MAX,
{
    let mut i: usize = pos;
    let mut value: i64 = 0;
    let mut overflow: bool = false;
    proof {
        lemma_digits_end_bounds(bytes@, pos as int);
    }
    while i < bytes.len() && bytes[i] >= 48 && bytes[i] <= 57
        invariant
            pos <= i <= bytes.len(),
            digits_end(bytes@, pos as int) == digits_end(bytes@, i as int),
            value >= 0,
            !overflow ==> value == decimal_value(bytes@.subrange(pos as int, i as int)),
            overflow ==> decimal_value(bytes@.subrange(pos as int, i as int)) > i64::MAX,
        decreases bytes.len() - i,
    {
        let digit: i64 = (bytes[i] - 48) as i64;
        proof {
            lemma_decimal_value_step(bytes@, pos as int, i as int);
        }
        if overflow || value > (i64::MAX - digit) / 10 {
            overflow = true;
        } else {
            value = value * 10 + digit;
        }
        i = i + 1;
    }
    if overflow {
        (i, None)
    } else {
        (i, Some(value))
    }
}

/// Reads the letter run at `pos`: where it ends.
fn read_letters(bytes: &[u8], pos: usize) -> (end: usize)
    requires
        pos <= bytes.len(),
    ensures
        end == letters_end(bytes@, pos as int),
        pos <= end <= bytes.len(),
{
    let mut i: usize = pos;
    while i < bytes.len() && ((bytes[i] >= 65 && bytes[i] <= 90) || (bytes[i] >= 97 && bytes[i]
        <= 122))
        invariant
            pos <= i <= bytes.len(),
            letters_end(bytes@, pos as int) == letters_end(bytes@, i as int),
        decreases bytes.len() - i,
    {
        i = i + 1;
    }
    i
}

/// Names the unit written in `bytes[from..to]`.
fn read_unit(bytes: &[u8], from: usize, to: usize) -> (r: Option<DurationUnit>)
    requires
        from <= to <= bytes.len(),
    ensures
        r == unit_of(bytes@.subrange(from as int, to as int)),
{
    let ghost run = bytes@.subrange(from as int, to as int);
    if to - from == 1 {
        let a: u8 = bytes[from];
        assert(run[0] == a);
        if a == 121 {
            Some(DurationUnit::Year)
        } else if a == 119 {
            Some(DurationUnit::Week)
        } else if a == 100 {
            Some(DurationUnit::Day)
        } else if a == 104 {
            Some(DurationUnit::Hour)
        } else if a == 109 {
            Some(DurationUnit::Minute)
        } else if a == 115 {
            Some(DurationUnit::Second)
        } else if a == 105 {
            Some(DurationUnit::Index)
        } else {
            None
        }
    } else if to - from == 2 {
        let a: u8 = bytes[from];
        let b: u8 = bytes[from + 1];
        assert(run[0] == a && run[1] == b);
        if a == 109 && b == 111 {
            Some(DurationUnit::Month)
        } else if a == 109 && b == 115 {
            Some(DurationUnit::Millisecond)
        } else if a == 117 && b == 115 {
            Some(DurationUnit::Microsecond)
        } else if a == 110 && b == 115 {
            Some(DurationUnit::Nanosecond)
        } else {
            None
        }
    } else {
        None
    }
}

/// `n * factor + base`, where that fits.
fn scaled_sum(base: i64, n: i64, factor: i64) -> (r: Option<i64>)
    requires
        base >= 0,
        n >= 0,
        factor >= 1,
    ensures
        r == if base + n * factor <= i64::MAX {
            Some((base + n * factor) as i64)
        } else {
            None::<i64>
        },
{
    let room: i64 = i64::MAX - base;
    let limit: i64 = room / factor;
    assert(limit * factor <= room < (limit + 1) * factor) by (nonlinear_arith)
        requires
            limit == room as int / factor as int,
            room >= 0,
            factor >= 1,
    ;
    if n > limit {
        assert(n * factor >= (limit + 1) * factor) by (nonlinear_arith)
            requires
                n >= limit + 1,
                factor >= 1,
        ;
        None
    } else {
        assert(0 <= n * factor <= limit * factor) by (nonlinear_arith)
            requires
                0 <= n <= limit,
                factor >= 1,
        ;
        Some(base + n * factor)
    }
}

impl Duration {
    /// The parts are magnitudes: none is negative.
    pub open spec fn wf(self) -> bool {
        self.months >= 0 && self.weeks >= 0 && self.days >= 0 && self.nsecs >= 0
    }

    /// Reads a duration from the bytes of an expression.
    pub fn parse_bytes(bytes: &[u8]) -> (r: Option<Duration>)
        ensures
            r == parse_spec(bytes@),
            r matches Some(d) ==> d.wf(),
    {
        let negative: bool = bytes.len() > 0 && bytes[0] == 45;
        let start: usize = if negative { 1 } else { 0 };
        if start >= bytes.len() {
            return None;
        }
        let mut months: i64 = 0;
        let mut weeks: i64 = 0;
        let mut days: i64 = 0;
        let mut nsecs: i64 = 0;
        let mut parsed_int: bool = false;
        let mut pos: usize = start;
        let ghost zero = Magnitudes { months: 0, weeks: 0, days: 0, nsecs: 0, parsed_int: false };
        while pos < bytes.len()
            invariant
                start <= pos <= bytes.len(),
                start < bytes.len(),
                negative == (bytes@.len() > 0 && bytes@[0] == 45),
                start == if negative { 1usize } else { 0usize },
                zero == (Magnitudes { months: 0, weeks: 0, days: 0, nsecs: 0, parsed_int: false }),
                months >= 0 && weeks >= 0 && days >= 0 && nsecs >= 0,
                tokens_from(bytes@, start as int, zero) == tokens_from(
                    bytes@,
                    pos as int,
                    Magnitudes {
                        months: months as int,
                        weeks: weeks as int,
                        days: days as int,
                        nsecs: nsecs as int,
                        parsed_int,
                    },
                ),
            decreases bytes.len() - pos,
        {
            let (i, value) = read_number(bytes, pos);
            if i == pos {
                return None;
            }
            let j: usize = read_letters(bytes, i);
            if j == i {
                return None;
            }
            let unit = match read_unit(bytes, i, j) {
                Some(unit) => unit,
                None => {
                    return None;
                },
            };
            let n: i64 = match value {
                Some(n) => n,
                None => {
                    return None;
                },
            };
            let sum: Option<i64> = match unit {
                DurationUnit::Nanosecond | DurationUnit::Index => scaled_sum(nsecs, n, 1),
                DurationUnit::Microsecond => scaled_sum(nsecs, n, NS_IN_US),
                DurationUnit::Millisecond => scaled_sum(nsecs, n, NS_IN_MS),
                DurationUnit::Second => scaled_sum(nsecs, n, NS_IN_SECOND),
                DurationUnit::Minute => scaled_sum(nsecs, n, NS_IN_MINUTE),
                DurationUnit::Hour => scaled_sum(nsecs, n, NS_IN_HOUR),
                DurationUnit::Day => scaled_sum(days, n, 1),
                DurationUnit::Week => scaled_sum(weeks, n, 1),
                DurationUnit::Month => scaled_sum(months, n, 1),
                DurationUnit::Year => scaled_sum(months, n, 12),
            };
            let total: i64 = match sum {
                Some(total) => total,
                None => {
                    return None;
                },
            };
            match unit {
                DurationUnit::Day => {
                    days = total;
                },
                DurationUnit::Week => {
                    weeks = total;
                },
                DurationUnit::Month | DurationUnit::Year => {
                    months = total;
                },
                DurationUnit::Index => {
                    nsecs = total;
                    parsed_int = true;
                },
                _ => {
                    nsecs = total;
                },
            }
            pos = j;
        }
        Some(Duration { months, weeks, days, nsecs, negative, parsed_int })
    }

    /// Reads a duration expression such as `3mo2d4h` or `-1w`.
    ///
    /// The expression is an optional leading `-` and then one or more
    /// tokens, each an integer followed by one of the units `ns`, `us`,
    /// `ms`, `s`, `m`, `h`, `d`, `w`, `mo`, `y`, or `i` for a row count.
    pub fn parse(text: &str) -> (r: Result<Duration, TemporalError>)
        ensures
            match r {
                Ok(d) => parse_spec(text.spec_bytes()) == Some(d) && d.wf(),
                Err(e) => parse_spec(text.spec_bytes()) is None && e.reason
                    == Reason::MalformedDuration && e.literal@ == text@,
            },
    {
        match Duration::parse_bytes(text.as_bytes()) {
            Some(d) => Ok(d),
            None => Err(TemporalError::with_literal(Reason::MalformedDuration, text)),
        }
    }
}

/// A count of days as ticks of `tu`.
fn days_to_ticks(days: i128, tu: TimeUnit) -> (r: i128)
    requires
        -0x100_0000_0000_0000_0000 <= days <= 0x100_0000_0000_0000_0000,
    ensures
        r == days * tu.ticks_per_day(),
        -0x800000000000000000000000000000 <= r <= 0x800000000000000000000000000000,
        days > 0 ==> r > 0,
{
    match tu {
        TimeUnit::Nanoseconds => days * 86_400_000_000_000,
        TimeUnit::Microseconds => days * 86_400_000_000,
        TimeUnit::Milliseconds => days * 86_400_000,
    }
}

impl Duration {
    /// The magnitude `x` with the sign of the whole.
    pub open spec fn signed(&self, x: int) -> int {
        if self.negative {
            -x
        } else {
            x
        }
    }

    pub open spec fn spec_is_zero(&self) -> bool {
        self.months == 0 && self.weeks == 0 && self.days == 0 && self.nsecs == 0
    }

    /// Whether the duration has months, weeks or days.
    pub open spec fn spec_has_calendar_part(&self) -> bool {
        self.months != 0 || self.weeks != 0 || self.days != 0
    }

    /// The fixed part in ticks of `tu`, with the sign of the whole.
    pub open spec fn spec_signed_ticks(&self, tu: TimeUnit) -> int {
        self.signed(self.nsecs as int / tu.ns_per_tick())
    }

    /// The clock reading reached from `local` by the calendar parts: first
    /// the months, on the calendar, then the weeks and days.
    pub open spec fn spec_add_calendar(&self, local: int, tu: TimeUnit) -> Result<int, Reason> {
        let day = local / tu.ticks_per_day();
        let tod = local % tu.ticks_per_day();
        let moved = if self.months != 0 {
            spec_shift_months(day, self.signed(self.months as int))
        } else {
            Ok(day)
        };
        match moved {
            Err(e) => Err(e),
            Ok(d) => checked(
                (d + self.signed(self.weeks * 7 + self.days)) * tu.ticks_per_day() + tod,
            ),
        }
    }

    /// The instant reached from `t` by this duration. A duration without
    /// calendar parts is added to the count. One with calendar parts is
    /// added to the clock reading of `t` in the zone, and the fixed part to
    /// the instant of the reading so reached.
    pub open spec fn spec_add(&self, t: int, tu: TimeUnit, zone: Option<&Zone>) -> Result<
        int,
        Reason,
    > {
        if !self.spec_has_calendar_part() {
            checked(t + self.spec_signed_ticks(tu))
        } else {
            match local_of(zone, t, tu) {
                Err(e) => Err(e),
                Ok(local) => match self.spec_add_calendar(local, tu) {
                    Err(e) => Err(e),
                    Ok(moved) => match instant_of(zone, moved, tu) {
                        Err(e) => Err(e),
                        Ok(utc) => checked(utc + self.spec_signed_ticks(tu)),
                    },
                },
            }
        }
    }

    #[verifier::when_used_as_spec(spec_is_zero)]
    pub fn is_zero(&self) -> (r: bool)
        ensures
            r == self.spec_is_zero(),
    {
        self.months == 0 && self.weeks == 0 && self.days == 0 && self.nsecs == 0
    }

    #[verifier::when_used_as_spec(spec_has_calendar_part)]
    pub fn has_calendar_part(&self) -> (r: bool)
        ensures
            r == self.spec_has_calendar_part(),
    {
        self.months != 0 || self.weeks != 0 || self.days != 0
    }

    pub(crate) fn signed_ticks(&self, tu: TimeUnit) -> (r: i128)
        ensures
            r == self.spec_signed_ticks(tu),
    {
        let magnitude: i128 = floor_div(self.nsecs, tu.nanos_per_tick()) as i128;
        if self.negative {
            -magnitude
        } else {
            magnitude
        }
    }

    fn add_calendar(&self, local: i64, tu: TimeUnit) -> (r: Result<i64, Reason>)
        ensures
            lift(r) == self.spec_add_calendar(local as int, tu),
    {
        let day: i64 = floor_div(local, tu.per_day());
        let tod: i64 = floor_mod(local, tu.per_day());
        let moved: i64 = if self.months != 0 {
            if self.negative && self.months == i64::MIN {
                proof {
                    assert(lift(Err(Reason::OutOfRange)) == spec_shift_months(
                        day as int,
                        -(self.months as int),
                    ));
                }
                return Err(Reason::OutOfRange);
            }
            let months: i64 = if self.negative { -self.months } else { self.months };
            match shift_months(day, months) {
                Ok(d) => d,
                Err(e) => {
                    return Err(e);
                },
            }
        } else {
            day
        };
        let span: i128 = self.weeks as i128 * 7 + self.days as i128;
        let delta: i128 = if self.negative { -span } else { span };
        narrow(days_to_ticks(moved as i128 + delta, tu) + tod as i128)
    }

    /// Adds this duration to the instant `t`, a count of ticks of `tu`.
    pub fn add(&self, t: i64, tu: TimeUnit, zone: Option<&Zone>) -> (r: Result<i64, Reason>)
        ensures
            lift(r) == self.spec_add(t as int, tu, zone),
    {
        let fixed: i128 = self.signed_ticks(tu);
        if !self.has_calendar_part() {
            narrow(t as i128 + fixed)
        } else {
            let local: i64 = match to_local_in(zone, t, tu) {
                Ok(local) => local,
                Err(e) => {
                    return Err(e);
                },
            };
            let moved: i64 = match self.add_calendar(local, tu) {
                Ok(moved) => moved,
                Err(e) => {
                    return Err(e);
                },
            };
            match to_instant_in(zone, moved, tu) {
                Ok(utc) => narrow(utc as i128 + fixed),
                Err(e) => Err(e),
            }
        }
    }

    /// Adds this duration to an instant in nanoseconds.
    pub fn add_ns(&self, t: i64, zone: Option<&Zone>) -> (r: Result<i64, Reason>)
        ensures
            lift(r) == self.spec_add(t as int, TimeUnit::Nanoseconds, zone),
    {
        self.add(t, TimeUnit::Nanoseconds, zone)
    }

    /// Adds this duration to an instant in microseconds.
    pub fn add_us(&self, t: i64, zone: Option<&Zone>) -> (r: Result<i64, Reason>)
        ensures
            lift(r) == self.spec_add(t as int, TimeUnit::Microseconds, zone),
    {
        self.add(t, TimeUnit::Microseconds, zone)
    }

    /// Adds this duration to an instant in milliseconds.
    pub fn add_ms(&self, t: i64, zone: Option<&Zone>) -> (r: Result<i64, Reason>)
        ensures
            lift(r) == self.spec_add(t as int, TimeUnit::Milliseconds, zone),
    {
        self.add(t, TimeUnit::Milliseconds, zone)
    }
}

impl Duration {
    /// The start, on a local clock, of the calendar bucket that holds the
    /// clock reading `local`. Buckets of days are counted from 1970-01-01,
    /// buckets of weeks from Monday 1970-01-05, buckets of months from
    /// January of year 0.
    pub open spec fn spec_local_bucket(&self, local: int, tu: TimeUnit) -> Result<int, Reason> {
        let per_day = tu.ticks_per_day();
        if self.months != 0 && self.weeks == 0 && self.days == 0 && self.nsecs == 0 {
            match spec_month_floor(local / per_day, self.months as int) {
                Err(e) => Err(e),
                Ok(day) => checked(day * per_day),
            }
        } else if self.months == 0 && self.weeks != 0 && self.days == 0 && self.nsecs == 0 {
            checked(local - (local - 4 * per_day) % (self.weeks * 7 * per_day))
        } else if self.months == 0 && self.weeks == 0 && self.days != 0 && self.nsecs == 0 {
            checked(local - local % (self.days * per_day))
        } else {
            Err(Reason::MixedUnits)
        }
    }

    /// The start of the bucket of this length that holds the instant `t`.
    /// A duration without calendar parts cuts the count itself, and must be
    /// at least one tick long; one with calendar parts cuts the clock
    /// reading in the zone.
    pub open spec fn spec_truncate(&self, t: int, tu: TimeUnit, zone: Option<&Zone>) -> Result<
        int,
        Reason,
    > {
        if self.negative {
            Err(Reason::NegativeDuration)
        } else if self.spec_is_zero() {
            Err(Reason::ZeroDuration)
        } else if !self.spec_has_calendar_part() {
            let step = self.nsecs as int / tu.ns_per_tick();
            if step == 0 {
                Err(Reason::ZeroDuration)
            } else {
                checked(t - t % step)
            }
        } else {
            match local_of(zone, t, tu) {
                Err(e) => Err(e),
                Ok(local) => match self.spec_local_bucket(local, tu) {
                    Err(e) => Err(e),
                    Ok(start) => instant_of(zone, start, tu),
                },
            }
        }
    }

    fn local_bucket(&self, local: i64, tu: TimeUnit) -> (r: Result<i64, Reason>)
        requires
            self.wf(),
        ensures
            lift(r) == self.spec_local_bucket(local as int, tu),
    {
        if self.months != 0 && self.weeks == 0 && self.days == 0 && self.nsecs == 0 {
            match month_floor(floor_div(local, tu.per_day()), self.months) {
                Err(e) => Err(e),
                Ok(day) => narrow(days_to_ticks(day as i128, tu)),
            }
        } else if self.months == 0 && self.weeks != 0 && self.days == 0 && self.nsecs == 0 {
            let step: i128 = days_to_ticks(self.weeks as i128 * 7, tu);
            let anchor: i128 = days_to_ticks(4, tu);
            assert(step == self.weeks * 7 * tu.ticks_per_day() && step > 0 && anchor == 4
                * tu.ticks_per_day());
            narrow(local as i128 - floor_mod_wide(local as i128 - anchor, step))
        } else if self.months == 0 && self.weeks == 0 && self.days != 0 && self.nsecs == 0 {
            let step: i128 = days_to_ticks(self.days as i128, tu);
            assert(step == self.days * tu.ticks_per_day() && step > 0);
            narrow(local as i128 - floor_mod_wide(local as i128, step))
        } else {
            Err(Reason::MixedUnits)
        }
    }

    /// Cuts the instant `t` down to the start of its bucket.
    pub fn truncate(&self, t: i64, tu: TimeUnit, zone: Option<&Zone>) -> (r: Result<i64, Reason>)
        requires
            self.wf(),
        ensures
            lift(r) == self.spec_truncate(t as int, tu, zone),
    {
        if self.negative {
            Err(Reason::NegativeDuration)
        } else if self.is_zero() {
            Err(Reason::ZeroDuration)
        } else if !self.has_calendar_part() {
            let step: i64 = floor_div(self.nsecs, tu.nanos_per_tick());
            if step == 0 {
                Err(Reason::ZeroDuration)
            } else {
                narrow(t as i128 - floor_mod(t, step) as i128)
            }
        } else {
            let local: i64 = match to_local_in(zone, t, tu) {
                Ok(local) => local,
                Err(e) => {
                    return Err(e);
                },
            };
            match self.local_bucket(local, tu) {
                Ok(start) => to_instant_in(zone, start, tu),
                Err(e) => Err(e),
            }
        }
    }
}

impl Duration {
    /// The duration of no length that stands for "no offset".
    pub open spec fn spec_zero() -> Duration {
        Duration { months: 0, weeks: 0, days: 0, nsecs: 0, negative: false, parsed_int: true }
    }

    /// A fixed duration of `fixed_slots` nanoseconds, or rows.
    pub fn new(fixed_slots: i64) -> (d: Duration)
        requires
            fixed_slots > i64::MIN,
        ensures
            d == (Duration {
                months: 0,
                weeks: 0,
                days: 0,
                nsecs: if fixed_slots < 0 { (-fixed_slots) as i64 } else { fixed_slots },
                negative: fixed_slots < 0,
                parsed_int: true,
            }),
            d.wf(),
    {
        Duration {
            months: 0,
            weeks: 0,
            days: 0,
            nsecs: if fixed_slots < 0 { -fixed_slots } else { fixed_slots },
            negative: fixed_slots < 0,
            parsed_int: true,
        }
    }

    /// The months of the span.
    pub fn months(&self) -> (r: i64)
        ensures
            r == self.months,
    {
        self.months
    }

    /// The weeks of the span.
    pub fn weeks(&self) -> (r: i64)
        ensures
            r == self.weeks,
    {
        self.weeks
    }

    /// The days of the span.
    pub fn days(&self) -> (r: i64)
        ensures
            r == self.days,
    {
        self.days
    }

    /// The fixed part of the span, in nanoseconds.
    pub fn nanoseconds(&self) -> (r: i64)
        ensures
            r == self.nsecs,
    {
        self.nsecs
    }

    /// Whether the span goes back in time.
    pub fn negative(&self) -> (r: bool)
        ensures
            r == self.negative,
    {
        self.negative
    }

    /// The same span with the opposite sign.
    pub open spec fn spec_negated(&self) -> Duration {
        Duration { negative: !self.negative, ..*self }
    }

    #[verifier::when_used_as_spec(spec_negated)]
    pub fn negated(&self) -> (d: Duration)
        ensures
            d == self.spec_negated(),
    {
        Duration {
            months: self.months,
            weeks: self.weeks,
            days: self.days,
            nsecs: self.nsecs,
            negative: !self.negative,
            parsed_int: self.parsed_int,
        }
    }

    /// The weeks, days and fixed part as nanoseconds, a week being seven
    /// days and a day 86 400 seconds.
    pub open spec fn spec_fixed_ns(&self) -> int {
        self.weeks * 604_800_000_000_000 + self.days * 86_400_000_000_000 + self.nsecs
    }

    /// The length in ticks of `tu` of a duration without months.
    pub open spec fn spec_ticks(&self, tu: TimeUnit) -> int {
        self.spec_fixed_ns() / tu.ns_per_tick()
    }

    /// The length in ticks of `tu`: `None` where the duration has months,
    /// whose length varies, or where the length does not fit 64 bits.
    pub fn ticks(&self, tu: TimeUnit) -> (r: Option<i64>)
        requires
            self.wf(),
        ensures
            r == if self.months == 0 && self.spec_ticks(tu) <= i64::MAX {
                Some(self.spec_ticks(tu) as i64)
            } else {
                None::<i64>
            },
    {
        if self.months != 0 {
            return None;
        }
        let total: i128 = match tu {
            TimeUnit::Nanoseconds => self.weeks as i128 * 604_800_000_000_000 + self.days as i128
                * 86_400_000_000_000 + self.nsecs as i128,
            TimeUnit::Microseconds => self.weeks as i128 * 604_800_000_000 + self.days as i128
                * 86_400_000_000 + (self.nsecs / 1_000) as i128,
            TimeUnit::Milliseconds => self.weeks as i128 * 604_800_000 + self.days as i128
                * 86_400_000 + (self.nsecs / 1_000_000) as i128,
        };
        assert(total == self.spec_ticks(tu));
        if total > i64::MAX as i128 {
            None
        } else {
            Some(total as i64)
        }
    }

    /// The length in nanoseconds of a duration without months.
    pub fn duration_ns(&self) -> (r: i64)
        requires
            self.wf(),
            self.months == 0,
            self.spec_ticks(TimeUnit::Nanoseconds) <= i64::MAX,
        ensures
            r == self.spec_ticks(TimeUnit::Nanoseconds),
    {
        match self.ticks(TimeUnit::Nanoseconds) {
            Some(v) => v,
            None => 0,
        }
    }

    /// The length in microseconds of a duration without months.
    pub fn duration_us(&self) -> (r: i64)
        requires
            self.wf(),
            self.months == 0,
            self.spec_ticks(TimeUnit::Microseconds) <= i64::MAX,
        ensures
            r == self.spec_ticks(TimeUnit::Microseconds),
    {
        match self.ticks(TimeUnit::Microseconds) {
            Some(v) => v,
            None => 0,
        }
    }

    /// The length in milliseconds of a duration without months.
    pub fn duration_ms(&self) -> (r: i64)
        requires
            self.wf(),
            self.months == 0,
            self.spec_ticks(TimeUnit::Milliseconds) <= i64::MAX,
        ensures
            r == self.spec_ticks(TimeUnit::Milliseconds),
    {
        match self.ticks(TimeUnit::Milliseconds) {
            Some(v) => v,
            None => 0,
        }
    }

    /// Whether the fixed part is a whole number of days.
    pub open spec fn spec_is_full_days(&self) -> bool {
        self.nsecs as int % 86_400_000_000_000 == 0
    }

    #[verifier::when_used_as_spec(spec_is_full_days)]
    pub fn is_full_days(&self) -> (r: bool)
        ensures
            r == self.spec_is_full_days(),
    {
        floor_mod(self.nsecs, NS_IN_DAY) == 0
    }

    /// Whether the span has the same length wherever it is applied: it has
    /// no months, weeks or days, and the zone, if any, never changes its
    /// offset. Of a named zone other than `UTC` no such thing is assumed.
    pub open spec fn spec_is_constant_duration(&self, zone: Option<&Zone>) -> bool {
        !self.spec_has_calendar_part() && match zone {
            None => true,
            Some(Zone::Fixed(_)) => true,
            Some(Zone::Named(name)) => name@ == "UTC"@,
        }
    }

    #[verifier::when_used_as_spec(spec_is_constant_duration)]
    pub fn is_constant_duration(&self, zone: Option<&Zone>) -> (r: bool)
        ensures
            r == self.spec_is_constant_duration(zone),
    {
        !self.has_calendar_part() && match zone {
            None => true,
            Some(z) => match z {
                Zone::Fixed(_) => true,
                Zone::Named(_) => z.is_utc(),
            },
        }
    }

    /// The parts each multiplied by `k`, where they fit.
    pub open spec fn spec_scaled(&self, k: int) -> Option<Duration> {
        if self.months * k <= i64::MAX && self.weeks * k <= i64::MAX && self.days * k <= i64::MAX
            && self.nsecs * k <= i64::MAX {
            Some(
                Duration {
                    months: (self.months * k) as i64,
                    weeks: (self.weeks * k) as i64,
                    days: (self.days * k) as i64,
                    nsecs: (self.nsecs * k) as i64,
                    negative: self.negative,
                    parsed_int: self.parsed_int,
                },
            )
        } else {
            None
        }
    }

    /// This duration taken `k` times.
    pub fn scaled(&self, k: i64) -> (r: Option<Duration>)
        requires
            self.wf(),
            k >= 0,
        ensures
            r == self.spec_scaled(k as int),
            r matches Some(d) ==> d.wf(),
    {
        if k == 0 {
            assert(self.months * 0 == 0 && self.weeks * 0 == 0 && self.days * 0 == 0 && self.nsecs
                * 0 == 0);
            return Some(
                Duration {
                    months: 0,
                    weeks: 0,
                    days: 0,
                    nsecs: 0,
                    negative: self.negative,
                    parsed_int: self.parsed_int,
                },
            );
        }
        let months = scaled_sum(0, self.months, k);
        let weeks = scaled_sum(0, self.weeks, k);
        let days = scaled_sum(0, self.days, k);
        let nsecs = scaled_sum(0, self.nsecs, k);
        match (months, weeks, days, nsecs) {
            (Some(months), Some(weeks), Some(days), Some(nsecs)) => Some(
                Duration {
                    months,
                    weeks,
                    days,
                    nsecs,
                    negative: self.negative,
                    parsed_int: self.parsed_int,
                },
            ),
            _ => None,
        }
    }
}

} // verus!
