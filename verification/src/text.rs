//! Durations written out as text, for messages.

use vstd::prelude::*;
use vstd::string::*;
use crate::duration::Duration;
use crate::error::{Failure, Reason, TemporalError};
use crate::timezone::{Zone, ZoneModel};

verus! {

/// The character of a decimal digit.
pub open spec fn digit_char(d: int) -> char {
    if d == 0 {
        '0'
    } else if d == 1 {
        '1'
    } else if d == 2 {
        '2'
    } else if d == 3 {
        '3'
    } else if d == 4 {
        '4'
    } else if d == 5 {
        '5'
    } else if d == 6 {
        '6'
    } else if d == 7 {
        '7'
    } else if d == 8 {
        '8'
    } else {
        '9'
    }
}

/// A number written in base ten, without leading zeros.
pub open spec fn decimal_text(n: nat) -> Seq<char>
    decreases n,
{
    if n < 10 {
        seq![digit_char(n as int)]
    } else {
        decimal_text(n / 10).push(digit_char((n % 10) as int))
    }
}

/// One part of a duration: its magnitude and its unit, or nothing where
/// the magnitude is zero.
pub open spec fn part_text(n: int, unit: Seq<char>) -> Seq<char> {
    if n > 0 {
        decimal_text(n as nat) + unit
    } else {
        Seq::empty()
    }
}

/// A duration as an expression: a `-` where it is negative, then its
/// months, weeks, days and fixed part, each with its unit; the fixed part
/// in nanoseconds, or in rows for a count of rows. A duration of no length
/// is written `0ns`.
pub open spec fn duration_text(d: Duration) -> Seq<char> {
    let sign = if d.negative { seq!['-'] } else { Seq::<char>::empty() };
    let last = if d.parsed_int { seq!['i'] } else { seq!['n', 's'] };
    if d.months <= 0 && d.weeks <= 0 && d.days <= 0 && d.nsecs <= 0 {
        sign + seq!['0'] + last
    } else {
        sign + part_text(d.months as int, seq!['m', 'o']) + part_text(d.weeks as int, seq!['w'])
            + part_text(d.days as int, seq!['d']) + part_text(d.nsecs as int, last)
    }
}

/// The text of a decimal digit.
fn digit_text(d: u64) -> (s: &'static str)
    requires
        d < 10,
    ensures
        s@ == seq![digit_char(d as int)],
{
    proof {
        reveal_strlit("0");
        reveal_strlit("1");
        reveal_strlit("2");
        reveal_strlit("3");
        reveal_strlit("4");
        reveal_strlit("5");
        reveal_strlit("6");
        reveal_strlit("7");
        reveal_strlit("8");
        reveal_strlit("9");
    }
    let s: &'static str = if d == 0 {
        "0"
    } else if d == 1 {
        "1"
    } else if d == 2 {
        "2"
    } else if d == 3 {
        "3"
    } else if d == 4 {
        "4"
    } else if d == 5 {
        "5"
    } else if d == 6 {
        "6"
    } else if d == 7 {
        "7"
    } else if d == 8 {
        "8"
    } else {
        "9"
    };
    assert(s@ =~= seq![digit_char(d as int)]);
    s
}

/// Writes a number in base ten.
pub fn decimal_string(n: u64) -> (s: String)
    ensures
        s@ == decimal_text(n as nat),
    decreases n,
{
    if n < 10 {
        String::from_str(digit_text(n))
    } else {
        let head: String = decimal_string(n / 10);
        let s: String = head.concat(digit_text(n % 10));
        assert(s@ =~= decimal_text(n as nat));
        s
    }
}

/// Appends one part of a duration to a text.
fn push_part(text: String, n: i64, unit: &str) -> (s: String)
    ensures
        s@ == text@ + part_text(n as int, unit@),
{
    if n > 0 {
        let s: String = text.concat(decimal_string(n as u64).as_str()).concat(unit);
        assert(s@ =~= text@ + part_text(n as int, unit@));
        s
    } else {
        assert(text@ =~= text@ + part_text(n as int, unit@));
        text
    }
}

impl Duration {
    /// This duration as an expression, such as `-3mo2d14400000000000ns`.
    pub fn to_text(&self) -> (s: String)
        ensures
            s@ == duration_text(*self),
    {
        proof {
            reveal_strlit("-");
            reveal_strlit("");
            reveal_strlit("0");
            reveal_strlit("i");
            reveal_strlit("ns");
            reveal_strlit("mo");
            reveal_strlit("w");
            reveal_strlit("d");
        }
        let sign: String = String::from_str(if self.negative { "-" } else { "" });
        let last: &'static str = if self.parsed_int { "i" } else { "ns" };
        assert(last@ =~= if self.parsed_int { seq!['i'] } else { seq!['n', 's'] });
        assert(sign@ =~= if self.negative { seq!['-'] } else { Seq::<char>::empty() });
        assert("mo"@ =~= seq!['m', 'o'] && "w"@ =~= seq!['w'] && "d"@ =~= seq!['d'] && "0"@
            =~= seq!['0']);
        if self.months <= 0 && self.weeks <= 0 && self.days <= 0 && self.nsecs <= 0 {
            let s: String = sign.concat("0").concat(last);
            assert(s@ =~= duration_text(*self));
            s
        } else {
            let s: String = push_part(
                push_part(push_part(push_part(sign, self.months, "mo"), self.weeks, "w"), self.days, "d"),
                self.nsecs,
                last,
            );
            assert(s@ =~= duration_text(*self));
            s
        }
    }
}

/// The failure of a range for `reason`: it carries the interval as text
/// where the interval is at fault, the name of the zone where the zone is
/// not known, and else no literal.
pub open spec fn range_failure(reason: Reason, interval: Duration, zone: Option<ZoneModel>) -> Failure {
    Failure {
        reason,
        literal: if reason == Reason::NonPositiveInterval || reason == Reason::NotFullDays {
            duration_text(interval)
        } else if reason == Reason::UnknownTimeZone {
            match zone {
                Some(z) => z.name(),
                None => Seq::empty(),
            }
        } else {
            Seq::empty()
        },
    }
}

/// Builds the failure of a range.
pub fn range_error(reason: Reason, interval: &Duration, zone: Option<&Zone>) -> (e: TemporalError)
    ensures
        e@ == range_failure(
            reason,
            *interval,
            match zone {
                Some(z) => Some(z@),
                None => None,
            },
        ),
{
    match reason {
        Reason::NonPositiveInterval | Reason::NotFullDays => TemporalError::with_literal(
            reason,
            interval.to_text().as_str(),
        ),
        Reason::UnknownTimeZone => match zone {
            Some(Zone::Named(name)) => TemporalError::with_literal(reason, name.as_str()),
            _ => TemporalError::new(reason),
        },
        _ => TemporalError::new(reason),
    }
}

} // verus!
