//! The count of days between two columns of dates.

use vstd::prelude::*;
use crate::column::{broadcast_len, broadcast_rows, row_of, DateColumn};
use crate::error::{Reason, TemporalError};

verus! {

/// A named column of 32-bit integers.
#[derive(Debug)]
pub struct Int32Column {
    pub name: String,
    pub values: Vec<Option<i32>>,
}

/// The days from `start` to `end`: a null where either is null; out of
/// range where the difference does not fit 32 bits.
pub open spec fn day_count(start: Option<i32>, end: Option<i32>) -> Result<Option<i32>, Reason> {
    match (start, end) {
        (Some(a), Some(b)) => if i32::MIN <= b - a <= i32::MAX {
            Ok(Some((b - a) as i32))
        } else {
            Err(Reason::OutOfRange)
        },
        _ => Ok(None),
    }
}

/// Row `i` is the first whose count does not fit.
pub open spec fn count_fails_at(i: int, n: int, start: Seq<Option<i32>>, end: Seq<Option<i32>>) -> bool {
    &&& 0 <= i < n
    &&& day_count(row_of(start, i), row_of(end, i)) is Err
    &&& forall|j: int| 0 <= j < i ==> (#[trigger] day_count(row_of(start, j), row_of(end, j))) is Ok
}

/// Some row has a count that does not fit.
pub open spec fn count_fails(n: int, start: Seq<Option<i32>>, end: Seq<Option<i32>>) -> bool {
    exists|i: int| #[trigger] count_fails_at(i, n, start, end)
}

/// What the counts of two columns are: for each row the days from the
/// start to the end. A column of one row stands for every row.
pub open spec fn is_day_count(
    r: Result<Seq<Option<i32>>, Reason>,
    start: Seq<Option<i32>>,
    end: Seq<Option<i32>>,
) -> bool {
    match broadcast_len(start.len(), end.len()) {
        None => r == Err::<Seq<Option<i32>>, Reason>(Reason::LengthMismatch),
        Some(n) => match r {
            Ok(out) => {
                &&& out.len() == n
                &&& forall|i: int|
                    0 <= i < n ==> day_count(row_of(start, i), row_of(end, i)) == Ok::<
                        Option<i32>,
                        Reason,
                    >(#[trigger] out[i])
            },
            Err(reason) => reason == Reason::OutOfRange && count_fails(n as int, start, end),
        },
    }
}

/// The elements of a fallible column of counts.
pub open spec fn counts_of(r: Result<Vec<Option<i32>>, TemporalError>) -> Result<
    Seq<Option<i32>>,
    Reason,
> {
    match r {
        Ok(v) => Ok(v@),
        Err(e) => Err(e.reason),
    }
}

/// Counts, row by row, the days from the start date to the end date.
pub fn business_day_count_impl(start_dates: &Vec<Option<i32>>, end_dates: &Vec<Option<i32>>) -> (r:
    Result<Vec<Option<i32>>, TemporalError>)
    ensures
        is_day_count(counts_of(r), start_dates@, end_dates@),
        r matches Err(e) ==> e.literal@.len() == 0,
{
    let n: usize = match broadcast_rows(start_dates.len(), end_dates.len()) {
        Some(n) => n,
        None => {
            return Err(TemporalError::new(Reason::LengthMismatch));
        },
    };
    let mut out: Vec<Option<i32>> = Vec::new();
    let mut i: usize = 0;
    while i < n
        invariant
            i <= n,
            broadcast_len(start_dates@.len(), end_dates@.len()) == Some(n as nat),
            out@.len() == i,
            forall|j: int|
                #![trigger out@[j]]
                #![trigger row_of(start_dates@, j)]
                0 <= j < i ==> day_count(row_of(start_dates@, j), row_of(end_dates@, j)) == Ok::<
                    Option<i32>,
                    Reason,
                >(out@[j]),
        decreases n - i,
    {
        let a: Option<i32> = if start_dates.len() == 1 {
            start_dates[0]
        } else {
            start_dates[i]
        };
        let b: Option<i32> = if end_dates.len() == 1 {
            end_dates[0]
        } else {
            end_dates[i]
        };
        let count: Option<i32> = match (a, b) {
            (Some(a), Some(b)) => match b.checked_sub(a) {
                Some(c) => Some(c),
                None => {
                    assert(count_fails_at(i as int, n as int, start_dates@, end_dates@));
                    return Err(TemporalError::new(Reason::OutOfRange));
                },
            },
            _ => None,
        };
        out.push(count);
        i = i + 1;
    }
    Ok(out)
}

/// The days from each date of `s[0]` to the date of `s[1]` in the same
/// row. Both columns must hold dates.
pub fn business_day_count(s: &[DateColumn]) -> (r: Result<Int32Column, TemporalError>)
    requires
        s@.len() >= 2,
    ensures
        match r {
            Ok(out) => is_day_count(Ok(out.values@), s@[0].values@, s@[1].values@) && out.name
                == s@[0].name,
            Err(e) => is_day_count(Err(e.reason), s@[0].values@, s@[1].values@) && e.literal@.len()
                == 0,
        },
{
    match business_day_count_impl(&s[0].values, &s[1].values) {
        Ok(values) => Ok(Int32Column { name: s[0].name.clone(), values }),
        Err(e) => Err(e),
    }
}

} // verus!
