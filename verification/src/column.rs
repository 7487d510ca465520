//! Columns: named vectors of optional values with column-level metadata.

use vstd::prelude::*;
use crate::timezone::Zone;
use crate::units::TimeUnit;

verus! {

/// What is known of the order of a column's values.
#[derive(Clone, Copy, Debug, PartialEq, Eq, Structural)]
pub enum IsSorted {
    Ascending,
    Descending,
    Not,
}

/// A column of strings.
#[derive(Debug)]
pub struct StringColumn {
    pub name: String,
    pub values: Vec<Option<String>>,
}

/// A column of instants: counts of ticks of `time_unit` since the epoch,
/// shown on the clock of `time_zone` where there is one.
#[derive(Debug)]
pub struct DatetimeColumn {
    pub name: String,
    pub values: Vec<Option<i64>>,
    pub time_unit: TimeUnit,
    pub time_zone: Option<Zone>,
    pub sorted: IsSorted,
}

/// A column of dates: counts of days since 1970-01-01.
#[derive(Debug)]
pub struct DateColumn {
    pub name: String,
    pub values: Vec<Option<i32>>,
    pub sorted: IsSorted,
}

/// A column of spans: signed counts of ticks of `time_unit`.
#[derive(Debug)]
pub struct DurationColumn {
    pub name: String,
    pub values: Vec<Option<i64>>,
    pub time_unit: TimeUnit,
    pub sorted: IsSorted,
}

/// A column of times of day: nanoseconds since midnight.
#[derive(Debug)]
pub struct TimeColumn {
    pub name: String,
    pub values: Vec<Option<i64>>,
    pub sorted: IsSorted,
}

/// The number of rows of an operation on two columns: their common length,
/// or the length of the other where one has a single row, which is then
/// repeated. `None` where neither holds.
pub open spec fn broadcast_len(a: nat, b: nat) -> Option<nat> {
    if a == b {
        Some(a)
    } else if a == 1 {
        Some(b)
    } else if b == 1 {
        Some(a)
    } else {
        None
    }
}

/// The value of a column in row `i` of an operation: a single row stands
/// for every row.
pub open spec fn row_of<T>(s: Seq<T>, i: int) -> T {
    if s.len() == 1 {
        s[0]
    } else {
        s[i]
    }
}

/// The number of rows of an operation on columns of lengths `a` and `b`.
pub fn broadcast_rows(a: usize, b: usize) -> (r: Option<usize>)
    ensures
        r == match broadcast_len(a as nat, b as nat) {
            Some(n) => Some(n as usize),
            None => None,
        },
{
    if a == b {
        Some(a)
    } else if a == 1 {
        Some(b)
    } else if b == 1 {
        Some(a)
    } else {
        None
    }
}

/// Wraps each value of a vector as a present value.
pub fn all_present(v: &Vec<i64>) -> (r: Vec<Option<i64>>)
    ensures
        r@.len() == v@.len(),
        forall|i: int| 0 <= i < v@.len() ==> #[trigger] r@[i] == Some(v@[i]),
{
    let mut out: Vec<Option<i64>> = Vec::new();
    let mut i: usize = 0;
    while i < v.len()
        invariant
            i <= v.len(),
            out@.len() == i,
            forall|j: int| 0 <= j < i ==> #[trigger] out@[j] == Some(v@[j]),
        decreases v.len() - i,
    {
        out.push(Some(v[i]));
        i = i + 1;
    }
    out
}

} // verus!
