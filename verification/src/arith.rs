//! Floor division on signed 64-bit integers.

use vstd::prelude::*;
use crate::error::Reason;

verus! {

/// The quotient of `a` by a positive `b`, rounded toward negative infinity.
pub fn floor_div(a: i64, b: i64) -> (q: i64)
    requires
        b > 0,
    ensures
        q == (a as int) / (b as int),
{
    assert(i64::MIN <= (a as int) / (b as int) <= i64::MAX) by (nonlinear_arith)
        requires
            b > 0,
            i64::MIN <= a <= i64::MAX,
    ;
    match a.checked_div_euclid(b) {
        Some(q) => q,
        None => 0,
    }
}

/// The remainder of `a` by a positive `b`, in `0..b`.
pub fn floor_mod(a: i64, b: i64) -> (r: i64)
    requires
        b > 0,
    ensures
        r == (a as int) % (b as int),
        0 <= r < b,
{
    assert(0 <= (a as int) % (b as int) < b) by (nonlinear_arith)
        requires
            b > 0,
    ;
    match a.checked_rem_euclid(b) {
        Some(r) => r,
        None => 0,
    }
}

/// The remainder of `a` by a positive `b`, in `0..b`, on 128-bit integers.
pub fn floor_mod_wide(a: i128, b: i128) -> (r: i128)
    requires
        b > 0,
    ensures
        r == (a as int) % (b as int),
        0 <= r < b,
{
    assert(0 <= (a as int) % (b as int) < b) by (nonlinear_arith)
        requires
            b > 0,
    ;
    match a.checked_rem_euclid(b) {
        Some(r) => r,
        None => 0,
    }
}

/// Whether a value fits a signed 64-bit integer.
pub open spec fn fits_i64(v: int) -> bool {
    i64::MIN <= v <= i64::MAX
}

/// A value where it fits 64 bits, else out of range.
pub open spec fn checked(v: int) -> Result<int, Reason> {
    if fits_i64(v) {
        Ok(v)
    } else {
        Err(Reason::OutOfRange)
    }
}

/// The integers of a fallible result.
pub open spec fn lift(r: Result<i64, Reason>) -> Result<int, Reason> {
    match r {
        Ok(v) => Ok(v as int),
        Err(e) => Err(e),
    }
}

/// The integers of a fallible result that may be null.
pub open spec fn lift_opt(r: Result<Option<i64>, Reason>) -> Result<Option<int>, Reason> {
    match r {
        Ok(Some(v)) => Ok(Some(v as int)),
        Ok(None) => Ok(None),
        Err(e) => Err(e),
    }
}

/// Narrows a 128-bit value to 64 bits.
pub fn narrow(v: i128) -> (r: Result<i64, Reason>)
    ensures
        lift(r) == checked(v as int),
{
    if v < i64::MIN as i128 || v > i64::MAX as i128 {
        Err(Reason::OutOfRange)
    } else {
        Ok(v as i64)
    }
}

/// The integers of an optional value.
pub open spec fn lift_value(v: Option<i64>) -> Option<int> {
    match v {
        Some(x) => Some(x as int),
        None => None,
    }
}

} // verus!
