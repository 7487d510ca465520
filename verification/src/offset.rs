//! Adding duration expressions to the values of a temporal series.

use vstd::prelude::*;
use vstd::string::*;
use vstd::utf8::encode_utf8;
use crate::arith::{checked, floor_div, lift, lift_value, narrow};
use crate::column::{IsSorted, StringColumn};
use crate::duration::{parse_spec, Duration};
use crate::error::{outcome, row_outcome, Failure, Reason, TemporalError};
use crate::series::{unsupported, TemporalSeries, TemporalType};
use crate::snap::failure_literal;
use crate::timezone::Zone;
use crate::units::TimeUnit;

verus! {

/// The zone of a temporal type, behind a reference.
pub open spec fn type_zone(dtype: &TemporalType) -> Option<&Zone> {
    match dtype {
        TemporalType::Datetime(_, Some(zone)) => Some(zone),
        _ => None,
    }
}

/// What a value becomes when `offset` is added. An instant is moved in its
/// zone. A date is moved as the instant of its midnight, in milliseconds
/// and without a zone, and given as the date of the day so reached. A time
/// of day takes no offset.
pub open spec fn offset_value(v: int, offset: Duration, dtype: &TemporalType) -> Result<int, Reason> {
    match dtype {
        TemporalType::Time => Err(Reason::UnsupportedType),
        TemporalType::Datetime(tu, _) => offset.spec_add(v, *tu, type_zone(dtype)),
        TemporalType::Date => match checked(v * 86_400_000) {
            Err(e) => Err(e),
            Ok(ms) => match offset.spec_add(ms, TimeUnit::Milliseconds, None) {
                Err(e) => Err(e),
                Ok(moved) => {
                    let day = moved / 86_400_000;
                    if i32::MIN <= day <= i32::MAX {
                        Ok(day)
                    } else {
                        Err(Reason::OutOfRange)
                    }
                },
            },
        },
    }
}

/// Adds `offset` to one value.
pub fn add_offset(v: i64, offset: &Duration, dtype: &TemporalType) -> (r: Result<i64, Reason>)
    ensures
        lift(r) == offset_value(v as int, *offset, dtype),
{
    match dtype {
        TemporalType::Time => Err(Reason::UnsupportedType),
        TemporalType::Datetime(tu, zone) => {
            let zone_ref: Option<&Zone> = match zone {
                Some(z) => Some(z),
                None => None,
            };
            offset.add(v, *tu, zone_ref)
        },
        TemporalType::Date => match narrow(v as i128 * 86_400_000) {
            Err(e) => Err(e),
            Ok(ms) => match offset.add(ms, TimeUnit::Milliseconds, None) {
                Err(e) => Err(e),
                Ok(moved) => {
                    let day: i64 = floor_div(moved, 86_400_000);
                    if day < i32::MIN as i64 || day > i32::MAX as i64 {
                        Err(Reason::OutOfRange)
                    } else {
                        Ok(day)
                    }
                },
            },
        },
    }
}

/// What one row gives. A null value gives a null. A null offset gives a
/// null, except where it is the single offset of the whole column, which
/// then counts as no offset. Else the offset that the text denotes is
/// added to the value.
#[verifier::opaque]
pub open spec fn offset_row(
    value: Option<i64>,
    offset: Option<String>,
    single: bool,
    dtype: &TemporalType,
) -> Result<Option<int>, Failure> {
    match value {
        None => Ok(None),
        Some(v) => match offset {
            None => if single {
                match offset_value(v as int, Duration::spec_zero(), dtype) {
                    Ok(x) => Ok(Some(x)),
                    Err(reason) => Err(
                        Failure {
                            reason,
                            literal: failure_literal(reason, Seq::empty(), type_zone(dtype)),
                        },
                    ),
                }
            } else {
                Ok(None)
            },
            Some(text) => match parse_spec(encode_utf8(text@)) {
                None => Err(Failure { reason: Reason::MalformedDuration, literal: text@ }),
                Some(d) => match offset_value(v as int, d, dtype) {
                    Ok(x) => Ok(Some(x)),
                    Err(reason) => Err(
                        Failure { reason, literal: failure_literal(reason, text@, type_zone(dtype)) },
                    ),
                },
            },
        },
    }
}

/// Computes one row.
fn offset_one_row(value: Option<i64>, offset: &Option<String>, single: bool, dtype: &TemporalType) -> (r:
    Result<Option<i64>, TemporalError>)
    ensures
        row_outcome(r) == offset_row(value, *offset, single, dtype),
{
    reveal(offset_row);
    let v: i64 = match value {
        Some(v) => v,
        None => {
            return Ok(None);
        },
    };
    let zone: Option<&Zone> = match dtype {
        TemporalType::Datetime(_, Some(z)) => Some(z),
        _ => None,
    };
    match offset {
        None => {
            if single {
                let zero = Duration::new(0);
                proof {
                    reveal_strlit("");
                    assert(""@ =~= Seq::<char>::empty());
                }
                match add_offset(v, &zero, dtype) {
                    Ok(x) => Ok(Some(x)),
                    Err(reason) => Err(crate::snap::row_failure(reason, "", zone)),
                }
            } else {
                Ok(None)
            }
        },
        Some(text) => match Duration::parse_bytes(text.as_str().as_bytes()) {
            None => Err(TemporalError::with_literal(Reason::MalformedDuration, text.as_str())),
            Some(d) => match add_offset(v, &d, dtype) {
                Ok(x) => Ok(Some(x)),
                Err(reason) => Err(crate::snap::row_failure(reason, text.as_str(), zone)),
            },
        },
    }
}

/// The offset of row `i`: the single offset, or the one at `i`.
pub open spec fn offset_at(offsets: Seq<Option<String>>, single: bool, i: int) -> Option<String> {
    if single {
        offsets[0]
    } else {
        offsets[i]
    }
}

/// Row `i` fails with `f` and no row before it fails.
pub open spec fn offset_fails_first_at(
    i: int,
    f: Failure,
    values: Seq<Option<i64>>,
    offsets: Seq<Option<String>>,
    single: bool,
    dtype: &TemporalType,
) -> bool {
    &&& 0 <= i < values.len()
    &&& offset_row(values[i], offset_at(offsets, single, i), single, dtype) == Err::<
        Option<int>,
        Failure,
    >(f)
    &&& forall|j: int|
        0 <= j < i ==> (#[trigger] offset_row(
            values[j],
            offset_at(offsets, single, j),
            single,
            dtype,
        )) is Ok
}

/// Some row is the first to fail, and fails with `f`.
pub open spec fn offset_fails(
    f: Failure,
    values: Seq<Option<i64>>,
    offsets: Seq<Option<String>>,
    single: bool,
    dtype: &TemporalType,
) -> bool {
    exists|i: int| #[trigger] offset_fails_first_at(i, f, values, offsets, single, dtype)
}

/// The outcome of adding offsets to values: one output row for each value,
/// or the failure of the first row that fails. Where `single` is set there
/// is one offset and it stands for every row; otherwise there is one
/// offset for each value.
pub open spec fn is_offset(
    out: Result<Seq<Option<i64>>, Failure>,
    values: Seq<Option<i64>>,
    offsets: Seq<Option<String>>,
    single: bool,
    dtype: &TemporalType,
) -> bool {
    if (single && offsets.len() != 1) || (!single && offsets.len() != values.len()) {
        out == Err::<Seq<Option<i64>>, Failure>(
            Failure { reason: Reason::LengthMismatch, literal: Seq::empty() },
        )
    } else {
        match out {
            Ok(v) => {
                &&& v.len() == values.len()
                &&& forall|i: int|
                    0 <= i < values.len() ==> offset_row(
                        values[i],
                        offset_at(offsets, single, i),
                        single,
                        dtype,
                    ) == Ok::<Option<int>, Failure>(lift_value(#[trigger] v[i]))
            },
            Err(f) => offset_fails(f, values, offsets, single, dtype),
        }
    }
}

/// Adds to each value the offset of its row, or the single offset where
/// `single` is set.
pub fn offset_values(
    values: &Vec<Option<i64>>,
    offsets: &Vec<Option<String>>,
    single: bool,
    dtype: &TemporalType,
) -> (r: Result<Vec<Option<i64>>, TemporalError>)
    ensures
        is_offset(outcome(r), values@, offsets@, single, dtype),
{
    if (single && offsets.len() != 1) || (!single && offsets.len() != values.len()) {
        return Err(TemporalError::new(Reason::LengthMismatch));
    }
    let mut out: Vec<Option<i64>> = Vec::new();
    let mut i: usize = 0;
    while i < values.len()
        invariant
            i <= values.len(),
            single ==> offsets@.len() == 1,
            !single ==> offsets@.len() == values@.len(),
            out@.len() == i,
            forall|j: int|
                #![trigger out@[j]]
                #![trigger values@[j]]
                0 <= j < i ==> offset_row(
                    values@[j],
                    offset_at(offsets@, single, j),
                    single,
                    dtype,
                ) == Ok::<Option<int>, Failure>(lift_value(out@[j])),
        decreases values.len() - i,
    {
        let offset: &Option<String> = if single {
            &offsets[0]
        } else {
            &offsets[i]
        };
        match offset_one_row(values[i], offset, single, dtype) {
            Ok(v) => {
                out.push(v);
            },
            Err(e) => {
                assert(offset_fails_first_at(i as int, e@, values@, offsets@, single, dtype));
                return Err(e);
            },
        }
        i = i + 1;
    }
    Ok(out)
}

/// Adds to each instant the offset of its row, for two columns of the same
/// length: a null in either gives a null.
pub fn compute_kernel2(
    arr_1: &Vec<Option<i64>>,
    arr_2: &Vec<Option<String>>,
    tu: TimeUnit,
    zone: Option<Zone>,
) -> (r: Result<Vec<Option<i64>>, TemporalError>)
    ensures
        is_offset(outcome(r), arr_1@, arr_2@, false, &TemporalType::Datetime(tu, zone)),
{
    let dtype = TemporalType::Datetime(tu, zone);
    offset_values(arr_1, arr_2, false, &dtype)
}

/// Whether the offset of a zone never changes: there is no zone, or it is
/// a fixed offset or `UTC`.
pub open spec fn zone_is_steady(zone: Option<Zone>) -> bool {
    match zone {
        None => true,
        Some(z) => z@ is Fixed || z@.is_utc(),
    }
}

/// Whether adding the offsets keeps the order of the values. Dates keep
/// it. Instants keep it where one offset serves the whole column and
/// either the zone is steady or the offset has no calendar part.
pub open spec fn offset_keeps_order(dtype: &TemporalType, offsets: Seq<Option<String>>) -> bool {
    match dtype {
        TemporalType::Date => true,
        TemporalType::Time => false,
        TemporalType::Datetime(_, zone) => offsets.len() == 1 && (zone_is_steady(*zone)
            || match offsets[0] {
            None => true,
            Some(text) => match parse_spec(encode_utf8(text@)) {
                Some(d) => !d.spec_has_calendar_part(),
                None => false,
            },
        }),
    }
}

/// Decides whether adding the offsets keeps the order of the values.
fn keeps_order_after_offset(dtype: &TemporalType, offsets: &Vec<Option<String>>) -> (r: bool)
    ensures
        r == offset_keeps_order(dtype, offsets@),
{
    match dtype {
        TemporalType::Date => true,
        TemporalType::Time => false,
        TemporalType::Datetime(_, zone) => {
            if offsets.len() != 1 {
                return false;
            }
            let steady: bool = match zone {
                None => true,
                Some(z) => match z {
                    Zone::Fixed(_) => true,
                    Zone::Named(_) => z.is_utc(),
                },
            };
            steady || match &offsets[0] {
                None => true,
                Some(text) => match Duration::parse_bytes(text.as_str().as_bytes()) {
                    Some(d) => !d.has_calendar_part(),
                    None => false,
                },
            }
        },
    }
}

/// Adds to each value of `sa` the offset that the same row of `sb` gives,
/// or the single offset of `sb`. A series of times of day takes no offset:
/// the call fails and names the type.
/// The output keeps the name and the type of `sa`, and its order flag
/// where the order is kept.
pub fn date_offset(sa: &TemporalSeries, sb: &StringColumn) -> (r: Result<
    TemporalSeries,
    TemporalError,
>)
    ensures
        match sa.dtype {
            TemporalType::Time => r matches Err(e) && e@ == unsupported(sa.dtype@),
            _ => match r {
                Ok(out) => {
                    &&& is_offset(
                        Ok(out.values@),
                        sa.values@,
                        sb.values@,
                        sb.values@.len() == 1,
                        &sa.dtype,
                    )
                    &&& out.name == sa.name
                    &&& out.dtype == sa.dtype
                    &&& out.sorted == if offset_keeps_order(&sa.dtype, sb.values@) {
                        sa.sorted
                    } else {
                        IsSorted::Not
                    }
                },
                Err(e) => is_offset(
                    Err(e@),
                    sa.values@,
                    sb.values@,
                    sb.values@.len() == 1,
                    &sa.dtype,
                ),
            },
        },
{
    match sa.dtype {
        TemporalType::Time => {
            return Err(sa.dtype.unsupported_error());
        },
        _ => {},
    }
    let single: bool = sb.values.len() == 1;
    match offset_values(&sa.values, &sb.values, single, &sa.dtype) {
        Err(e) => Err(e),
        Ok(values) => Ok(
            TemporalSeries {
                name: sa.name.clone(),
                dtype: sa.dtype.duplicate(),
                values,
                sorted: if keeps_order_after_offset(&sa.dtype, &sb.values) {
                    sa.sorted
                } else {
                    IsSorted::Not
                },
            },
        ),
    }
}

} // verus!
