//! Converting the clock readings of a column from one zone to another.

use vstd::prelude::*;
use vstd::string::*;
use crate::arith::{lift, lift_value};
use crate::error::{outcome, Failure, Reason, TemporalError};
use crate::timezone::{fixed_offset_spec, zone_known, AmbiguousPolicy, Zone, ZoneModel};
use crate::units::TimeUnit;

verus! {

/// The clock reading that the zone `to` shows at the instant at which the
/// zone `from` shows the clock reading `local`. A reading that `from` shows
/// twice or never is an error.
pub open spec fn converted_reading(local: int, tu: TimeUnit, from: ZoneModel, to: ZoneModel) -> Result<
    int,
    Reason,
> {
    match from.to_utc(local, tu, AmbiguousPolicy::Raise) {
        Err(e) => Err(e),
        Ok(None) => Err(Reason::AmbiguousLocalTime),
        Ok(Some(utc)) => to.to_local(utc, tu),
    }
}

/// Converts one clock reading from the zone `from` to the zone `to`.
pub fn from_to(from: &Zone, to: &Zone, local: i64, tu: TimeUnit) -> (r: Result<i64, Reason>)
    ensures
        lift(r) == converted_reading(local as int, tu, from@, to@),
{
    match from.to_utc(local, tu, AmbiguousPolicy::Raise) {
        Err(e) => Err(e),
        Ok(None) => Err(Reason::AmbiguousLocalTime),
        Ok(Some(utc)) => to.to_local(utc, tu),
    }
}

/// Converts a clock reading in milliseconds.
pub fn convert_millis(value: i64, from: &Zone, to: &Zone) -> (r: Result<i64, Reason>)
    ensures
        lift(r) == converted_reading(value as int, TimeUnit::Milliseconds, from@, to@),
{
    from_to(from, to, value, TimeUnit::Milliseconds)
}

/// Converts a clock reading in microseconds.
pub fn convert_micros(value: i64, from: &Zone, to: &Zone) -> (r: Result<i64, Reason>)
    ensures
        lift(r) == converted_reading(value as int, TimeUnit::Microseconds, from@, to@),
{
    from_to(from, to, value, TimeUnit::Microseconds)
}

/// Converts a clock reading in nanoseconds.
pub fn convert_nanos(value: i64, from: &Zone, to: &Zone) -> (r: Result<i64, Reason>)
    ensures
        lift(r) == converted_reading(value as int, TimeUnit::Nanoseconds, from@, to@),
{
    from_to(from, to, value, TimeUnit::Nanoseconds)
}

/// What one row gives: a null for a null, else the converted reading; a
/// failure carries the name of the source zone.
pub open spec fn cast_row(value: Option<i64>, tu: TimeUnit, from: ZoneModel, to: ZoneModel, source: Seq<char>) -> Result<
    Option<int>,
    Failure,
> {
    match value {
        None => Ok(None),
        Some(v) => match converted_reading(v as int, tu, from, to) {
            Ok(x) => Ok(Some(x)),
            Err(reason) => Err(Failure { reason, literal: source }),
        },
    }
}

/// Row `i` fails with `f` and no row before it fails.
pub open spec fn cast_fails_first_at(
    i: int,
    f: Failure,
    values: Seq<Option<i64>>,
    tu: TimeUnit,
    from: ZoneModel,
    to: ZoneModel,
    source: Seq<char>,
) -> bool {
    &&& 0 <= i < values.len()
    &&& cast_row(values[i], tu, from, to, source) == Err::<Option<int>, Failure>(f)
    &&& forall|j: int| 0 <= j < i ==> (#[trigger] cast_row(values[j], tu, from, to, source)) is Ok
}

/// Some row is the first to fail, and fails with `f`.
pub open spec fn cast_fails(
    f: Failure,
    values: Seq<Option<i64>>,
    tu: TimeUnit,
    from: ZoneModel,
    to: ZoneModel,
    source: Seq<char>,
) -> bool {
    exists|i: int| #[trigger] cast_fails_first_at(i, f, values, tu, from, to, source)
}

/// The outcome of converting a column between two zones: one output row
/// for each row, or the failure of the first row that fails.
pub open spec fn is_cast(
    out: Result<Seq<Option<i64>>, Failure>,
    values: Seq<Option<i64>>,
    tu: TimeUnit,
    from: ZoneModel,
    to: ZoneModel,
    source: Seq<char>,
) -> bool {
    match out {
        Ok(v) => {
            &&& v.len() == values.len()
            &&& forall|i: int|
                0 <= i < values.len() ==> cast_row(values[i], tu, from, to, source) == Ok::<
                    Option<int>,
                    Failure,
                >(lift_value(#[trigger] v[i]))
        },
        Err(f) => cast_fails(f, values, tu, from, to, source),
    }
}

/// Converts every clock reading of a column from the zone `from` to the
/// zone `to`.
pub fn cast_between(values: &Vec<Option<i64>>, tu: TimeUnit, from: &Zone, to: &Zone, source: &str) -> (r:
    Result<Vec<Option<i64>>, TemporalError>)
    ensures
        is_cast(outcome(r), values@, tu, from@, to@, source@),
{
    let mut out: Vec<Option<i64>> = Vec::new();
    let mut i: usize = 0;
    while i < values.len()
        invariant
            i <= values.len(),
            out@.len() == i,
            forall|j: int|
                #![trigger out@[j]]
                #![trigger values@[j]]
                0 <= j < i ==> cast_row(values@[j], tu, from@, to@, source@) == Ok::<
                    Option<int>,
                    Failure,
                >(lift_value(out@[j])),
        decreases values.len() - i,
    {
        match values[i] {
            None => {
                out.push(None);
            },
            Some(v) => match from_to(from, to, v, tu) {
                Ok(x) => {
                    out.push(Some(x));
                },
                Err(reason) => {
                    let e = TemporalError::with_literal(reason, source);
                    assert(cast_fails_first_at(i as int, e@, values@, tu, from@, to@, source@));
                    return Err(e);
                },
            },
        }
        i = i + 1;
    }
    Ok(out)
}

/// What a text denotes as a zone: a name that the database knows, else a
/// fixed offset, else nothing.
pub open spec fn zone_denoted(text: Seq<char>) -> Option<ZoneModel> {
    if zone_known(text) {
        Some(ZoneModel::Named(text))
    } else {
        match fixed_offset_spec(vstd::utf8::encode_utf8(text)) {
            Some(o) => Some(ZoneModel::Fixed(o as i32)),
            None => None,
        }
    }
}

/// The outcome of `cast_timezone` for what its two texts denote: a text
/// that denotes no zone fails the call, the source first, with the message
/// `Could not parse timezone` and the text.
pub open spec fn is_cast_timezone(
    out: Result<Seq<Option<i64>>, Failure>,
    values: Seq<Option<i64>>,
    tu: TimeUnit,
    from: Seq<char>,
    to: Seq<char>,
) -> bool {
    match (zone_denoted(from), zone_denoted(to)) {
        (None, _) => out == Err::<Seq<Option<i64>>, Failure>(
            Failure { reason: Reason::UnparsedTimeZone, literal: from },
        ),
        (Some(_), None) => out == Err::<Seq<Option<i64>>, Failure>(
            Failure { reason: Reason::UnparsedTimeZone, literal: to },
        ),
        (Some(s), Some(t)) => is_cast(out, values, tu, s, t, from),
    }
}

/// Converts a column of clock readings taken in the zone `from` to the
/// clock readings of the same instants in the zone `to`. Each zone is a
/// name of the database or a fixed offset such as `+01:00`.
pub fn cast_timezone(arr: &Vec<Option<i64>>, tu: TimeUnit, from: String, to: String) -> (r: Result<
    Vec<Option<i64>>,
    TemporalError,
>)
    ensures
        is_cast_timezone(outcome(r), arr@, tu, from@, to@),
        zone_denoted(from@) is None && from@.len() > 0 ==> (r matches Err(e) && e@.message()
            == "Could not parse timezone"@ + ": '"@ + from@ + "'"@),
        zone_denoted(from@) is Some && zone_denoted(to@) is None && to@.len() > 0 ==> (r matches Err(
            e,
        ) && e@.message() == "Could not parse timezone"@ + ": '"@ + to@ + "'"@),
{
    let source: Zone = match Zone::parse(from.as_str()) {
        Ok(zone) => zone,
        Err(e) => {
            return Err(e);
        },
    };
    let target: Zone = match Zone::parse(to.as_str()) {
        Ok(zone) => zone,
        Err(e) => {
            return Err(e);
        },
    };
    cast_between(arr, tu, &source, &target, from.as_str())
}

} // verus!
