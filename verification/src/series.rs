//! Temporal series: a column of physical 64-bit values tagged with the
//! temporal type that says what they count.

use vstd::prelude::*;
use vstd::string::*;
use crate::arith::{checked, floor_div, lift, narrow};
use crate::column::IsSorted;
use crate::error::{Failure, Reason, TemporalError};
use crate::timezone::{Zone, ZoneModel};
use crate::units::TimeUnit;

verus! {

/// What the values of a temporal series count.
#[derive(Debug)]
pub enum TemporalType {
    /// Days since 1970-01-01.
    Date,
    /// Nanoseconds since midnight.
    Time,
    /// Ticks since the epoch, shown in a zone where there is one.
    Datetime(TimeUnit, Option<Zone>),
}

/// A temporal type apart from how a zone's name is stored.
pub enum TypeModel {
    Date,
    Time,
    Datetime(TimeUnit, Option<ZoneModel>),
}

impl View for TemporalType {
    type V = TypeModel;

    open spec fn view(&self) -> TypeModel {
        match self {
            TemporalType::Date => TypeModel::Date,
            TemporalType::Time => TypeModel::Time,
            TemporalType::Datetime(tu, zone) => TypeModel::Datetime(
                *tu,
                match zone {
                    Some(z) => Some(z@),
                    None => None,
                },
            ),
        }
    }
}

/// A named column of temporal values. Dates are held as 64-bit counts of
/// days.
#[derive(Debug)]
pub struct TemporalSeries {
    pub name: String,
    pub dtype: TemporalType,
    pub values: Vec<Option<i64>>,
    pub sorted: IsSorted,
}

/// A named column of lists of temporal values; `dtype` is the type of the
/// values in the lists.
#[derive(Debug)]
pub struct TemporalListSeries {
    pub name: String,
    pub dtype: TemporalType,
    pub values: Vec<Option<Vec<i64>>>,
}

impl TemporalType {
    /// A copy of this type.
    pub fn duplicate(&self) -> (t: TemporalType)
        ensures
            t == *self,
    {
        match self {
            TemporalType::Date => TemporalType::Date,
            TemporalType::Time => TemporalType::Time,
            TemporalType::Datetime(tu, zone) => TemporalType::Datetime(
                *tu,
                crate::timezone::duplicate_zone(zone),
            ),
        }
    }
}

/// The quotient of `x` by a positive `d`, rounded toward zero.
pub open spec fn toward_zero(x: int, d: int) -> int {
    if x >= 0 {
        x / d
    } else {
        -((-x) / d)
    }
}

/// A count of ticks of `from` as a count of ticks of `to`: multiplied where
/// `to` is finer, divided toward zero where it is coarser.
pub open spec fn rescaled(v: int, from: TimeUnit, to: TimeUnit) -> Result<int, Reason> {
    if from.ns_per_tick() >= to.ns_per_tick() {
        checked(v * (from.ns_per_tick() / to.ns_per_tick()))
    } else {
        Ok(toward_zero(v, to.ns_per_tick() / from.ns_per_tick()))
    }
}

/// What a value of type `from` is as a value of type `to`. A date becomes
/// the instant of its midnight and an instant the date of its day; an
/// instant changes its unit; a zone is a label and changes no value. A time
/// of day is only cast to a time of day.
pub open spec fn cast_value_spec(v: int, from: TypeModel, to: TypeModel) -> Result<int, Reason> {
    match (from, to) {
        (TypeModel::Date, TypeModel::Date) => Ok(v),
        (TypeModel::Time, TypeModel::Time) => Ok(v),
        (TypeModel::Date, TypeModel::Datetime(tu, _)) => checked(v * tu.ticks_per_day()),
        (TypeModel::Datetime(tu, _), TypeModel::Date) => Ok(v / tu.ticks_per_day()),
        (TypeModel::Datetime(a, _), TypeModel::Datetime(b, _)) => rescaled(v, a, b),
        _ => Err(Reason::UnsupportedType),
    }
}

/// Changes the unit of a count of ticks.
pub fn rescale(v: i64, from: TimeUnit, to: TimeUnit) -> (r: Result<i64, Reason>)
    ensures
        lift(r) == rescaled(v as int, from, to),
{
    let a: i64 = from.nanos_per_tick();
    let b: i64 = to.nanos_per_tick();
    if a >= b {
        let factor: i64 = a / b;
        assert(factor == from.ns_per_tick() / to.ns_per_tick());
        assert(factor == 1 || factor == 1_000 || factor == 1_000_000);
        let wide: i128 = if factor == 1 {
            v as i128
        } else if factor == 1_000 {
            v as i128 * 1_000
        } else {
            v as i128 * 1_000_000
        };
        assert(wide == v * factor);
        narrow(wide)
    } else {
        let factor: i64 = b / a;
        assert(factor == to.ns_per_tick() / from.ns_per_tick());
        assert(factor == 1_000 || factor == 1_000_000);
        if v >= 0 {
            Ok(v / factor)
        } else {
            let up: i128 = -(v as i128);
            let q: i128 = up / (factor as i128);
            assert(q == (-(v as int)) / (factor as int));
            Ok((-q) as i64)
        }
    }
}

/// Casts one value from one temporal type to another.
pub fn cast_value(v: i64, from: &TemporalType, to: &TemporalType) -> (r: Result<i64, Reason>)
    ensures
        lift(r) == cast_value_spec(v as int, from@, to@),
{
    match (from, to) {
        (TemporalType::Date, TemporalType::Date) => Ok(v),
        (TemporalType::Time, TemporalType::Time) => Ok(v),
        (TemporalType::Date, TemporalType::Datetime(tu, _)) => {
            let wide: i128 = match tu {
                TimeUnit::Nanoseconds => v as i128 * 86_400_000_000_000,
                TimeUnit::Microseconds => v as i128 * 86_400_000_000,
                TimeUnit::Milliseconds => v as i128 * 86_400_000,
            };
            narrow(wide)
        },
        (TemporalType::Datetime(tu, _), TemporalType::Date) => Ok(floor_div(v, tu.per_day())),
        (TemporalType::Datetime(a, _), TemporalType::Datetime(b, _)) => rescale(v, *a, *b),
        _ => Err(Reason::UnsupportedType),
    }
}

/// The name of a unit, as it is written in the name of a type.
pub open spec fn unit_name(tu: TimeUnit) -> Seq<char> {
    match tu {
        TimeUnit::Nanoseconds => "ns"@,
        TimeUnit::Microseconds => "us"@,
        TimeUnit::Milliseconds => "ms"@,
    }
}

/// The name of a temporal type: `date`, `time`, or `datetime[ms]` with its
/// unit, and with the name of its zone where it has a named one, as in
/// `datetime[ms, Europe/Amsterdam]`.
pub open spec fn name_of_type(dtype: TypeModel) -> Seq<char> {
    match dtype {
        TypeModel::Date => "date"@,
        TypeModel::Time => "time"@,
        TypeModel::Datetime(tu, zone) => match zone {
            Some(ZoneModel::Named(name)) => "datetime["@ + unit_name(tu) + ", "@ + name + "]"@,
            _ => "datetime["@ + unit_name(tu) + "]"@,
        },
    }
}

/// The failure of an operation that does not take values of the type
/// `found`: it carries the name of that type.
pub open spec fn unsupported(found: TypeModel) -> Failure {
    Failure { reason: Reason::UnsupportedType, literal: name_of_type(found) }
}

impl TemporalType {
    /// The name of this type.
    pub fn name(&self) -> (s: String)
        ensures
            s@ == name_of_type(self@),
    {
        match self {
            TemporalType::Date => String::from_str("date"),
            TemporalType::Time => String::from_str("time"),
            TemporalType::Datetime(tu, zone) => {
                let unit: &'static str = match tu {
                    TimeUnit::Nanoseconds => "ns",
                    TimeUnit::Microseconds => "us",
                    TimeUnit::Milliseconds => "ms",
                };
                let head: String = String::from_str("datetime[").concat(unit);
                match zone {
                    Some(Zone::Named(name)) => head.concat(", ").concat(name.as_str()).concat("]"),
                    _ => head.concat("]"),
                }
            },
        }
    }

    /// The failure of an operation that does not take values of this type.
    pub fn unsupported_error(&self) -> (e: TemporalError)
        ensures
            e@ == unsupported(self@),
    {
        TemporalError::with_literal(Reason::UnsupportedType, self.name().as_str())
    }
}

} // verus!
