//! The error values that the temporal kernels return.

use vstd::prelude::*;
use vstd::string::*;

verus! {

/// The three families of failure.
#[derive(Clone, Copy, Debug, PartialEq, Eq, Structural)]
pub enum ErrorKind {
    /// A duration expression could not be read.
    Parse,
    /// A computation cannot produce a value.
    Compute,
    /// The operation does not apply to its operands.
    InvalidOperation,
}

/// Why an operation failed.
#[derive(Clone, Copy, Debug, PartialEq, Eq, Structural)]
pub enum Reason {
    /// The duration expression is malformed.
    MalformedDuration,
    /// The time zone is not a zone name that the database knows.
    UnknownTimeZone,
    /// The text is neither a known zone name nor a fixed offset.
    UnparsedTimeZone,
    /// The ambiguity policy is not one of `earliest`, `latest`, `raise`, `null`.
    UnknownAmbiguousPolicy,
    /// A negative duration was given where a positive one is needed.
    NegativeDuration,
    /// A zero duration was given to rounding or truncation.
    ZeroDuration,
    /// The interval of a range is zero or negative.
    NonPositiveInterval,
    /// The interval of a date range is not a whole number of days.
    NotFullDays,
    /// A calendar duration was given where a constant one is needed.
    NonConstantDuration,
    /// An offset was given where none is supported.
    OffsetNotSupported,
    /// Months, weeks and sub-week units are mixed in one window step.
    MixedUnits,
    /// A local time falls in a gap and does not exist.
    NonExistentLocalTime,
    /// A local time falls in a fold and the policy does not choose.
    AmbiguousLocalTime,
    /// A date or time lies outside what can be represented.
    OutOfRange,
    /// Two columns that must agree in length do not.
    LengthMismatch,
    /// The column's type is not one the operation accepts.
    UnsupportedType,
    /// The size of a rolling window is zero or negative.
    NonPositiveWindow,
    /// A rolling window asks for more values than it can hold.
    MinPeriodsExceedWindow,
}

impl Reason {
    /// The family that a reason belongs to.
    pub open spec fn spec_kind(self) -> ErrorKind {
        match self {
            Reason::MalformedDuration => ErrorKind::Parse,
            Reason::ZeroDuration | Reason::NonConstantDuration | Reason::OffsetNotSupported =>
                ErrorKind::InvalidOperation,
            _ => ErrorKind::Compute,
        }
    }

    #[verifier::when_used_as_spec(spec_kind)]
    pub fn kind(self) -> (k: ErrorKind)
        ensures
            k == self.spec_kind(),
    {
        match self {
            Reason::MalformedDuration => ErrorKind::Parse,
            Reason::ZeroDuration | Reason::NonConstantDuration | Reason::OffsetNotSupported =>
                ErrorKind::InvalidOperation,
            _ => ErrorKind::Compute,
        }
    }

    /// A fixed description of the reason.
    pub open spec fn spec_describe(self) -> Seq<char> {
        match self {
            Reason::MalformedDuration => "malformed duration expression"@,
            Reason::UnknownTimeZone => "unable to parse time zone"@,
            Reason::UnparsedTimeZone => "Could not parse timezone"@,
            Reason::UnknownAmbiguousPolicy => "invalid ambiguity policy"@,
            Reason::NegativeDuration => "duration cannot be negative"@,
            Reason::ZeroDuration => "duration cannot be zero"@,
            Reason::NonPositiveInterval => "`interval` must be positive"@,
            Reason::NotFullDays => "`interval` must consist of full days"@,
            Reason::NonConstantDuration => "duration must be constant"@,
            Reason::OffsetNotSupported => "`offset` is not supported here"@,
            Reason::MixedUnits => "duration may not mix month, weeks and nanosecond units"@,
            Reason::NonExistentLocalTime => "local time is non-existent"@,
            Reason::AmbiguousLocalTime => "local time is ambiguous"@,
            Reason::OutOfRange => "date or time is out of range"@,
            Reason::LengthMismatch => "columns should have the same length"@,
            Reason::UnsupportedType => "operation does not support this type"@,
            Reason::NonPositiveWindow => "window size should be strictly positive"@,
            Reason::MinPeriodsExceedWindow => "`min_periods` should be <= `window_size`"@,
        }
    }

    pub fn describe(self) -> (s: &'static str)
        ensures
            s@ == self.spec_describe(),
    {
        match self {
            Reason::MalformedDuration => "malformed duration expression",
            Reason::UnknownTimeZone => "unable to parse time zone",
            Reason::UnparsedTimeZone => "Could not parse timezone",
            Reason::UnknownAmbiguousPolicy => "invalid ambiguity policy",
            Reason::NegativeDuration => "duration cannot be negative",
            Reason::ZeroDuration => "duration cannot be zero",
            Reason::NonPositiveInterval => "`interval` must be positive",
            Reason::NotFullDays => "`interval` must consist of full days",
            Reason::NonConstantDuration => "duration must be constant",
            Reason::OffsetNotSupported => "`offset` is not supported here",
            Reason::MixedUnits => "duration may not mix month, weeks and nanosecond units",
            Reason::NonExistentLocalTime => "local time is non-existent",
            Reason::AmbiguousLocalTime => "local time is ambiguous",
            Reason::OutOfRange => "date or time is out of range",
            Reason::LengthMismatch => "columns should have the same length",
            Reason::UnsupportedType => "operation does not support this type",
            Reason::NonPositiveWindow => "window size should be strictly positive",
            Reason::MinPeriodsExceedWindow => "`min_periods` should be <= `window_size`",
        }
    }
}

/// What a failure says: its reason and the characters of its literal.
pub struct Failure {
    pub reason: Reason,
    pub literal: Seq<char>,
}

/// A failure, with the literal that caused it where there is one.
#[derive(Debug)]
pub struct TemporalError {
    pub reason: Reason,
    /// The offending duration expression, zone name or policy; empty where
    /// the failure has no literal.
    pub literal: String,
}

impl Failure {
    /// The text of the failure: the description of its reason, then its
    /// literal in quotes where it has one.
    pub open spec fn message(self) -> Seq<char> {
        if self.literal.len() == 0 {
            self.reason.spec_describe()
        } else {
            self.reason.spec_describe() + ": '"@ + self.literal + "'"@
        }
    }
}

impl View for TemporalError {
    type V = Failure;

    open spec fn view(&self) -> Failure {
        Failure { reason: self.reason, literal: self.literal@ }
    }
}

impl TemporalError {
    /// A failure without a literal.
    pub fn new(reason: Reason) -> (e: TemporalError)
        ensures
            e.reason == reason,
            e.literal@ == Seq::<char>::empty(),
    {
        TemporalError { reason, literal: String::new() }
    }

    /// A failure caused by `literal`.
    pub fn with_literal(reason: Reason, literal: &str) -> (e: TemporalError)
        ensures
            e.reason == reason,
            e.literal@ == literal@,
    {
        TemporalError { reason, literal: literal.to_owned() }
    }

    pub open spec fn spec_kind(&self) -> ErrorKind {
        self.reason.spec_kind()
    }

    #[verifier::when_used_as_spec(spec_kind)]
    pub fn kind(&self) -> (k: ErrorKind)
        ensures
            k == self.reason.spec_kind(),
    {
        self.reason.kind()
    }

    /// The text shown to a user: the description, then the literal in quotes
    /// where there is one.
    pub fn message(&self) -> (s: String)
        ensures
            s@ == self@.message(),
    {
        let base = String::from_str(self.reason.describe());
        if self.literal.as_str().unicode_len() == 0 {
            base
        } else {
            base.concat(": '").concat(self.literal.as_str()).concat("'")
        }
    }
}

/// The elements and the failure of a fallible column.
pub open spec fn outcome(r: Result<Vec<Option<i64>>, TemporalError>) -> Result<
    Seq<Option<i64>>,
    Failure,
> {
    match r {
        Ok(v) => Ok(v@),
        Err(e) => Err(e@),
    }
}

/// The value and the failure of a fallible row.
pub open spec fn row_outcome(r: Result<Option<i64>, TemporalError>) -> Result<Option<int>, Failure> {
    match r {
        Ok(v) => Ok(crate::arith::lift_value(v)),
        Err(e) => Err(e@),
    }
}

} // verus!
