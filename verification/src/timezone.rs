//! Time zones: named zones, whose rules come from the IANA database that
//! `chrono-tz` carries, and fixed offsets from UTC.
//!
//! The rules of a named zone are not defined here. They appear in contracts
//! under three names: [`zone_known`], [`zone_offset_at_utc`] and
//! [`zone_offsets_at_local`].

use vstd::prelude::*;
use vstd::string::*;
use chrono::Offset;
use chrono::TimeZone;
use crate::arith::{fits_i64, floor_div, lift, lift_opt};
use crate::duration::{decimal_value, digits_end, read_number};
use crate::error::{Reason, TemporalError};
use crate::units::TimeUnit;

verus! {

/// What a zone's rules say of a local clock reading: the offsets from UTC,
/// in seconds east, under which that reading occurs.
#[derive(Clone, Copy, Debug, PartialEq, Eq, Structural)]
pub enum LocalOffsets {
    /// The reading is skipped: no instant shows it.
    Gap,
    /// Exactly one instant shows the reading.
    Single(i32),
    /// Two instants show the reading; the offset of the earlier instant
    /// comes first.
    Fold(i32, i32),
}

/// How to resolve a local clock reading that a zone shows twice or never.
#[derive(Clone, Copy, Debug, PartialEq, Eq, Structural)]
pub enum AmbiguousPolicy {
    Earliest,
    Latest,
    Raise,
    Null,
}

/// Whether `chrono_tz::Tz::from_str` accepts the name.
pub uninterp spec fn zone_known(name: Seq<char>) -> bool;

/// The offset from UTC, in seconds east, that
/// `chrono_tz::Tz::offset_from_utc_datetime` gives for a zone name and an
/// instant in whole seconds since the epoch; `None` where the name is not
/// known or chrono cannot represent the instant.
pub uninterp spec fn zone_offset_at_utc(name: Seq<char>, utc_secs: int) -> Option<i32>;

/// What `chrono_tz::Tz::offset_from_local_datetime` gives for a zone name
/// and a local clock reading in whole seconds since 1970-01-01T00:00:00 on
/// that clock; `None` where the name is not known or chrono cannot represent
/// the reading.
pub uninterp spec fn zone_offsets_at_local(name: Seq<char>, local_secs: int) -> Option<
    LocalOffsets,
>;

/// Calls `chrono_tz::Tz::from_str`. Trusted: the result says whether the
/// name parsed.
#[verifier::external_body]
pub(crate) fn named_zone_exists(name: &str) -> (r: bool)
    ensures
        r == zone_known(name@),
{
    name.parse::<chrono_tz::Tz>().is_ok()
}

/// Calls `chrono_tz::Tz::offset_from_utc_datetime` on the zone that the name
/// parses to and the instant that `chrono::DateTime::from_timestamp` builds.
/// Trusted: the result is the named value.
#[verifier::external_body]
pub(crate) fn named_offset_at_utc(name: &str, utc_secs: i64) -> (r: Option<i32>)
    ensures
        r == zone_offset_at_utc(name@, utc_secs as int),
{
    let tz = name.parse::<chrono_tz::Tz>().ok()?;
    let utc = chrono::DateTime::from_timestamp(utc_secs, 0)?.naive_utc();
    Some(tz.offset_from_utc_datetime(&utc).fix().local_minus_utc())
}

/// Calls `chrono_tz::Tz::offset_from_local_datetime` on the zone that the
/// name parses to and the clock reading that
/// `chrono::DateTime::from_timestamp` builds. Trusted: the result is the
/// named value. Nothing is proved of the order of the two offsets of a
/// fold; chrono documents that the earlier instant comes first.
#[verifier::external_body]
pub(crate) fn named_offsets_at_local(name: &str, local_secs: i64) -> (r: Option<LocalOffsets>)
    ensures
        r == zone_offsets_at_local(name@, local_secs as int),
{
    let tz = name.parse::<chrono_tz::Tz>().ok()?;
    let local = chrono::DateTime::from_timestamp(local_secs, 0)?.naive_utc();
    Some(
        match tz.offset_from_local_datetime(&local) {
            chrono::LocalResult::None => LocalOffsets::Gap,
            chrono::LocalResult::Single(o) => LocalOffsets::Single(o.fix().local_minus_utc()),
            chrono::LocalResult::Ambiguous(a, b) => LocalOffsets::Fold(
                a.fix().local_minus_utc(),
                b.fix().local_minus_utc(),
            ),
        },
    )
}

/// Whether two strings hold the same characters.
pub fn same_text(a: &str, b: &str) -> (r: bool)
    ensures
        r == (a@ == b@),
{
    let x: String = a.to_owned();
    let y: String = b.to_owned();
    x == y
}

/// A time zone: a zone of the IANA database, by name, or a fixed offset from
/// UTC in seconds east.
#[derive(Debug)]
pub enum Zone {
    Named(String),
    Fixed(i32),
}

/// The offset, in seconds east, that a fixed-offset expression denotes: an
/// optional sign, the hours, a colon and the minutes, below one day in all.
pub open spec fn fixed_offset_spec(s: Seq<u8>) -> Option<int> {
    let signed = s.len() > 0 && (s[0] == 43 || s[0] == 45);
    let start: int = if signed { 1 } else { 0 };
    let colon = digits_end(s, start);
    let end = digits_end(s, colon + 1);
    if start < colon < s.len() && s[colon] == 58 && colon + 1 < end && end == s.len() {
        let hours = decimal_value(s.subrange(start, colon));
        let minutes = decimal_value(s.subrange(colon + 1, end));
        let total = hours * 3600 + minutes * 60;
        if total < 86_400 {
            if s[0] == 45 {
                Some(-total)
            } else {
                Some(total)
            }
        } else {
            None
        }
    } else {
        None
    }
}

/// Reads a fixed offset such as `+01:00` or `-05:30` from its bytes.
pub fn parse_fixed_offset(bytes: &[u8]) -> (r: Option<i32>)
    ensures
        match r {
            Some(o) => fixed_offset_spec(bytes@) == Some(o as int),
            None => fixed_offset_spec(bytes@) is None,
        },
{
    let signed: bool = bytes.len() > 0 && (bytes[0] == 43 || bytes[0] == 45);
    let start: usize = if signed { 1 } else { 0 };
    let (colon, hours) = read_number(bytes, start);
    if colon == start || colon >= bytes.len() || bytes[colon] != 58 {
        return None;
    }
    let (end, minutes) = read_number(bytes, colon + 1);
    if end == colon + 1 || end != bytes.len() {
        return None;
    }
    match (hours, minutes) {
        (Some(h), Some(m)) => {
            if h < 24 && m < 1440 {
                let total: i64 = h * 3600 + m * 60;
                if total < 86_400 {
                    let secs: i32 = total as i32;
                    if bytes[0] == 45 {
                        Some(-secs)
                    } else {
                        Some(secs)
                    }
                } else {
                    None
                }
            } else {
                None
            }
        },
        _ => None,
    }
}

/// What a zone is, apart from how its name is stored: a name, as
/// characters, or a fixed offset in seconds east.
pub enum ZoneModel {
    Named(Seq<char>),
    Fixed(i32),
}

impl ZoneModel {
    /// Whether this is the zone named `UTC`, whose offset is zero.
    pub open spec fn is_utc(self) -> bool {
        self matches ZoneModel::Named(name) && name == "UTC"@
    }

    /// The offset from UTC, in seconds east, in force at an instant given in
    /// whole seconds since the epoch.
    pub open spec fn offset_at_utc(self, utc_secs: int) -> Result<int, Reason> {
        match self {
            ZoneModel::Fixed(o) => Ok(o as int),
            ZoneModel::Named(name) => if name == "UTC"@ {
                Ok(0)
            } else if !zone_known(name) {
                Err(Reason::UnknownTimeZone)
            } else {
                match zone_offset_at_utc(name, utc_secs) {
                    Some(o) => Ok(o as int),
                    None => Err(Reason::OutOfRange),
                }
            },
        }
    }

    /// The offsets under which a local clock reading, in whole seconds,
    /// occurs in this zone.
    pub open spec fn offsets_at_local(self, local_secs: int) -> Result<
        LocalOffsets,
        Reason,
    > {
        match self {
            ZoneModel::Fixed(o) => Ok(LocalOffsets::Single(o)),
            ZoneModel::Named(name) => if name == "UTC"@ {
                Ok(LocalOffsets::Single(0))
            } else if !zone_known(name) {
                Err(Reason::UnknownTimeZone)
            } else {
                match zone_offsets_at_local(name, local_secs) {
                    Some(o) => Ok(o),
                    None => Err(Reason::OutOfRange),
                }
            },
        }
    }

    /// The clock reading that this zone shows at the instant `t`, as a count
    /// of ticks since 1970-01-01T00:00:00 on that clock.
    pub open spec fn to_local(self, t: int, tu: TimeUnit) -> Result<int, Reason> {
        match self.offset_at_utc(t / tu.ticks_per_second()) {
            Err(e) => Err(e),
            Ok(o) => {
                let local = t + o * tu.ticks_per_second();
                if fits_i64(local) {
                    Ok(local)
                } else {
                    Err(Reason::OutOfRange)
                }
            },
        }
    }

    /// The instant at which this zone shows the clock reading `local`.
    /// `Ok(None)` where the policy asks for a null.
    pub open spec fn to_utc(self, local: int, tu: TimeUnit, policy: AmbiguousPolicy) -> Result<
        Option<int>,
        Reason,
    > {
        match self.offsets_at_local(local / tu.ticks_per_second()) {
            Err(e) => Err(e),
            Ok(LocalOffsets::Single(o)) => shifted(local, o as int, tu),
            Ok(LocalOffsets::Fold(first, second)) => match policy {
                AmbiguousPolicy::Earliest => shifted(local, first as int, tu),
                AmbiguousPolicy::Latest => shifted(local, second as int, tu),
                AmbiguousPolicy::Raise => Err(Reason::AmbiguousLocalTime),
                AmbiguousPolicy::Null => Ok(None),
            },
            Ok(LocalOffsets::Gap) => match policy {
                AmbiguousPolicy::Null => Ok(None),
                _ => Err(Reason::NonExistentLocalTime),
            },
        }
    }

    /// Whether the zone can be asked for its offsets: it is a fixed offset,
    /// `UTC`, or a name that the database knows.
    pub open spec fn is_usable(self) -> bool {
        match self {
            ZoneModel::Fixed(_) => true,
            ZoneModel::Named(name) => name == "UTC"@ || zone_known(name),
        }
    }

    /// The name of a named zone; empty for a fixed offset.
    pub open spec fn name(self) -> Seq<char> {
        match self {
            ZoneModel::Named(name) => name,
            ZoneModel::Fixed(_) => Seq::empty(),
        }
    }
}

impl View for Zone {
    type V = ZoneModel;

    open spec fn view(&self) -> ZoneModel {
        match self {
            Zone::Named(name) => ZoneModel::Named(name@),
            Zone::Fixed(o) => ZoneModel::Fixed(*o),
        }
    }
}

impl Zone {
    /// Whether this is the zone named `UTC`, whose offset is zero.
    pub open spec fn spec_is_utc(&self) -> bool {
        self@.is_utc()
    }

    /// The offset from UTC, in seconds east, in force at an instant given in
    /// whole seconds since the epoch.
    pub open spec fn spec_offset_at_utc(&self, utc_secs: int) -> Result<int, Reason> {
        self@.offset_at_utc(utc_secs)
    }

    /// The offsets under which a local clock reading, in whole seconds,
    /// occurs in this zone.
    pub open spec fn spec_offsets_at_local(&self, local_secs: int) -> Result<
        LocalOffsets,
        Reason,
    > {
        self@.offsets_at_local(local_secs)
    }

    /// The clock reading that this zone shows at the instant `t`, as a count
    /// of ticks since 1970-01-01T00:00:00 on that clock.
    pub open spec fn spec_to_local(&self, t: int, tu: TimeUnit) -> Result<int, Reason> {
        self@.to_local(t, tu)
    }

    /// The instant at which this zone shows the clock reading `local`.
    /// `Ok(None)` where the policy asks for a null.
    pub open spec fn spec_to_utc(&self, local: int, tu: TimeUnit, policy: AmbiguousPolicy) -> Result<
        Option<int>,
        Reason,
    > {
        self@.to_utc(local, tu, policy)
    }

    /// Reads a zone: a name that the database knows, else a fixed offset.
    /// A text that is neither fails with `Could not parse timezone` and the
    /// text.
    pub fn parse(text: &str) -> (r: Result<Zone, TemporalError>)
        ensures
            match r {
                Ok(Zone::Named(name)) => name@ == text@ && zone_known(text@),
                Ok(Zone::Fixed(o)) => !zone_known(text@) && fixed_offset_spec(text.spec_bytes())
                    == Some(o as int),
                Err(e) => !zone_known(text@) && fixed_offset_spec(text.spec_bytes()) is None
                    && e.reason == Reason::UnparsedTimeZone && e.literal@ == text@,
            },
    {
        if named_zone_exists(text) {
            Ok(Zone::Named(text.to_owned()))
        } else {
            match parse_fixed_offset(text.as_bytes()) {
                Some(o) => Ok(Zone::Fixed(o)),
                None => Err(TemporalError::with_literal(Reason::UnparsedTimeZone, text)),
            }
        }
    }

    /// Reads the name of a zone of the database.
    pub fn parse_named(text: &str) -> (r: Result<Zone, TemporalError>)
        ensures
            match r {
                Ok(Zone::Named(name)) => zone_known(text@) && name@ == text@,
                Ok(Zone::Fixed(_)) => false,
                Err(e) => !zone_known(text@) && e.reason == Reason::UnknownTimeZone && e.literal@
                    == text@,
            },
    {
        if named_zone_exists(text) {
            Ok(Zone::Named(text.to_owned()))
        } else {
            Err(TemporalError::with_literal(Reason::UnknownTimeZone, text))
        }
    }

    /// A copy of this zone.
    pub fn duplicate(&self) -> (z: Zone)
        ensures
            z == *self,
    {
        match self {
            Zone::Named(name) => Zone::Named(name.clone()),
            Zone::Fixed(o) => Zone::Fixed(*o),
        }
    }

    #[verifier::when_used_as_spec(spec_is_utc)]
    pub fn is_utc(&self) -> (r: bool)
        ensures
            r == self.spec_is_utc(),
    {
        match self {
            Zone::Named(name) => same_text(name.as_str(), "UTC"),
            Zone::Fixed(_) => false,
        }
    }

    /// The offset from UTC in force at an instant.
    pub fn offset_at_utc(&self, utc_secs: i64) -> (r: Result<i32, Reason>)
        ensures
            match r {
                Ok(o) => self.spec_offset_at_utc(utc_secs as int) == Ok::<int, Reason>(o as int),
                Err(e) => self.spec_offset_at_utc(utc_secs as int) == Err::<int, Reason>(e),
            },
    {
        match self {
            Zone::Fixed(o) => Ok(*o),
            Zone::Named(name) => {
                if same_text(name.as_str(), "UTC") {
                    Ok(0)
                } else if !named_zone_exists(name.as_str()) {
                    Err(Reason::UnknownTimeZone)
                } else {
                    match named_offset_at_utc(name.as_str(), utc_secs) {
                        Some(o) => Ok(o),
                        None => Err(Reason::OutOfRange),
                    }
                }
            },
        }
    }

    /// The offsets under which a local clock reading occurs.
    pub fn offsets_at_local(&self, local_secs: i64) -> (r: Result<LocalOffsets, Reason>)
        ensures
            r == self.spec_offsets_at_local(local_secs as int),
    {
        match self {
            Zone::Fixed(o) => Ok(LocalOffsets::Single(*o)),
            Zone::Named(name) => {
                if same_text(name.as_str(), "UTC") {
                    Ok(LocalOffsets::Single(0))
                } else if !named_zone_exists(name.as_str()) {
                    Err(Reason::UnknownTimeZone)
                } else {
                    match named_offsets_at_local(name.as_str(), local_secs) {
                        Some(o) => Ok(o),
                        None => Err(Reason::OutOfRange),
                    }
                }
            },
        }
    }
}

/// `local` moved west by `offset` seconds, where that fits.
pub open spec fn shifted(local: int, offset: int, tu: TimeUnit) -> Result<Option<int>, Reason> {
    let utc = local - offset * tu.ticks_per_second();
    if fits_i64(utc) {
        Ok(Some(utc))
    } else {
        Err(Reason::OutOfRange)
    }
}

/// `offset` seconds as ticks of `tu`.
fn offset_ticks(offset: i32, tu: TimeUnit) -> (r: i64)
    ensures
        r == offset * tu.ticks_per_second(),
{
    let o: i64 = offset as i64;
    match tu {
        TimeUnit::Nanoseconds => o * 1_000_000_000,
        TimeUnit::Microseconds => o * 1_000_000,
        TimeUnit::Milliseconds => o * 1_000,
    }
}

/// `local` moved west by `offset` seconds.
fn shift_west(local: i64, offset: i32, tu: TimeUnit) -> (r: Result<Option<i64>, Reason>)
    ensures
        lift_opt(r) == shifted(local as int, offset as int, tu),
{
    match local.checked_sub(offset_ticks(offset, tu)) {
        Some(v) => Ok(Some(v)),
        None => Err(Reason::OutOfRange),
    }
}

impl Zone {
    /// The clock reading that this zone shows at the instant `t`.
    pub fn to_local(&self, t: i64, tu: TimeUnit) -> (r: Result<i64, Reason>)
        ensures
            lift(r) == self.spec_to_local(t as int, tu),
    {
        let secs: i64 = floor_div(t, tu.per_second());
        match self.offset_at_utc(secs) {
            Err(e) => Err(e),
            Ok(o) => match t.checked_add(offset_ticks(o, tu)) {
                Some(v) => Ok(v),
                None => Err(Reason::OutOfRange),
            },
        }
    }

    /// The instant at which this zone shows the clock reading `local`;
    /// `Ok(None)` where the policy asks for a null.
    pub fn to_utc(&self, local: i64, tu: TimeUnit, policy: AmbiguousPolicy) -> (r: Result<
        Option<i64>,
        Reason,
    >)
        ensures
            lift_opt(r) == self.spec_to_utc(local as int, tu, policy),
    {
        let secs: i64 = floor_div(local, tu.per_second());
        match self.offsets_at_local(secs) {
            Err(e) => Err(e),
            Ok(LocalOffsets::Single(o)) => shift_west(local, o, tu),
            Ok(LocalOffsets::Fold(first, second)) => match policy {
                AmbiguousPolicy::Earliest => shift_west(local, first, tu),
                AmbiguousPolicy::Latest => shift_west(local, second, tu),
                AmbiguousPolicy::Raise => Err(Reason::AmbiguousLocalTime),
                AmbiguousPolicy::Null => Ok(None),
            },
            Ok(LocalOffsets::Gap) => match policy {
                AmbiguousPolicy::Null => Ok(None),
                _ => Err(Reason::NonExistentLocalTime),
            },
        }
    }
}

impl AmbiguousPolicy {
    /// The policy that a word names, if any.
    pub open spec fn spec_parse(text: Seq<char>) -> Option<AmbiguousPolicy> {
        if text == "earliest"@ {
            Some(AmbiguousPolicy::Earliest)
        } else if text == "latest"@ {
            Some(AmbiguousPolicy::Latest)
        } else if text == "raise"@ {
            Some(AmbiguousPolicy::Raise)
        } else if text == "null"@ {
            Some(AmbiguousPolicy::Null)
        } else {
            None
        }
    }

    /// Reads one of `earliest`, `latest`, `raise`, `null`.
    pub fn parse(text: &str) -> (r: Option<AmbiguousPolicy>)
        ensures
            r == AmbiguousPolicy::spec_parse(text@),
    {
        if same_text(text, "earliest") {
            Some(AmbiguousPolicy::Earliest)
        } else if same_text(text, "latest") {
            Some(AmbiguousPolicy::Latest)
        } else if same_text(text, "raise") {
            Some(AmbiguousPolicy::Raise)
        } else if same_text(text, "null") {
            Some(AmbiguousPolicy::Null)
        } else {
            None
        }
    }
}

/// The clock reading at the instant `t` in an optional zone; without a zone
/// the count is its own clock reading.
pub open spec fn local_of(zone: Option<&Zone>, t: int, tu: TimeUnit) -> Result<int, Reason> {
    match zone {
        None => Ok(t),
        Some(z) => z.spec_to_local(t, tu),
    }
}

/// The instant of a clock reading in an optional zone, under the policy
/// that fails on a fold or a gap.
pub open spec fn instant_of(zone: Option<&Zone>, local: int, tu: TimeUnit) -> Result<int, Reason> {
    match zone {
        None => Ok(local),
        Some(z) => match z.spec_to_utc(local, tu, AmbiguousPolicy::Raise) {
            Ok(Some(utc)) => Ok(utc),
            Ok(None) => Err(Reason::AmbiguousLocalTime),
            Err(e) => Err(e),
        },
    }
}

/// The clock reading at the instant `t` in an optional zone.
pub fn to_local_in(zone: Option<&Zone>, t: i64, tu: TimeUnit) -> (r: Result<i64, Reason>)
    ensures
        lift(r) == local_of(zone, t as int, tu),
{
    match zone {
        None => Ok(t),
        Some(z) => z.to_local(t, tu),
    }
}

/// The instant of a clock reading in an optional zone; a fold or a gap is an
/// error.
pub fn to_instant_in(zone: Option<&Zone>, local: i64, tu: TimeUnit) -> (r: Result<i64, Reason>)
    ensures
        lift(r) == instant_of(zone, local as int, tu),
{
    match zone {
        None => Ok(local),
        Some(z) => match z.to_utc(local, tu, AmbiguousPolicy::Raise) {
            Ok(Some(utc)) => Ok(utc),
            Ok(None) => Err(Reason::AmbiguousLocalTime),
            Err(e) => Err(e),
        },
    }
}

/// A copy of an optional zone.
pub fn duplicate_zone(zone: &Option<Zone>) -> (z: Option<Zone>)
    ensures
        z == *zone,
{
    match zone {
        Some(zone) => Some(zone.duplicate()),
        None => None,
    }
}

/// What an optional zone is.
pub open spec fn model_of(zone: Option<Zone>) -> Option<ZoneModel> {
    match zone {
        Some(z) => Some(z@),
        None => None,
    }
}

} // verus!
