//! Reinterpreting the clock readings of a column in another zone.

use vstd::prelude::*;
use vstd::string::*;
use crate::arith::{lift_opt, lift_value};
use crate::column::{row_of, DatetimeColumn, IsSorted, StringColumn};
use crate::error::{outcome, row_outcome, Failure, Reason, TemporalError};
use crate::timezone::{model_of, zone_known, AmbiguousPolicy, LocalOffsets, Zone, ZoneModel};
use crate::units::TimeUnit;

verus! {

/// The instant at which the zone `to` shows the clock reading that the zone
/// `from` shows at the instant `t`. Without a policy a fold is an error of
/// its own kind.
pub open spec fn replaced_instant(
    t: int,
    tu: TimeUnit,
    from: ZoneModel,
    to: ZoneModel,
    policy: Option<AmbiguousPolicy>,
) -> Result<Option<int>, Reason> {
    match from.to_local(t, tu) {
        Err(e) => Err(e),
        Ok(local) => match policy {
            Some(p) => to.to_utc(local, tu, p),
            None => match to.to_utc(local, tu, AmbiguousPolicy::Raise) {
                Err(Reason::AmbiguousLocalTime) => Err(Reason::UnknownAmbiguousPolicy),
                other => other,
            },
        },
    }
}

/// Moves one instant from the clock of `from` to the clock of `to`.
pub fn replace_instant(
    t: i64,
    tu: TimeUnit,
    from: &Zone,
    to: &Zone,
    policy: Option<AmbiguousPolicy>,
) -> (r: Result<Option<i64>, Reason>)
    ensures
        lift_opt(r) == replaced_instant(t as int, tu, from@, to@, policy),
{
    match from.to_local(t, tu) {
        Err(e) => Err(e),
        Ok(local) => match policy {
            Some(p) => to.to_utc(local, tu, p),
            None => match to.to_utc(local, tu, AmbiguousPolicy::Raise) {
                Err(Reason::AmbiguousLocalTime) => Err(Reason::UnknownAmbiguousPolicy),
                other => other,
            },
        },
    }
}

/// The literal of a row's failure: the policy as written where it is not
/// known, else the name of the target zone.
pub open spec fn replace_literal(reason: Reason, policy: Seq<char>, target: Seq<char>) -> Seq<char> {
    if reason == Reason::UnknownAmbiguousPolicy {
        policy
    } else {
        target
    }
}

/// What one row gives: a null where the instant or the policy is null, else
/// the instant moved under the policy that the text names.
#[verifier::opaque]
pub open spec fn replace_row(
    value: Option<i64>,
    policy: Option<String>,
    tu: TimeUnit,
    from: ZoneModel,
    to: ZoneModel,
    target: Seq<char>,
) -> Result<Option<int>, Failure> {
    match (value, policy) {
        (Some(t), Some(text)) => match replaced_instant(
            t as int,
            tu,
            from,
            to,
            AmbiguousPolicy::spec_parse(text@),
        ) {
            Ok(v) => Ok(v),
            Err(reason) => Err(
                Failure { reason, literal: replace_literal(reason, text@, target) },
            ),
        },
        _ => Ok(None),
    }
}

/// Row `i` fails with `f` and no row before it fails.
pub open spec fn replace_fails_first_at(
    i: int,
    f: Failure,
    values: Seq<Option<i64>>,
    policies: Seq<Option<String>>,
    tu: TimeUnit,
    from: ZoneModel,
    to: ZoneModel,
    target: Seq<char>,
) -> bool {
    &&& 0 <= i < values.len()
    &&& replace_row(values[i], row_of(policies, i), tu, from, to, target) == Err::<
        Option<int>,
        Failure,
    >(f)
    &&& forall|j: int|
        0 <= j < i ==> (#[trigger] replace_row(
            values[j],
            row_of(policies, j),
            tu,
            from,
            to,
            target,
        )) is Ok
}

/// Some row is the first to fail, and fails with `f`.
pub open spec fn replace_fails(
    f: Failure,
    values: Seq<Option<i64>>,
    policies: Seq<Option<String>>,
    tu: TimeUnit,
    from: ZoneModel,
    to: ZoneModel,
    target: Seq<char>,
) -> bool {
    exists|i: int| #[trigger] replace_fails_first_at(i, f, values, policies, tu, from, to, target)
}

/// The outcome of replacing the zone of a column of instants: one output
/// row for each instant, or the failure of the first row that fails. A
/// single policy stands for every row; otherwise there is one policy for
/// each instant.
pub open spec fn is_replaced(
    out: Result<Seq<Option<i64>>, Failure>,
    values: Seq<Option<i64>>,
    policies: Seq<Option<String>>,
    tu: TimeUnit,
    from: ZoneModel,
    to: ZoneModel,
    target: Seq<char>,
) -> bool {
    if policies.len() != 1 && policies.len() != values.len() {
        out == Err::<Seq<Option<i64>>, Failure>(
            Failure { reason: Reason::LengthMismatch, literal: Seq::empty() },
        )
    } else {
        match out {
            Ok(v) => {
                &&& v.len() == values.len()
                &&& forall|i: int|
                    0 <= i < values.len() ==> replace_row(
                        values[i],
                        row_of(policies, i),
                        tu,
                        from,
                        to,
                        target,
                    ) == Ok::<Option<int>, Failure>(lift_value(#[trigger] v[i]))
            },
            Err(f) => replace_fails(f, values, policies, tu, from, to, target),
        }
    }
}

/// Moves one row.
fn replace_one_row(
    value: Option<i64>,
    policy: &Option<String>,
    tu: TimeUnit,
    from: &Zone,
    to: &Zone,
    target: &str,
) -> (r: Result<Option<i64>, TemporalError>)
    ensures
        row_outcome(r) == replace_row(value, *policy, tu, from@, to@, target@),
{
    reveal(replace_row);
    match (value, policy) {
        (Some(t), Some(text)) => {
            let parsed = AmbiguousPolicy::parse(text.as_str());
            match replace_instant(t, tu, from, to, parsed) {
                Ok(v) => Ok(v),
                Err(reason) => match reason {
                    Reason::UnknownAmbiguousPolicy => Err(
                        TemporalError::with_literal(reason, text.as_str()),
                    ),
                    _ => Err(TemporalError::with_literal(reason, target)),
                },
            }
        },
        _ => Ok(None),
    }
}

/// Moves every instant of a column from the clock of `from` to the clock
/// of `to`.
pub fn replace_column(
    values: &Vec<Option<i64>>,
    policies: &Vec<Option<String>>,
    tu: TimeUnit,
    from: &Zone,
    to: &Zone,
    target: &str,
) -> (r: Result<Vec<Option<i64>>, TemporalError>)
    ensures
        is_replaced(outcome(r), values@, policies@, tu, from@, to@, target@),
{
    if policies.len() != 1 && policies.len() != values.len() {
        return Err(TemporalError::new(Reason::LengthMismatch));
    }
    let single: bool = policies.len() == 1;
    let mut out: Vec<Option<i64>> = Vec::new();
    let mut i: usize = 0;
    while i < values.len()
        invariant
            i <= values.len(),
            single == (policies@.len() == 1),
            policies@.len() == 1 || policies@.len() == values@.len(),
            out@.len() == i,
            forall|j: int|
                #![trigger out@[j]]
                #![trigger row_of(policies@, j)]
                0 <= j < i ==> replace_row(
                    values@[j],
                    row_of(policies@, j),
                    tu,
                    from@,
                    to@,
                    target@,
                ) == Ok::<Option<int>, Failure>(lift_value(out@[j])),
        decreases values.len() - i,
    {
        let policy: &Option<String> = if single {
            &policies[0]
        } else {
            &policies[i]
        };
        assert(*policy == row_of(policies@, i as int));
        match replace_one_row(values[i], policy, tu, from, to, target) {
            Ok(v) => {
                out.push(v);
            },
            Err(e) => {
                assert(replace_fails_first_at(
                    i as int,
                    e@,
                    values@,
                    policies@,
                    tu,
                    from@,
                    to@,
                    target@,
                ));
                return Err(e);
            },
        }
        i = i + 1;
    }
    Ok(out)
}

impl Zone {
    /// Whether the zone can be asked for its offsets.
    pub fn is_usable(&self) -> (r: bool)
        ensures
            r == self@.is_usable(),
    {
        match self {
            Zone::Fixed(_) => true,
            Zone::Named(name) => self.is_utc() || crate::timezone::named_zone_exists(
                name.as_str(),
            ),
        }
    }
}

/// The zone whose clock a column without a zone shows: UTC.
pub open spec fn model_or_utc(zone: Option<ZoneModel>) -> ZoneModel {
    match zone {
        Some(z) => z,
        None => ZoneModel::Fixed(0),
    }
}

/// Reads the name of a zone of the database.
pub fn parse_time_zone(s: &str) -> (r: Result<Zone, TemporalError>)
    ensures
        match r {
            Ok(Zone::Named(name)) => zone_known(s@) && name@ == s@,
            Ok(Zone::Fixed(_)) => false,
            Err(e) => !zone_known(s@) && e@ == (Failure {
                reason: Reason::UnknownTimeZone,
                literal: s@,
            }),
        },
{
    Zone::parse_named(s)
}

/// What `replace_time_zone` returns once both zones are known to be
/// usable: the column moved from the clock of `from` to the clock of `to`.
pub open spec fn is_zone_replaced(
    r: Result<DatetimeColumn, TemporalError>,
    datetime: &DatetimeColumn,
    target: Option<ZoneModel>,
    target_text: Seq<char>,
    ambiguous: &StringColumn,
) -> bool {
    let from = model_or_utc(model_of(datetime.time_zone));
    let to = model_or_utc(target);
    match r {
        Ok(out) => {
            &&& is_replaced(
                Ok(out.values@),
                datetime.values@,
                ambiguous.values@,
                datetime.time_unit,
                from,
                to,
                target_text,
            )
            &&& out.name == datetime.name
            &&& out.time_unit == datetime.time_unit
            &&& model_of(out.time_zone) == target
            &&& out.sorted == if ambiguous.values@.len() == 1 {
                datetime.sorted
            } else {
                IsSorted::Not
            }
        },
        Err(e) => is_replaced(
            Err(e@),
            datetime.values@,
            ambiguous.values@,
            datetime.time_unit,
            from,
            to,
            target_text,
        ),
    }
}

/// Reinterprets the clock reading of each instant of `datetime`, taken in
/// the column's zone, as a clock reading in `time_zone`; without a zone on
/// either side, UTC. `ambiguous` gives, for the whole column or row by row,
/// one of `earliest`, `latest`, `raise`, `null` for readings that the target
/// zone shows twice or never.
///
/// A zone that is not known fails the call before any row is read: first
/// the column's, then the target.
pub fn replace_time_zone(
    datetime: &DatetimeColumn,
    time_zone: Option<&str>,
    ambiguous: &StringColumn,
) -> (r: Result<DatetimeColumn, TemporalError>)
    ensures
        match datetime.time_zone {
            Some(zone) if !zone@.is_usable() => r matches Err(e) && e@ == (Failure {
                reason: Reason::UnknownTimeZone,
                literal: zone@.name(),
            }),
            _ => match time_zone {
                Some(text) => if zone_known(text@) {
                    is_zone_replaced(
                        r,
                        datetime,
                        Some(ZoneModel::Named(text@)),
                        text@,
                        ambiguous,
                    )
                } else {
                    r matches Err(e) && e@ == (Failure {
                        reason: Reason::UnknownTimeZone,
                        literal: text@,
                    })
                },
                None => is_zone_replaced(r, datetime, None, "UTC"@, ambiguous),
            },
        },
{
    let utc = Zone::Fixed(0);
    let from: &Zone = match &datetime.time_zone {
        Some(zone) => {
            if !zone.is_usable() {
                return Err(
                    match zone {
                        Zone::Named(name) => TemporalError::with_literal(
                            Reason::UnknownTimeZone,
                            name.as_str(),
                        ),
                        Zone::Fixed(_) => TemporalError::new(Reason::UnknownTimeZone),
                    },
                );
            }
            zone
        },
        None => &utc,
    };
    match time_zone {
        Some(text) => {
            let to: Zone = match parse_time_zone(text) {
                Ok(to) => to,
                Err(e) => {
                    return Err(e);
                },
            };
            let replaced = replace_column(
                &datetime.values,
                &ambiguous.values,
                datetime.time_unit,
                from,
                &to,
                text,
            );
            finish_replaced(replaced, datetime, Some(to), ambiguous)
        },
        None => {
            let replaced = replace_column(
                &datetime.values,
                &ambiguous.values,
                datetime.time_unit,
                from,
                &utc,
                "UTC",
            );
            finish_replaced(replaced, datetime, None, ambiguous)
        },
    }
}

/// Puts the moved values in a column with the metadata of the input and
/// the target zone.
fn finish_replaced(
    replaced: Result<Vec<Option<i64>>, TemporalError>,
    datetime: &DatetimeColumn,
    target: Option<Zone>,
    ambiguous: &StringColumn,
) -> (r: Result<DatetimeColumn, TemporalError>)
    ensures
        match (replaced, r) {
            (Ok(values), Ok(out)) => {
                &&& out.values@ == values@
                &&& out.name == datetime.name
                &&& out.time_unit == datetime.time_unit
                &&& out.time_zone == target
                &&& out.sorted == if ambiguous.values@.len() == 1 {
                    datetime.sorted
                } else {
                    IsSorted::Not
                }
            },
            (Err(e), Err(f)) => e == f,
            _ => false,
        },
{
    match replaced {
        Err(e) => Err(e),
        Ok(values) => Ok(
            DatetimeColumn {
                name: datetime.name.clone(),
                values,
                time_unit: datetime.time_unit,
                time_zone: target,
                sorted: if ambiguous.values.len() == 1 {
                    datetime.sorted
                } else {
                    IsSorted::Not
                },
            },
        ),
    }
}

/// Replacing a zone by UTC and UTC by the zone again recovers an instant
/// that is unambiguous in the zone: one whose clock reading the zone shows
/// once, under the offset in force at the instant. Any policy will do.
pub proof fn lemma_replace_round_trip(
    zone: ZoneModel,
    utc: ZoneModel,
    t: i64,
    tu: TimeUnit,
    policy: Option<AmbiguousPolicy>,
)
    requires
        utc.is_utc() || utc == ZoneModel::Fixed(0),
        zone.to_local(t as int, tu) is Ok,
        ({
            let local = zone.to_local(t as int, tu).unwrap();
            &&& zone.offsets_at_local(local / tu.ticks_per_second()) matches Ok(
                LocalOffsets::Single(o),
            )
            &&& zone.offset_at_utc(t as int / tu.ticks_per_second()) == Ok::<int, Reason>(
                o as int,
            )
        }),
    ensures
        ({
            let local = zone.to_local(t as int, tu).unwrap();
            &&& replaced_instant(t as int, tu, zone, utc, policy) == Ok::<Option<int>, Reason>(
                Some(local),
            )
            &&& replaced_instant(local, tu, utc, zone, policy) == Ok::<Option<int>, Reason>(
                Some(t as int),
            )
        }),
{
    let local = zone.to_local(t as int, tu).unwrap();
    assert(utc.offsets_at_local(local / tu.ticks_per_second()) == Ok::<LocalOffsets, Reason>(
        LocalOffsets::Single(0),
    ));
    assert(utc.offset_at_utc(local / tu.ticks_per_second()) == Ok::<int, Reason>(0));
    assert(0 * tu.ticks_per_second() == 0);
}

/// A row whose instant or whose policy is null gives a null, never an
/// error.
pub proof fn lemma_replace_null_row(
    value: Option<i64>,
    policy: Option<String>,
    tu: TimeUnit,
    from: ZoneModel,
    to: ZoneModel,
    target: Seq<char>,
)
    requires
        value is None || policy is None,
    ensures
        replace_row(value, policy, tu, from, to, target) == Ok::<Option<int>, Failure>(None),
{
    reveal(replace_row);
}

/// Row `i` fails, and its instant and its policy are both present.
pub open spec fn present_replace_fails(
    i: int,
    f: Failure,
    values: Seq<Option<i64>>,
    policies: Seq<Option<String>>,
    tu: TimeUnit,
    from: ZoneModel,
    to: ZoneModel,
    target: Seq<char>,
) -> bool {
    &&& replace_fails_first_at(i, f, values, policies, tu, from, to, target)
    &&& values[i] is Some
    &&& row_of(policies, i) is Some
}

/// The clock reading that `from` shows at the instant `t` is one that `to`
/// shows exactly once.
pub open spec fn shown_once(t: int, tu: TimeUnit, from: ZoneModel, to: ZoneModel) -> bool {
    from.to_local(t, tu) matches Ok(local) && to.offsets_at_local(local / tu.ticks_per_second())
        matches Ok(LocalOffsets::Single(_))
}

/// Nulls in a column whose zone is replaced. Where the call returns a
/// column, a row with a null instant or a null policy is null, and a row
/// with both, whose clock reading the target zone shows once, is not. Where
/// the call fails, the row that fails has both its instant and its policy:
/// a null never fails the call. And the call returns a column wherever no
/// row fails.
pub proof fn lemma_replace_nulls_in_column(
    out: Result<Seq<Option<i64>>, Failure>,
    values: Seq<Option<i64>>,
    policies: Seq<Option<String>>,
    tu: TimeUnit,
    from: ZoneModel,
    to: ZoneModel,
    target: Seq<char>,
)
    requires
        policies.len() == 1 || policies.len() == values.len(),
        is_replaced(out, values, policies, tu, from, to, target),
    ensures
        out matches Ok(v) ==> v.len() == values.len() && forall|i: int|
            0 <= i < values.len() ==> {
                &&& (values[i] is None || row_of(policies, i) is None) ==> (#[trigger] v[i]) is None
                &&& (values[i] matches Some(t) && row_of(policies, i) is Some && shown_once(
                    t as int,
                    tu,
                    from,
                    to,
                )) ==> v[i] is Some
            },
        out matches Err(f) ==> exists|i: int| #[trigger]
            present_replace_fails(i, f, values, policies, tu, from, to, target),
        (forall|i: int|
            0 <= i < values.len() ==> (#[trigger] replace_row(
                values[i],
                row_of(policies, i),
                tu,
                from,
                to,
                target,
            )) is Ok) ==> out is Ok,
{
    reveal(replace_row);
    match out {
        Ok(v) => {
            assert forall|i: int| 0 <= i < values.len() implies {
                &&& (values[i] is None || row_of(policies, i) is None) ==> (#[trigger] v[i]) is None
                &&& (values[i] matches Some(t) && row_of(policies, i) is Some && shown_once(
                    t as int,
                    tu,
                    from,
                    to,
                )) ==> v[i] is Some
            } by {
                assert(replace_row(values[i], row_of(policies, i), tu, from, to, target) == Ok::<
                    Option<int>,
                    Failure,
                >(lift_value(v[i])));
            }
        },
        Err(f) => {
            let i = choose|i: int| #[trigger]
                replace_fails_first_at(i, f, values, policies, tu, from, to, target);
            assert(present_replace_fails(i, f, values, policies, tu, from, to, target));
        },
    }
}

/// An instant is unambiguous in a zone: the zone shows the clock reading of
/// the instant once, under the offset in force at the instant.
pub open spec fn is_unambiguous(zone: ZoneModel, t: int, tu: TimeUnit) -> bool {
    &&& zone.to_local(t, tu) matches Ok(local)
    &&& zone.offsets_at_local(local / tu.ticks_per_second()) matches Ok(LocalOffsets::Single(o))
    &&& zone.offset_at_utc(t / tu.ticks_per_second()) == Ok::<int, Reason>(o as int)
}

/// Replacing the zone of a column by UTC, and UTC by the zone again,
/// recovers the column where its instants are unambiguous in the zone:
/// the first call returns a column, and what the second call returns on it
/// is the column that the first was given, nulls included. Each call has
/// one policy for the whole column, and that policy is not null.
pub proof fn lemma_replace_column_round_trip(
    column: Seq<Option<i64>>,
    there: Result<Seq<Option<i64>>, Failure>,
    back: Result<Seq<Option<i64>>, Failure>,
    policy_there: Option<String>,
    policy_back: Option<String>,
    tu: TimeUnit,
    zone: ZoneModel,
    utc: ZoneModel,
    target_there: Seq<char>,
    target_back: Seq<char>,
)
    requires
        utc.is_utc() || utc == ZoneModel::Fixed(0),
        policy_there is Some,
        policy_back is Some,
        forall|i: int|
            0 <= i < column.len() ==> ((#[trigger] column[i]) matches Some(t) ==> is_unambiguous(
                zone,
                t as int,
                tu,
            )),
        is_replaced(there, column, seq![policy_there], tu, zone, utc, target_there),
        there matches Ok(moved) ==> is_replaced(
            back,
            moved,
            seq![policy_back],
            tu,
            utc,
            zone,
            target_back,
        ),
    ensures
        there is Ok,
        back == Ok::<Seq<Option<i64>>, Failure>(column),
{
    reveal(replace_row);
    let p1 = seq![policy_there];
    let p2 = seq![policy_back];
    assert forall|i: int| 0 <= i < column.len() implies (#[trigger] replace_row(
        column[i],
        row_of(p1, i),
        tu,
        zone,
        utc,
        target_there,
    )) is Ok by {
        match column[i] {
            Some(t) => {
                lemma_replace_round_trip(
                    zone,
                    utc,
                    t,
                    tu,
                    AmbiguousPolicy::spec_parse(policy_there.unwrap()@),
                );
            },
            None => {},
        }
    }
    lemma_replace_nulls_in_column(there, column, p1, tu, zone, utc, target_there);
    let moved = there->Ok_0;
    assert forall|i: int| 0 <= i < column.len() implies (#[trigger] replace_row(
        moved[i],
        row_of(p2, i),
        tu,
        utc,
        zone,
        target_back,
    )) == Ok::<Option<int>, Failure>(lift_value(column[i])) by {
        assert(replace_row(column[i], row_of(p1, i), tu, zone, utc, target_there) == Ok::<
            Option<int>,
            Failure,
        >(lift_value(moved[i])));
        match column[i] {
            Some(t) => {
                lemma_replace_round_trip(
                    zone,
                    utc,
                    t,
                    tu,
                    AmbiguousPolicy::spec_parse(policy_there.unwrap()@),
                );
                lemma_replace_round_trip(
                    zone,
                    utc,
                    t,
                    tu,
                    AmbiguousPolicy::spec_parse(policy_back.unwrap()@),
                );
            },
            None => {},
        }
    }
    lemma_replace_nulls_in_column(back, moved, p2, tu, utc, zone, target_back);
    let returned = back->Ok_0;
    assert forall|i: int| 0 <= i < column.len() implies returned[i] == column[i] by {
        assert(replace_row(moved[i], row_of(p2, i), tu, utc, zone, target_back) == Ok::<
            Option<int>,
            Failure,
        >(lift_value(returned[i])));
    }
    assert(returned =~= column);
}

} // verus!
