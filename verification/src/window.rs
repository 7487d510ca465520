//! Windows: the repeating buckets that truncation and rounding snap to.

use vstd::prelude::*;
use crate::arith::{checked, floor_div, floor_mod_wide, lift, narrow};
use crate::duration::Duration;
use crate::error::Reason;
use crate::timezone::Zone;
use crate::units::TimeUnit;

verus! {

/// Buckets of length `period`, one every `every`, shifted by `offset`.
#[derive(Clone, Copy, Debug, PartialEq, Eq, Structural)]
pub struct Window {
    pub every: Duration,
    pub period: Duration,
    pub offset: Duration,
}

/// The start of the bucket of length `step`, anchored at `anchor`, that
/// holds `t`.
pub open spec fn bucket_start(t: int, step: int, anchor: int) -> int {
    anchor + ((t - anchor) / step) * step
}

/// The bucket boundary nearest to `t`; halfway between two boundaries, the
/// one farther from zero.
pub open spec fn nearest_boundary(t: int, lower: int, upper: int) -> int {
    if t - lower < upper - t {
        lower
    } else if t - lower > upper - t {
        upper
    } else if t >= 0 {
        upper
    } else {
        lower
    }
}

impl Window {
    pub open spec fn wf(&self) -> bool {
        self.every.wf() && self.period.wf() && self.offset.wf()
    }

    /// Whether boundaries are found by integer arithmetic on the count
    /// alone: neither the step nor the offset has a calendar part.
    pub open spec fn spec_is_raw(&self) -> bool {
        !self.every.spec_has_calendar_part() && !self.offset.spec_has_calendar_part()
    }

    /// The start of the bucket that holds the instant `t`. A step that is
    /// negative fails, and so does one of no length, a fixed step below one
    /// tick among them.
    pub open spec fn spec_truncate(&self, t: int, tu: TimeUnit, zone: Option<&Zone>) -> Result<
        int,
        Reason,
    > {
        if self.every.negative {
            Err(Reason::NegativeDuration)
        } else if self.every.spec_is_zero() {
            Err(Reason::ZeroDuration)
        } else if self.spec_is_raw() {
            let step = self.every.nsecs as int / tu.ns_per_tick();
            if step == 0 {
                Err(Reason::ZeroDuration)
            } else {
                checked(bucket_start(t, step, self.offset.spec_signed_ticks(tu)))
            }
        } else {
            match self.offset.negated().spec_add(t, tu, zone) {
                Err(e) => Err(e),
                Ok(moved) => match self.every.spec_truncate(moved, tu, zone) {
                    Err(e) => Err(e),
                    Ok(start) => self.offset.spec_add(start, tu, zone),
                },
            }
        }
    }

    /// The bucket boundary nearest to the instant `t`, ties going away from
    /// zero.
    pub open spec fn spec_round(&self, t: int, tu: TimeUnit, zone: Option<&Zone>) -> Result<
        int,
        Reason,
    > {
        if self.every.negative {
            Err(Reason::NegativeDuration)
        } else if self.every.spec_is_zero() {
            Err(Reason::ZeroDuration)
        } else if self.spec_is_raw() {
            let step = self.every.nsecs as int / tu.ns_per_tick();
            if step == 0 {
                Err(Reason::ZeroDuration)
            } else {
                let lower = bucket_start(t, step, self.offset.spec_signed_ticks(tu));
                checked(nearest_boundary(t, lower, lower + step))
            }
        } else {
            match self.spec_truncate(t, tu, zone) {
                Err(e) => Err(e),
                Ok(lower) => match self.every.spec_add(lower, tu, zone) {
                    Err(e) => Err(e),
                    Ok(upper) => Ok(nearest_boundary(t, lower, upper)),
                },
            }
        }
    }

    pub fn new(every: Duration, period: Duration, offset: Duration) -> (w: Window)
        ensures
            w == (Window { every, period, offset }),
    {
        Window { every, period, offset }
    }

    #[verifier::when_used_as_spec(spec_is_raw)]
    pub fn is_raw(&self) -> (r: bool)
        ensures
            r == self.spec_is_raw(),
    {
        !self.every.has_calendar_part() && !self.offset.has_calendar_part()
    }

    /// The start of the raw bucket that holds `t`, on 128 bits.
    fn raw_lower(&self, t: i64, step: i64, tu: TimeUnit) -> (r: i128)
        requires
            step > 0,
            step == self.every.nsecs as int / tu.ns_per_tick(),
        ensures
            r == bucket_start(t as int, step as int, self.offset.spec_signed_ticks(tu)),
            r <= t < r + step,
    {
        let anchor: i128 = self.offset.signed_ticks(tu);
        let rest: i128 = floor_mod_wide(t as i128 - anchor, step as i128);
        proof {
            let x = t as int - anchor as int;
            vstd::arithmetic::div_mod::lemma_fundamental_div_mod(x, step as int);
            assert((x / step as int) * step as int == step as int * (x / step as int))
                by (nonlinear_arith);
        }
        t as i128 - rest
    }

    /// Cuts the instant `t` down to the start of its bucket.
    pub fn truncate(&self, t: i64, tu: TimeUnit, zone: Option<&Zone>) -> (r: Result<i64, Reason>)
        requires
            self.wf(),
        ensures
            lift(r) == self.spec_truncate(t as int, tu, zone),
            self.every.negative ==> r == Err::<i64, Reason>(Reason::NegativeDuration),
            !self.every.negative && self.every.spec_is_zero() ==> r == Err::<i64, Reason>(
                Reason::ZeroDuration,
            ),
    {
        if self.every.negative {
            Err(Reason::NegativeDuration)
        } else if self.every.is_zero() {
            Err(Reason::ZeroDuration)
        } else if self.is_raw() {
            let step: i64 = floor_div(self.every.nsecs, tu.nanos_per_tick());
            if step == 0 {
                Err(Reason::ZeroDuration)
            } else {
                narrow(self.raw_lower(t, step, tu))
            }
        } else {
            let moved: i64 = match self.offset.negated().add(t, tu, zone) {
                Ok(moved) => moved,
                Err(e) => {
                    return Err(e);
                },
            };
            match self.every.truncate(moved, tu, zone) {
                Ok(start) => self.offset.add(start, tu, zone),
                Err(e) => Err(e),
            }
        }
    }

    /// Moves the instant `t` to the nearest bucket boundary.
    pub fn round(&self, t: i64, tu: TimeUnit, zone: Option<&Zone>) -> (r: Result<i64, Reason>)
        requires
            self.wf(),
        ensures
            lift(r) == self.spec_round(t as int, tu, zone),
            self.every.negative ==> r == Err::<i64, Reason>(Reason::NegativeDuration),
            !self.every.negative && self.every.spec_is_zero() ==> r == Err::<i64, Reason>(
                Reason::ZeroDuration,
            ),
    {
        if self.every.negative {
            Err(Reason::NegativeDuration)
        } else if self.every.is_zero() {
            Err(Reason::ZeroDuration)
        } else if self.is_raw() {
            let step: i64 = floor_div(self.every.nsecs, tu.nanos_per_tick());
            if step == 0 {
                Err(Reason::ZeroDuration)
            } else {
                let lower: i128 = self.raw_lower(t, step, tu);
                let upper: i128 = lower + step as i128;
                let below: i128 = t as i128 - lower;
                let above: i128 = upper - t as i128;
                if below < above || (below == above && t < 0) {
                    narrow(lower)
                } else {
                    narrow(upper)
                }
            }
        } else {
            let lower: i64 = match self.truncate(t, tu, zone) {
                Ok(lower) => lower,
                Err(e) => {
                    return Err(e);
                },
            };
            let upper: i64 = match self.every.add(lower, tu, zone) {
                Ok(upper) => upper,
                Err(e) => {
                    return Err(e);
                },
            };
            let below: i128 = t as i128 - lower as i128;
            let above: i128 = upper as i128 - t as i128;
            if below < above || (below == above && t < 0) {
                Ok(lower)
            } else {
                Ok(upper)
            }
        }
    }
}

impl Window {
    /// Cuts an instant in nanoseconds down to the start of its bucket.
    pub fn truncate_ns(&self, t: i64, zone: Option<&Zone>) -> (r: Result<i64, Reason>)
        requires
            self.wf(),
        ensures
            lift(r) == self.spec_truncate(t as int, TimeUnit::Nanoseconds, zone),
    {
        self.truncate(t, TimeUnit::Nanoseconds, zone)
    }

    /// Cuts an instant in microseconds down to the start of its bucket.
    pub fn truncate_us(&self, t: i64, zone: Option<&Zone>) -> (r: Result<i64, Reason>)
        requires
            self.wf(),
        ensures
            lift(r) == self.spec_truncate(t as int, TimeUnit::Microseconds, zone),
    {
        self.truncate(t, TimeUnit::Microseconds, zone)
    }

    /// Cuts an instant in milliseconds down to the start of its bucket.
    pub fn truncate_ms(&self, t: i64, zone: Option<&Zone>) -> (r: Result<i64, Reason>)
        requires
            self.wf(),
        ensures
            lift(r) == self.spec_truncate(t as int, TimeUnit::Milliseconds, zone),
    {
        self.truncate(t, TimeUnit::Milliseconds, zone)
    }

    /// Moves an instant in nanoseconds to the nearest bucket boundary.
    pub fn round_ns(&self, t: i64, zone: Option<&Zone>) -> (r: Result<i64, Reason>)
        requires
            self.wf(),
        ensures
            lift(r) == self.spec_round(t as int, TimeUnit::Nanoseconds, zone),
    {
        self.round(t, TimeUnit::Nanoseconds, zone)
    }

    /// Moves an instant in microseconds to the nearest bucket boundary.
    pub fn round_us(&self, t: i64, zone: Option<&Zone>) -> (r: Result<i64, Reason>)
        requires
            self.wf(),
        ensures
            lift(r) == self.spec_round(t as int, TimeUnit::Microseconds, zone),
    {
        self.round(t, TimeUnit::Microseconds, zone)
    }

    /// Moves an instant in milliseconds to the nearest bucket boundary.
    pub fn round_ms(&self, t: i64, zone: Option<&Zone>) -> (r: Result<i64, Reason>)
        requires
            self.wf(),
        ensures
            lift(r) == self.spec_round(t as int, TimeUnit::Milliseconds, zone),
    {
        self.round(t, TimeUnit::Milliseconds, zone)
    }
}

/// Truncation by a positive fixed step brackets the instant: the bucket
/// start is at or before `t`, the next boundary is after `t`, and the start
/// lies a whole number of steps from the offset. The step is at least one
/// tick and the offset has no calendar part; no zone is involved.
pub proof fn lemma_truncate_brackets(w: Window, t: i64, tu: TimeUnit)
    requires
        w.wf(),
        !w.every.negative,
        w.spec_is_raw(),
        w.every.nsecs as int / tu.ns_per_tick() > 0,
    ensures
        ({
            let step = w.every.nsecs as int / tu.ns_per_tick();
            let anchor = w.offset.spec_signed_ticks(tu);
            match w.spec_truncate(t as int, tu, None) {
                Ok(start) => start <= t < start + step && (start - anchor) % step == 0,
                Err(e) => e == Reason::OutOfRange && bucket_start(t as int, step, anchor)
                    < i64::MIN,
            }
        }),
{
    let step = w.every.nsecs as int / tu.ns_per_tick();
    let anchor = w.offset.spec_signed_ticks(tu);
    let x = t as int - anchor;
    vstd::arithmetic::div_mod::lemma_fundamental_div_mod(x, step);
    assert(0 <= x % step < step) by (nonlinear_arith)
        requires
            step > 0,
    ;
    assert((x / step) * step == step * (x / step)) by (nonlinear_arith);
    vstd::arithmetic::div_mod::lemma_mod_multiples_basic(x / step, step);
}

/// The remainder of a division that rounds its quotient toward zero, by a
/// positive divisor: it has the sign of the dividend.
pub open spec fn truncated_rem(x: int, d: int) -> int {
    if x >= 0 {
        x % d
    } else {
        -((-x) % d)
    }
}

/// Half of `every`, rounded down, with the sign of `t`.
pub open spec fn half_away(t: int, every: int) -> int {
    if t > 0 {
        every / 2
    } else if t < 0 {
        -(every / 2)
    } else {
        0
    }
}

/// Rounding in closed form: push `t` half a step away from zero, then drop
/// the truncated remainder.
pub open spec fn round_half_away_spec(t: int, every: int) -> int {
    t + half_away(t, every) - truncated_rem(t + half_away(t, every), every)
}

/// The closed form gives the boundary nearest to `t` among the multiples of
/// `every`, ties going away from zero.
pub proof fn lemma_round_half_away_is_nearest(t: int, every: int)
    requires
        every > 0,
    ensures
        round_half_away_spec(t, every) == nearest_boundary(
            t,
            bucket_start(t, every, 0),
            bucket_start(t, every, 0) + every,
        ),
{
    let e = every;
    let q = t / e;
    let r = t % e;
    let h = e / 2;
    vstd::arithmetic::div_mod::lemma_fundamental_div_mod(t, e);
    assert(0 <= r < e) by (nonlinear_arith)
        requires
            e > 0,
            r == t % e,
    ;
    assert(q * e == e * q) by (nonlinear_arith);
    assert((q + 1) * e == q * e + e) by (nonlinear_arith);
    assert((-q) * e == -(q * e)) by (nonlinear_arith);
    assert((-q - 1) * e == -(q * e) - e) by (nonlinear_arith);
    assert(bucket_start(t, e, 0) == q * e);
    if t > 0 {
        let x = t + h;
        if r + h < e {
            vstd::arithmetic::div_mod::lemma_fundamental_div_mod_converse(x, e, q, r + h);
        } else {
            vstd::arithmetic::div_mod::lemma_fundamental_div_mod_converse(x, e, q + 1, r + h - e);
        }
    } else if t < 0 {
        let x = t - h;
        if r <= h {
            vstd::arithmetic::div_mod::lemma_fundamental_div_mod_converse(-x, e, -q, h - r);
        } else {
            vstd::arithmetic::div_mod::lemma_fundamental_div_mod_converse(
                -x,
                e,
                -q - 1,
                e + h - r,
            );
        }
    } else {
        vstd::arithmetic::div_mod::lemma_fundamental_div_mod_converse(0, e, 0, 0);
    }
}

/// Rounds `t` to the nearest multiple of `every` by the closed form.
pub fn round_half_away(t: i64, every: i64) -> (r: Result<i64, Reason>)
    requires
        every > 0,
    ensures
        lift(r) == checked(round_half_away_spec(t as int, every as int)),
{
    let half: i128 = (every / 2) as i128;
    let pushed: i128 = if t > 0 {
        t as i128 + half
    } else if t < 0 {
        t as i128 - half
    } else {
        0
    };
    let rem: i128 = if pushed >= 0 {
        floor_mod_wide(pushed, every as i128)
    } else {
        -floor_mod_wide(-pushed, every as i128)
    };
    narrow(pushed - rem)
}

/// Cuts `t` down to a multiple of `every` by the closed form `t - t mod
/// every`.
pub fn floor_to_multiple(t: i64, every: i64) -> (r: Result<i64, Reason>)
    requires
        every > 0,
    ensures
        lift(r) == checked(t - (t as int) % (every as int)),
{
    narrow(t as i128 - crate::arith::floor_mod(t, every) as i128)
}

/// Where the step is fixed and the offset zero, the closed forms agree with
/// the window: `t - t mod every` is the window's truncation and the
/// half-away form is its rounding, for every zone.
pub proof fn lemma_closed_forms_agree(w: Window, t: i64, tu: TimeUnit, zone: Option<&Zone>)
    requires
        w.wf(),
        !w.every.negative,
        w.spec_is_raw(),
        w.offset.spec_is_zero(),
        w.every.nsecs as int / tu.ns_per_tick() > 0,
    ensures
        ({
            let step = w.every.nsecs as int / tu.ns_per_tick();
            &&& w.spec_truncate(t as int, tu, zone) == checked(t - (t as int) % step)
            &&& w.spec_round(t as int, tu, zone) == checked(round_half_away_spec(t as int, step))
        }),
{
    let step = w.every.nsecs as int / tu.ns_per_tick();
    lemma_round_half_away_is_nearest(t as int, step);
    vstd::arithmetic::div_mod::lemma_fundamental_div_mod(t as int, step);
    assert((t as int / step) * step == step * (t as int / step)) by (nonlinear_arith);
    assert(w.offset.spec_signed_ticks(tu) == 0);
}

/// Truncation and rounding by a fixed step keep the order of instants:
/// of two instants, the later is never moved before the earlier.
pub proof fn lemma_fixed_step_keeps_order(
    w: Window,
    earlier: i64,
    later: i64,
    tu: TimeUnit,
    zone: Option<&Zone>,
)
    requires
        w.wf(),
        w.spec_is_raw(),
        earlier <= later,
    ensures
        match (w.spec_truncate(earlier as int, tu, zone), w.spec_truncate(later as int, tu, zone)) {
            (Ok(a), Ok(b)) => a <= b,
            _ => true,
        },
        match (w.spec_round(earlier as int, tu, zone), w.spec_round(later as int, tu, zone)) {
            (Ok(a), Ok(b)) => a <= b,
            _ => true,
        },
{
    let step = w.every.nsecs as int / tu.ns_per_tick();
    if !w.every.negative && !w.every.spec_is_zero() && step != 0 {
        let anchor = w.offset.spec_signed_ticks(tu);
        let x1 = earlier as int - anchor;
        let x2 = later as int - anchor;
        let q1 = x1 / step;
        let q2 = x2 / step;
        assert(step > 0) by (nonlinear_arith)
            requires
                step == w.every.nsecs as int / tu.ns_per_tick(),
                step != 0,
                w.every.nsecs >= 0,
                tu.ns_per_tick() > 0,
        ;
        vstd::arithmetic::div_mod::lemma_div_is_ordered(x1, x2, step);
        vstd::arithmetic::div_mod::lemma_fundamental_div_mod(x1, step);
        vstd::arithmetic::div_mod::lemma_fundamental_div_mod(x2, step);
        assert(0 <= x1 % step < step && 0 <= x2 % step < step) by (nonlinear_arith)
            requires
                step > 0,
        ;
        assert(q1 * step == step * q1 && q2 * step == step * q2) by (nonlinear_arith);
        assert(q1 * step <= q2 * step) by (nonlinear_arith)
            requires
                q1 <= q2,
                step > 0,
        ;
        if q1 < q2 {
            assert(q1 * step + step <= q2 * step) by (nonlinear_arith)
                requires
                    q1 + 1 <= q2,
                    step > 0,
            ;
        }
    }
}

} // verus!
