//! Arithmetic on nanosecond times: elapsed time and rounding to a coarser
//! unit.

use vstd::prelude::*;

verus! {

/// Nanoseconds in one millisecond.
pub const NANOS_PER_MILLI: u64 = 1_000_000;

/// The time from `earlier` to `now`, zero where `now` lies before `earlier`.
pub open spec fn spec_elapsed(now: nat, earlier: nat) -> nat {
    if now >= earlier {
        (now - earlier) as nat
    } else {
        0
    }
}

/// The time from `earlier` to `now`, zero where `now` lies before `earlier`.
pub fn elapsed(now: u64, earlier: u64) -> (r: u64)
    ensures
        r == spec_elapsed(now as nat, earlier as nat),
{
    if now >= earlier {
        now - earlier
    } else {
        0
    }
}

/// `value` in units of `unit`, rounded to the nearest; a half rounds to the
/// even neighbour.
pub open spec fn spec_round_half_even(value: nat, unit: nat) -> nat
    recommends
        unit > 0,
{
    let whole = value / unit;
    let rest = value % unit;
    if 2 * rest < unit {
        whole
    } else if 2 * rest > unit {
        whole + 1
    } else if whole % 2 == 0 {
        whole
    } else {
        whole + 1
    }
}

/// `value` in units of `unit`, rounded to the nearest; a half rounds up.
pub open spec fn spec_round_half_up(value: nat, unit: nat) -> nat
    recommends
        unit > 0,
{
    let whole = value / unit;
    let rest = value % unit;
    if 2 * rest < unit {
        whole
    } else {
        whole + 1
    }
}

/// `value` in units of `unit`, rounded to the nearest; a half rounds to the
/// even neighbour.
pub fn round_half_even(value: u64, unit: u64) -> (r: u64)
    requires
        unit > 0,
    ensures
        r == spec_round_half_even(value as nat, unit as nat),
{
    let whole: u64 = value / unit;
    let rest: u64 = value % unit;
    let gap: u64 = unit - rest;
    proof {
        lemma_rounding_room(value as nat, unit as nat);
    }
    if rest < gap {
        whole
    } else if rest > gap {
        whole + 1
    } else if whole % 2 == 0 {
        whole
    } else {
        whole + 1
    }
}

/// `value` in units of `unit`, rounded to the nearest; a half rounds up.
pub fn round_half_up(value: u64, unit: u64) -> (r: u64)
    requires
        unit > 0,
    ensures
        r == spec_round_half_up(value as nat, unit as nat),
{
    let whole: u64 = value / unit;
    let rest: u64 = value % unit;
    let gap: u64 = unit - rest;
    proof {
        lemma_rounding_room(value as nat, unit as nat);
    }
    if rest < gap {
        whole
    } else {
        whole + 1
    }
}

/// Where the remainder reaches half the unit, the quotient lies below the
/// value, so the next number above the quotient is no larger than the value.
proof fn lemma_rounding_room(value: nat, unit: nat)
    requires
        unit > 0,
    ensures
        value == unit * (value / unit) + value % unit,
        value % unit < unit,
        2 * (value % unit) >= unit ==> value / unit + 1 <= value,
{
    let whole = value / unit;
    let rest = value % unit;
    assert(value == unit * whole + rest && rest < unit) by (nonlinear_arith)
        requires
            unit > 0,
            whole == value / unit,
            rest == value % unit,
    ;
    if 2 * rest >= unit {
        assert(unit * whole >= whole) by (nonlinear_arith)
            requires
                unit >= 1,
        ;
    }
}

/// `nanos` in milliseconds, rounded to the nearest; a half rounds to the even
/// neighbour.
pub open spec fn spec_millis_half_even(nanos: nat) -> nat {
    spec_round_half_even(nanos, NANOS_PER_MILLI as nat)
}

/// `nanos` in milliseconds, rounded to the nearest; a half rounds up.
pub open spec fn spec_millis_half_up(nanos: nat) -> nat {
    spec_round_half_up(nanos, NANOS_PER_MILLI as nat)
}

/// `nanos` in milliseconds, rounded to the nearest; a half rounds to the even
/// neighbour.
pub fn millis_half_even(nanos: u64) -> (r: u64)
    ensures
        r == spec_millis_half_even(nanos as nat),
{
    round_half_even(nanos, NANOS_PER_MILLI)
}

/// `nanos` in milliseconds, rounded to the nearest; a half rounds up.
pub fn millis_half_up(nanos: u64) -> (r: u64)
    ensures
        r == spec_millis_half_up(nanos as nat),
{
    round_half_up(nanos, NANOS_PER_MILLI)
}

/// Both roundings stay within half a unit of the exact value, and differ only
/// on an exact half.
pub proof fn lemma_rounding_is_nearest(value: nat, unit: nat)
    requires
        unit > 0,
    ensures
        2 * spec_round_half_even(value, unit) * unit <= 2 * value + unit,
        2 * value <= 2 * spec_round_half_even(value, unit) * unit + unit,
        2 * spec_round_half_up(value, unit) * unit <= 2 * value + unit,
        2 * value < 2 * spec_round_half_up(value, unit) * unit + unit,
        2 * (value % unit) != unit ==> spec_round_half_even(value, unit) == spec_round_half_up(
            value,
            unit,
        ),
{
    lemma_rounding_room(value, unit);
    let whole = value / unit;
    assert(2 * (whole + 1) * unit == 2 * whole * unit + 2 * unit && 2 * whole * unit == 2 * (unit
        * whole)) by (nonlinear_arith);
}

} // verus!
