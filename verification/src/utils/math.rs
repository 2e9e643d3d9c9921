//! Shaping of commanded outputs.

use vstd::prelude::*;
use crate::fixed::{clamp_spec, magnitude, quot, quot_wide, ONE, lemma_quot_bound};

verus! {

/// `target`, moved no farther from `previous` than `max_delta`; a limit of
/// zero stands for no limit.
pub open spec fn delta_clamp_spec(target: int, previous: int, max_delta: int) -> int
    recommends
        max_delta >= 0,
{
    if max_delta == 0 {
        target
    } else {
        previous + clamp_spec(target - previous, max_delta)
    }
}

/// Sum of the sizes of the two commands: the larger of the two wheel
/// velocities before scaling.
pub open spec fn arcade_demand(linear: int, angular: int) -> int {
    magnitude(linear) + magnitude(angular)
}

/// Velocity of one wheel, scaled down where the demand is above `ONE`.
pub open spec fn desaturated(wheel: int, demand: int) -> int {
    if demand > ONE {
        quot(wheel * ONE, demand)
    } else {
        wheel
    }
}

/// Velocity of the left wheel.
pub open spec fn arcade_left(linear: int, angular: int) -> int {
    desaturated(linear - angular, arcade_demand(linear, angular))
}

/// Velocity of the right wheel.
pub open spec fn arcade_right(linear: int, angular: int) -> int {
    desaturated(linear + angular, arcade_demand(linear, angular))
}

/// A wheel velocity that is no larger than the demand is within `ONE` after
/// scaling.
pub proof fn lemma_desaturated_bound(wheel: int, demand: int)
    requires
        magnitude(wheel) <= demand,
    ensures
        -ONE <= desaturated(wheel, demand) <= ONE,
{
    if demand > ONE {
        lemma_quot_bound(wheel * ONE, demand);
        let q = quot(wheel * ONE, demand);
        assert(magnitude(wheel * ONE) == magnitude(wheel) * ONE) by (nonlinear_arith)
            requires
                ONE == 1_000_000,
        ;
        assert(magnitude(q) <= ONE) by (nonlinear_arith)
            requires
                magnitude(q) * demand <= magnitude(wheel) * ONE,
                magnitude(wheel) <= demand,
                demand > 0,
                magnitude(q) >= 0,
                ONE == 1_000_000,
        ;
    }
}

/// The output after the first `n` of the raw outputs, each limited against
/// the output before it; the output before the first is `start`.
pub open spec fn slewed(raw: Seq<int>, start: int, max_delta: int, n: nat) -> int
    decreases n,
{
    if n == 0 {
        start
    } else {
        delta_clamp_spec(raw[n - 1], slewed(raw, start, max_delta, (n - 1) as nat), max_delta)
    }
}

/// Under a limit above zero no two outputs in a row are farther apart than
/// the limit, whatever the raw outputs.
pub proof fn lemma_slewed_steps_bounded(raw: Seq<int>, start: int, max_delta: int, n: nat)
    requires
        max_delta > 0,
    ensures
        magnitude(slewed(raw, start, max_delta, n + 1) - slewed(raw, start, max_delta, n))
            <= max_delta,
{
}

/// Limits how far an output moves in one tick: the result is `target` where
/// `max_delta` is zero, else the value nearest to `target` that is no farther
/// than `max_delta` from `previous`.
pub fn delta_clamp(target: i64, previous: i64, max_delta: i64) -> (r: i64)
    requires
        max_delta >= 0,
    ensures
        r == delta_clamp_spec(target as int, previous as int, max_delta as int),
        max_delta > 0 ==> magnitude(r - previous) <= max_delta,
{
    if max_delta == 0 {
        target
    } else {
        let step: i128 = target as i128 - previous as i128;
        if step > max_delta as i128 {
            previous + max_delta
        } else if step < -(max_delta as i128) {
            previous - max_delta
        } else {
            target
        }
    }
}

/// Mixes a linear and an angular command into the velocities of the left and
/// the right wheel, scaled down together where one would leave
/// `-ONE ..= ONE`.
pub fn arcade_desaturate(linear: i64, angular: i64) -> (r: (i64, i64))
    ensures
        r.0 == arcade_left(linear as int, angular as int),
        r.1 == arcade_right(linear as int, angular as int),
        -ONE <= r.0 <= ONE,
        -ONE <= r.1 <= ONE,
{
    let left: i128 = linear as i128 - angular as i128;
    let right: i128 = linear as i128 + angular as i128;
    let linear_size: i128 = if linear < 0 {
        -(linear as i128)
    } else {
        linear as i128
    };
    let angular_size: i128 = if angular < 0 {
        -(angular as i128)
    } else {
        angular as i128
    };
    let demand: i128 = linear_size + angular_size;
    proof {
        lemma_desaturated_bound(left as int, demand as int);
        lemma_desaturated_bound(right as int, demand as int);
    }
    if demand > ONE as i128 {
        assert(-0x1_0000_0000_0000_0000 * 1_000_000 <= left * ONE <= 0x1_0000_0000_0000_0000
            * 1_000_000 && -0x1_0000_0000_0000_0000 * 1_000_000 <= right * ONE
            <= 0x1_0000_0000_0000_0000 * 1_000_000) by (nonlinear_arith)
            requires
                -0x1_0000_0000_0000_0000 <= left <= 0x1_0000_0000_0000_0000,
                -0x1_0000_0000_0000_0000 <= right <= 0x1_0000_0000_0000_0000,
                ONE == 1_000_000,
        ;
        let l: i128 = quot_wide(left * (ONE as i128), demand);
        let r: i128 = quot_wide(right * (ONE as i128), demand);
        (l as i64, r as i64)
    } else {
        (left as i64, right as i64)
    }
}

} // verus!
