//! What holds of the odometry for every reading.

use vstd::prelude::*;
use crate::fixed::{lemma_quot_between, lemma_quot_cancel, quot, saturate};
use crate::tracking::odom::{
    change, changes, family_term, family_weight, fuse_spec, held_distances, held_headings, hold,
    imu_estimate_spec, local_displacement_spec, local_sum, mean_change, scaled, valid_sum,
    weight_total, weighted_sum, OdomInertial, OdomWheel,
};

verus! {

/// Whichever families give an estimate, the fused change of heading is the
/// sum of their estimates, each times its family's weight, divided by the sum
/// of their weights, where that sum is not zero.
pub proof fn lemma_fuse_is_weighted_average(
    imu: Option<i64>,
    horizontal: Option<i64>,
    vertical: Option<i64>,
    imu_weight: i64,
    horizontal_weight: i64,
    vertical_weight: i64,
)
    requires
        family_weight(imu, imu_weight) + family_weight(horizontal, horizontal_weight)
            + family_weight(vertical, vertical_weight) != 0,
    ensures
        fuse_spec(imu, horizontal, vertical, imu_weight, horizontal_weight, vertical_weight)
            == saturate(
            quot(
                family_term(imu, imu_weight) + family_term(horizontal, horizontal_weight)
                    + family_term(vertical, vertical_weight),
                family_weight(imu, imu_weight) + family_weight(horizontal, horizontal_weight)
                    + family_weight(vertical, vertical_weight),
            ),
        ),
        imu is Some && horizontal is Some && vertical is Some ==> fuse_spec(
            imu,
            horizontal,
            vertical,
            imu_weight,
            horizontal_weight,
            vertical_weight,
        ) == saturate(
            quot(
                imu->0 * imu_weight + horizontal->0 * horizontal_weight + vertical->0
                    * vertical_weight,
                imu_weight + horizontal_weight + vertical_weight,
            ),
        ),
{
}

/// One family's part of the weighted sum lies between the bounds of the
/// estimates times its part of the weight.
proof fn lemma_family_between(estimate: Option<i64>, weight: i64, low: int, high: int)
    requires
        weight >= 0,
        estimate matches Some(e) ==> low <= e <= high,
    ensures
        low * family_weight(estimate, weight) <= family_term(estimate, weight) <= high
            * family_weight(estimate, weight),
{
    match estimate {
        Some(e) => {
            assert(low * weight <= e * weight <= high * weight) by (nonlinear_arith)
                requires
                    weight >= 0,
                    low <= e <= high,
            ;
        },
        None => {},
    }
}

/// The fused change of heading lies between the least and the greatest of
/// the estimates that the families gave.
pub proof fn lemma_fuse_between_estimates(
    imu: Option<i64>,
    horizontal: Option<i64>,
    vertical: Option<i64>,
    imu_weight: i64,
    horizontal_weight: i64,
    vertical_weight: i64,
    low: int,
    high: int,
)
    requires
        imu_weight >= 0,
        horizontal_weight >= 0,
        vertical_weight >= 0,
        family_weight(imu, imu_weight) + family_weight(horizontal, horizontal_weight)
            + family_weight(vertical, vertical_weight) > 0,
        i64::MIN <= low,
        high <= i64::MAX,
        imu matches Some(e) ==> low <= e <= high,
        horizontal matches Some(e) ==> low <= e <= high,
        vertical matches Some(e) ==> low <= e <= high,
    ensures
        low <= fuse_spec(imu, horizontal, vertical, imu_weight, horizontal_weight, vertical_weight)
            <= high,
        fuse_spec(imu, horizontal, vertical, imu_weight, horizontal_weight, vertical_weight)
            == quot(
            family_term(imu, imu_weight) + family_term(horizontal, horizontal_weight)
                + family_term(vertical, vertical_weight),
            family_weight(imu, imu_weight) + family_weight(horizontal, horizontal_weight)
                + family_weight(vertical, vertical_weight),
        ),
{
    lemma_family_between(imu, imu_weight, low, high);
    lemma_family_between(horizontal, horizontal_weight, low, high);
    lemma_family_between(vertical, vertical_weight, low, high);
    let total = family_weight(imu, imu_weight) + family_weight(horizontal, horizontal_weight)
        + family_weight(vertical, vertical_weight);
    let sum = family_term(imu, imu_weight) + family_term(horizontal, horizontal_weight)
        + family_term(vertical, vertical_weight);
    let wa = family_weight(imu, imu_weight);
    let wb = family_weight(horizontal, horizontal_weight);
    let wc = family_weight(vertical, vertical_weight);
    assert(low * total == low * wa + low * wb + low * wc && high * total == high * wa + high * wb
        + high * wc) by (nonlinear_arith)
        requires
            total == wa + wb + wc,
    ;
    lemma_quot_between(sum, total, low, high);
}

/// The sums over the first `n` inertial sensors: the weighted sum lies
/// between the bounds of the changes times the sum of the weights.
proof fn lemma_weighted_sum_between(
    deltas: Seq<Option<i64>>,
    imus: Seq<OdomInertial>,
    low: int,
    high: int,
    n: nat,
)
    requires
        deltas.len() == imus.len(),
        n <= deltas.len(),
        forall|i: int| 0 <= i < imus.len() ==> (#[trigger] imus[i]).weight >= 0,
        forall|i: int|
            0 <= i < deltas.len() ==> ((#[trigger] deltas[i]) matches Some(d) ==> low <= d
                <= high),
    ensures
        weight_total(deltas, imus, n) >= 0,
        low * weight_total(deltas, imus, n) <= weighted_sum(deltas, imus, n) <= high
            * weight_total(deltas, imus, n),
    decreases n,
{
    if n > 0 {
        lemma_weighted_sum_between(deltas, imus, low, high, (n - 1) as nat);
        let before = weight_total(deltas, imus, (n - 1) as nat);
        let w = imus[n - 1].weight;
        match deltas[n - 1] {
            Some(d) => {
                assert(low * (before + w) == low * before + low * w && high * (before + w) == high
                    * before + high * w && low * w <= d * w <= high * w) by (nonlinear_arith)
                    requires
                        w >= 0,
                        low <= d <= high,
                ;
            },
            None => {},
        }
    }
}

/// The estimate of the inertial sensors lies between the least and the
/// greatest change that one of them shows.
pub proof fn lemma_imu_estimate_between_changes(
    deltas: Seq<Option<i64>>,
    imus: Seq<OdomInertial>,
    low: int,
    high: int,
)
    requires
        deltas.len() == imus.len(),
        forall|i: int| 0 <= i < imus.len() ==> (#[trigger] imus[i]).weight >= 0,
        forall|i: int|
            0 <= i < deltas.len() ==> ((#[trigger] deltas[i]) matches Some(d) ==> low <= d
                <= high),
        i64::MIN <= low,
        high <= i64::MAX,
    ensures
        imu_estimate_spec(deltas, imus) matches Some(e) ==> low <= e <= high && e == quot(
            weighted_sum(deltas, imus, deltas.len()),
            weight_total(deltas, imus, deltas.len()),
        ),
{
    lemma_weighted_sum_between(deltas, imus, low, high, deltas.len());
    let total = weight_total(deltas, imus, deltas.len());
    if total > 0 {
        lemma_quot_between(weighted_sum(deltas, imus, deltas.len()), total, low, high);
    }
}

/// Where only one family has a weight other than zero, the fused change of
/// heading is that family's estimate.
pub proof fn lemma_fuse_single_family(
    estimate: i64,
    weight: i64,
    other_a: Option<i64>,
    other_b: Option<i64>,
)
    requires
        weight != 0,
    ensures
        fuse_spec(Some(estimate), other_a, other_b, weight, 0, 0) == estimate,
        fuse_spec(other_a, Some(estimate), other_b, 0, weight, 0) == estimate,
        fuse_spec(other_a, other_b, Some(estimate), 0, 0, weight) == estimate,
{
    lemma_quot_cancel(estimate as int, weight as int);
}

/// The sums over the first `n` inertial sensors, where only sensor `k` has a
/// weight other than zero.
proof fn lemma_single_sensor_sums(
    deltas: Seq<Option<i64>>,
    imus: Seq<OdomInertial>,
    k: int,
    d: i64,
    n: nat,
)
    requires
        deltas.len() == imus.len(),
        n <= deltas.len(),
        0 <= k < deltas.len(),
        deltas[k] == Some(d),
        forall|i: int| 0 <= i < imus.len() && i != k ==> (#[trigger] imus[i]).weight == 0,
    ensures
        weight_total(deltas, imus, n) == if k < n {
            imus[k].weight as int
        } else {
            0
        },
        weighted_sum(deltas, imus, n) == if k < n {
            d * imus[k].weight
        } else {
            0
        },
    decreases n,
{
    if n > 0 {
        lemma_single_sensor_sums(deltas, imus, k, d, (n - 1) as nat);
        if n - 1 != k {
            assert(imus[n - 1].weight == 0);
        }
    }
}

/// Where only one inertial sensor has a weight other than zero and it shows
/// a change, the family's estimate is that change.
pub proof fn lemma_imu_single_sensor(
    deltas: Seq<Option<i64>>,
    imus: Seq<OdomInertial>,
    k: int,
    d: i64,
)
    requires
        deltas.len() == imus.len(),
        0 <= k < deltas.len(),
        deltas[k] == Some(d),
        imus[k].weight > 0,
        forall|i: int| 0 <= i < imus.len() && i != k ==> (#[trigger] imus[i]).weight == 0,
    ensures
        imu_estimate_spec(deltas, imus) == Some(d),
{
    lemma_single_sensor_sums(deltas, imus, k, d, deltas.len());
    lemma_quot_cancel(d as int, imus[k].weight as int);
}

/// A wheel that gives a reading on two ticks in a row shows the difference
/// of the two as its change.
pub proof fn lemma_valid_wheel_shows_change(
    readings: Seq<Option<i64>>,
    previous: Seq<Option<i64>>,
    i: int,
)
    requires
        readings.len() == previous.len(),
        0 <= i < previous.len(),
        readings[i] is Some,
        previous[i] is Some,
    ensures
        changes(held_distances(readings, previous), previous)[i] == Some(
            saturate(readings[i]->0 - previous[i]->0) as i64,
        ),
{
}

/// An inertial sensor that gives a reading on two ticks in a row shows the
/// difference of the two headings as its change.
pub proof fn lemma_valid_inertial_shows_change(
    rotations: Seq<Option<i64>>,
    previous: Seq<Option<i64>>,
    imus: Seq<OdomInertial>,
    i: int,
)
    requires
        rotations.len() == previous.len(),
        imus.len() == previous.len(),
        0 <= i < previous.len(),
        rotations[i] is Some,
        previous[i] is Some,
    ensures
        changes(held_headings(rotations, previous, imus), previous)[i] == Some(
            saturate(scaled(rotations[i], imus[i].scalar)->0 - previous[i]->0) as i64,
        ),
{
}

/// A sensor that gives no reading stands at its last one: it shows a change
/// of zero, or none where it never gave a reading.
pub proof fn lemma_failed_sensor_frozen(previous: Option<i64>, scalar: i64)
    ensures
        hold(None, previous) == previous,
        hold(scaled(None, scalar), previous) == previous,
        change(hold(None, previous), previous) == match previous {
            Some(_) => Some(0i64),
            None => None,
        },
{
}

/// A wheel that gives no reading keeps its last reading over the tick and
/// adds no distance.
pub proof fn lemma_failed_wheel_frozen(
    readings: Seq<Option<i64>>,
    previous: Seq<Option<i64>>,
    i: int,
)
    requires
        readings.len() == previous.len(),
        0 <= i < previous.len(),
        readings[i] is None,
    ensures
        held_distances(readings, previous)[i] == previous[i],
        changes(held_distances(readings, previous), previous)[i] == match previous[i] {
            Some(_) => Some(0i64),
            None => None,
        },
{
}

/// An inertial sensor whose reading fails keeps its last heading over the
/// tick and adds no turn.
pub proof fn lemma_failed_inertial_frozen(
    rotations: Seq<Option<i64>>,
    previous: Seq<Option<i64>>,
    imus: Seq<OdomInertial>,
    i: int,
)
    requires
        rotations.len() == previous.len(),
        imus.len() == previous.len(),
        0 <= i < previous.len(),
        rotations[i] is None,
    ensures
        held_headings(rotations, previous, imus)[i] == previous[i],
        changes(held_headings(rotations, previous, imus), previous)[i] == match previous[i] {
            Some(_) => Some(0i64),
            None => None,
        },
{
}

/// On a straight tick the first `n` wheels add their plain changes.
proof fn lemma_straight_sum(
    deltas: Seq<Option<i64>>,
    wheels: Seq<OdomWheel>,
    half_sine: i64,
    n: nat,
)
    ensures
        local_sum(deltas, wheels, 0, half_sine, n) == valid_sum(deltas, n),
    decreases n,
{
    if n > 0 {
        lemma_straight_sum(deltas, wheels, half_sine, (n - 1) as nat);
    }
}

/// With no change of heading the local displacement is the plain average of
/// the wheels' changes, whatever sine is handed in.
pub proof fn lemma_straight_tick(
    deltas: Seq<Option<i64>>,
    wheels: Seq<OdomWheel>,
    half_sine: i64,
)
    ensures
        local_displacement_spec(deltas, wheels, 0, half_sine) == mean_change(deltas),
{
    lemma_straight_sum(deltas, wheels, half_sine, deltas.len());
}

} // verus!
