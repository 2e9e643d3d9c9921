//! Odometry: fuses inertial sensors and tracking wheels into a pose.
//!
//! One tick is taken in two steps. `OdomTracking::measure` turns the raw
//! readings into per-sensor changes and the fused change of heading.
//! `OdomTracking::update` takes the sine and cosine that belong to that
//! change and advances the pose.

use vstd::prelude::*;
use crate::differential::pose::{Direction, Pose};
use crate::fixed::{
    div_spec, fx_div, fx_mul, mul_spec, narrow, quot, quot_wide, sat_add, sat_neg, sat_sub,
    saturate, ONE,
};

verus! {

/// Most sensors that one family may hold: with more, the sums over a family
/// could leave 128 bits.
pub const MAX_SENSORS: usize = 0x10_0000;

/// Largest size of the weight that a sensor or a family may have.
pub const MAX_WEIGHT: i64 = 0x100_0000_0000;

/// Configuration of one inertial sensor.
#[derive(Clone, Copy, Debug)]
pub struct OdomInertial {
    /// Factor applied to every rotation that the sensor reports.
    pub scalar: i64,
    /// Share of this sensor among the inertial sensors.
    pub weight: i64,
}

/// Configuration of one tracking wheel.
#[derive(Clone, Copy, Debug)]
pub struct OdomWheel {
    /// Signed distance of the wheel from the tracking centre.
    pub offset: i64,
}

/// The sensors of a robot and the weights of the three sensor families.
pub struct OdomSensors {
    pub imus: Vec<OdomInertial>,
    pub horizontals: Vec<OdomWheel>,
    pub verticals: Vec<OdomWheel>,
    /// Share of the inertial sensors in the change of heading.
    pub imu_angle_weight: i64,
    /// Share of the pairs of horizontal wheels in the change of heading.
    pub horizontal_angle_weight: i64,
    /// Share of the pairs of vertical wheels in the change of heading.
    pub vertical_angle_weight: i64,
}

/// A weight that the fusion accepts: one whose size is within `MAX_WEIGHT`.
pub open spec fn weight_ok(w: i64) -> bool {
    -MAX_WEIGHT <= w <= MAX_WEIGHT
}

/// No two wheels of the family sit at the same offset.
pub open spec fn offsets_distinct(wheels: Seq<OdomWheel>) -> bool {
    forall|i: int, j: int|
        0 <= i < j < wheels.len() ==> #[trigger] wheels[i].offset != #[trigger] wheels[j].offset
}

/// Every inertial sensor has an accepted weight.
pub open spec fn weights_ok(imus: Seq<OdomInertial>) -> bool {
    forall|i: int| 0 <= i < imus.len() ==> weight_ok(#[trigger] imus[i].weight)
}

/// The reading that stands for a sensor this tick: the new one, or the last
/// one where the sensor gave none.
pub open spec fn hold(reading: Option<i64>, previous: Option<i64>) -> Option<i64> {
    match reading {
        Some(v) => Some(v),
        None => previous,
    }
}

/// Heading that an inertial sensor reports: its rotation, negated and scaled.
pub open spec fn scaled(rotation: Option<i64>, scalar: i64) -> Option<i64> {
    match rotation {
        Some(r) => Some(mul_spec(saturate(-r), scalar as int) as i64),
        None => None,
    }
}

/// Change of a sensor since the last tick, where both readings exist.
pub open spec fn change(current: Option<i64>, previous: Option<i64>) -> Option<i64> {
    match (current, previous) {
        (Some(c), Some(p)) => Some(saturate(c - p) as i64),
        _ => None,
    }
}

/// The readings of a family of wheels, each held over a missing one.
pub open spec fn held_distances(readings: Seq<Option<i64>>, previous: Seq<Option<i64>>) -> Seq<
    Option<i64>,
> {
    Seq::new(previous.len(), |i: int| hold(readings[i], previous[i]))
}

/// The headings of the inertial sensors, each held over a failed reading.
pub open spec fn held_headings(
    rotations: Seq<Option<i64>>,
    previous: Seq<Option<i64>>,
    imus: Seq<OdomInertial>,
) -> Seq<Option<i64>> {
    Seq::new(previous.len(), |i: int| hold(scaled(rotations[i], imus[i].scalar), previous[i]))
}

/// The change of each sensor of a family.
pub open spec fn changes(current: Seq<Option<i64>>, previous: Seq<Option<i64>>) -> Seq<
    Option<i64>,
> {
    Seq::new(previous.len(), |i: int| change(current[i], previous[i]))
}

impl OdomInertial {
    pub fn new(scalar: i64, weight: i64) -> (r: Self)
        ensures
            r.scalar == scalar,
            r.weight == weight,
    {
        OdomInertial { scalar, weight }
    }
}

impl OdomWheel {
    pub fn new(offset: i64) -> (r: Self)
        ensures
            r.offset == offset,
    {
        OdomWheel { offset }
    }

    pub fn offset(&self) -> (r: i64)
        ensures
            r == self.offset,
    {
        self.offset
    }
}

/// Whether no two wheels of the family sit at the same offset.
pub fn check_offsets(wheels: &Vec<OdomWheel>) -> (r: bool)
    ensures
        r == offsets_distinct(wheels@),
{
    let n: usize = wheels.len();
    let mut i: usize = 0;
    while i < n
        invariant
            i <= n,
            n == wheels.len(),
            forall|a: int, b: int|
                0 <= a < i && a < b < n ==> #[trigger] wheels[a].offset != #[trigger] wheels[b].offset,
        decreases n - i,
    {
        let mut j: usize = i + 1;
        while j < n
            invariant
                i < j <= n,
                n == wheels.len(),
                forall|b: int| i < b < j ==> wheels[i as int].offset != #[trigger] wheels[b].offset,
            decreases n - j,
        {
            if wheels[i].offset == wheels[j].offset {
                return false;
            }
            j += 1;
        }
        i += 1;
    }
    true
}

/// Whether every inertial sensor has an accepted weight.
pub fn check_weights(imus: &Vec<OdomInertial>) -> (r: bool)
    ensures
        r == weights_ok(imus@),
{
    let mut i: usize = 0;
    while i < imus.len()
        invariant
            i <= imus.len(),
            forall|a: int| 0 <= a < i ==> weight_ok(#[trigger] imus[a].weight),
        decreases imus.len() - i,
    {
        if imus[i].weight < -MAX_WEIGHT || imus[i].weight > MAX_WEIGHT {
            return false;
        }
        i += 1;
    }
    true
}

impl OdomSensors {
    /// A configuration that the tracker can work with: no family larger than
    /// `MAX_SENSORS`, no weight larger in size than `MAX_WEIGHT`, and no two
    /// wheels of a family at the same offset.
    pub open spec fn wf(&self) -> bool {
        &&& self.imus.len() <= MAX_SENSORS
        &&& self.horizontals.len() <= MAX_SENSORS
        &&& self.verticals.len() <= MAX_SENSORS
        &&& weights_ok(self.imus@)
        &&& weight_ok(self.imu_angle_weight)
        &&& weight_ok(self.horizontal_angle_weight)
        &&& weight_ok(self.vertical_angle_weight)
        &&& offsets_distinct(self.horizontals@)
        &&& offsets_distinct(self.verticals@)
    }

    pub fn new(
        imus: Vec<OdomInertial>,
        horizontals: Vec<OdomWheel>,
        verticals: Vec<OdomWheel>,
        imu_weight: i64,
        horizontal_weight: i64,
        vertical_weight: i64,
    ) -> (r: Self)
        ensures
            r.imus == imus,
            r.horizontals == horizontals,
            r.verticals == verticals,
            r.imu_angle_weight == imu_weight,
            r.horizontal_angle_weight == horizontal_weight,
            r.vertical_angle_weight == vertical_weight,
    {
        OdomSensors {
            imus,
            horizontals,
            verticals,
            imu_angle_weight: imu_weight,
            horizontal_angle_weight: horizontal_weight,
            vertical_angle_weight: vertical_weight,
        }
    }

    pub fn imu_count(&self) -> (r: usize)
        ensures
            r == self.imus.len(),
    {
        self.imus.len()
    }

    pub fn horizontals_count(&self) -> (r: usize)
        ensures
            r == self.horizontals.len(),
    {
        self.horizontals.len()
    }

    pub fn verticals_count(&self) -> (r: usize)
        ensures
            r == self.verticals.len(),
    {
        self.verticals.len()
    }

    /// Whether the tracker can work with this configuration.
    pub fn is_valid(&self) -> (r: bool)
        ensures
            r == self.wf(),
    {
        self.imus.len() <= MAX_SENSORS && self.horizontals.len() <= MAX_SENSORS
            && self.verticals.len() <= MAX_SENSORS && check_weights(&self.imus)
            && -MAX_WEIGHT <= self.imu_angle_weight && self.imu_angle_weight <= MAX_WEIGHT
            && -MAX_WEIGHT <= self.horizontal_angle_weight && self.horizontal_angle_weight
            <= MAX_WEIGHT && -MAX_WEIGHT <= self.vertical_angle_weight
            && self.vertical_angle_weight <= MAX_WEIGHT
            && check_offsets(&self.horizontals) && check_offsets(&self.verticals)
    }
}

/// Holds each wheel's reading over a missing one.
pub fn hold_distances(readings: &Vec<Option<i64>>, previous: &Vec<Option<i64>>) -> (r: Vec<
    Option<i64>,
>)
    requires
        readings.len() == previous.len(),
    ensures
        r@ == held_distances(readings@, previous@),
{
    let mut held: Vec<Option<i64>> = Vec::new();
    let mut i: usize = 0;
    while i < previous.len()
        invariant
            i <= previous.len(),
            readings.len() == previous.len(),
            held.len() == i,
            forall|k: int| 0 <= k < i ==> #[trigger] held[k] == hold(readings[k], previous[k]),
        decreases previous.len() - i,
    {
        let value: Option<i64> = match readings[i] {
            Some(v) => Some(v),
            None => previous[i],
        };
        held.push(value);
        i += 1;
    }
    assert(held@ =~= held_distances(readings@, previous@));
    held
}

/// Scales each inertial sensor's rotation into a heading and holds it over a
/// failed reading.
pub fn hold_headings(
    rotations: &Vec<Option<i64>>,
    previous: &Vec<Option<i64>>,
    imus: &Vec<OdomInertial>,
) -> (r: Vec<Option<i64>>)
    requires
        rotations.len() == previous.len(),
        imus.len() == previous.len(),
    ensures
        r@ == held_headings(rotations@, previous@, imus@),
{
    let mut held: Vec<Option<i64>> = Vec::new();
    let mut i: usize = 0;
    while i < previous.len()
        invariant
            i <= previous.len(),
            rotations.len() == previous.len(),
            imus.len() == previous.len(),
            held.len() == i,
            forall|k: int|
                0 <= k < i ==> #[trigger] held[k] == hold(
                    scaled(rotations[k], imus[k].scalar),
                    previous[k],
                ),
        decreases previous.len() - i,
    {
        let value: Option<i64> = match rotations[i] {
            Some(r) => Some(fx_mul(sat_neg(r), imus[i].scalar)),
            None => previous[i],
        };
        held.push(value);
        i += 1;
    }
    assert(held@ =~= held_headings(rotations@, previous@, imus@));
    held
}

/// The change of each sensor between two ticks.
pub fn sensor_changes(current: &Vec<Option<i64>>, previous: &Vec<Option<i64>>) -> (r: Vec<
    Option<i64>,
>)
    requires
        current.len() == previous.len(),
    ensures
        r@ == changes(current@, previous@),
{
    let mut out: Vec<Option<i64>> = Vec::new();
    let mut i: usize = 0;
    while i < previous.len()
        invariant
            i <= previous.len(),
            current.len() == previous.len(),
            out.len() == i,
            forall|k: int| 0 <= k < i ==> #[trigger] out[k] == change(current[k], previous[k]),
        decreases previous.len() - i,
    {
        let value: Option<i64> = match (current[i], previous[i]) {
            (Some(c), Some(p)) => Some(sat_sub(c, p)),
            _ => None,
        };
        out.push(value);
        i += 1;
    }
    assert(out@ =~= changes(current@, previous@));
    out
}

/// Sum of the weights of the first `n` inertial sensors that show a change.
pub open spec fn weight_total(deltas: Seq<Option<i64>>, imus: Seq<OdomInertial>, n: nat) -> int
    decreases n,
{
    if n == 0 {
        0
    } else {
        weight_total(deltas, imus, (n - 1) as nat) + match deltas[n - 1] {
            Some(_) => imus[n - 1].weight as int,
            None => 0,
        }
    }
}

/// Sum of the changes of the first `n` inertial sensors, each times its
/// weight.
pub open spec fn weighted_sum(deltas: Seq<Option<i64>>, imus: Seq<OdomInertial>, n: nat) -> int
    decreases n,
{
    if n == 0 {
        0
    } else {
        weighted_sum(deltas, imus, (n - 1) as nat) + match deltas[n - 1] {
            Some(d) => d * imus[n - 1].weight,
            None => 0,
        }
    }
}

/// Change of heading by the inertial sensors: the weighted average of the
/// sensors that show a change, or nothing where their weights sum to zero.
pub open spec fn imu_estimate_spec(deltas: Seq<Option<i64>>, imus: Seq<OdomInertial>) -> Option<
    i64,
> {
    let total = weight_total(deltas, imus, deltas.len());
    if total > 0 {
        Some(saturate(quot(weighted_sum(deltas, imus, deltas.len()), total)) as i64)
    } else {
        None
    }
}

/// Change of heading that wheels `i` and `j` of a family show together.
pub open spec fn pair_angle(deltas: Seq<Option<i64>>, wheels: Seq<OdomWheel>, i: int, j: int)
    -> Option<i64> {
    match (deltas[i], deltas[j]) {
        (Some(a), Some(b)) => Some(
            saturate(quot((a - b) * ONE, wheels[i].offset - wheels[j].offset)) as i64,
        ),
        _ => None,
    }
}

/// Sum of the changes of heading that wheel `i` shows with each wheel after
/// it and before `end`.
pub open spec fn row_sum(deltas: Seq<Option<i64>>, wheels: Seq<OdomWheel>, i: int, end: int)
    -> int
    decreases end - i,
{
    if end <= i + 1 {
        0
    } else {
        row_sum(deltas, wheels, i, end - 1) + match pair_angle(deltas, wheels, i, end - 1) {
            Some(a) => a as int,
            None => 0,
        }
    }
}

/// Number of wheels after `i` and before `end` that show a change of heading
/// with wheel `i`.
pub open spec fn row_count(deltas: Seq<Option<i64>>, wheels: Seq<OdomWheel>, i: int, end: int)
    -> int
    decreases end - i,
{
    if end <= i + 1 {
        0
    } else {
        row_count(deltas, wheels, i, end - 1) + match pair_angle(deltas, wheels, i, end - 1) {
            Some(_) => 1int,
            None => 0,
        }
    }
}

/// Sum of the changes of heading of all pairs whose first wheel is before
/// `rows`.
pub open spec fn pairs_sum(deltas: Seq<Option<i64>>, wheels: Seq<OdomWheel>, rows: nat) -> int
    decreases rows,
{
    if rows == 0 {
        0
    } else {
        pairs_sum(deltas, wheels, (rows - 1) as nat) + row_sum(
            deltas,
            wheels,
            rows - 1,
            deltas.len() as int,
        )
    }
}

/// Number of pairs whose first wheel is before `rows` and that show a change
/// of heading.
pub open spec fn pairs_count(deltas: Seq<Option<i64>>, wheels: Seq<OdomWheel>, rows: nat) -> int
    decreases rows,
{
    if rows == 0 {
        0
    } else {
        pairs_count(deltas, wheels, (rows - 1) as nat) + row_count(
            deltas,
            wheels,
            rows - 1,
            deltas.len() as int,
        )
    }
}

/// Change of heading by a family of wheels: the average over its pairs, or
/// nothing where no pair shows a change.
pub open spec fn pair_estimate_spec(deltas: Seq<Option<i64>>, wheels: Seq<OdomWheel>) -> Option<
    i64,
> {
    let count = pairs_count(deltas, wheels, deltas.len());
    if count > 0 {
        Some(saturate(quot(pairs_sum(deltas, wheels, deltas.len()), count)) as i64)
    } else {
        None
    }
}

/// Weight of a family this tick: its own where it gave an estimate.
pub open spec fn family_weight(estimate: Option<i64>, weight: i64) -> int {
    match estimate {
        Some(_) => weight as int,
        None => 0,
    }
}

/// Estimate of a family times its weight.
pub open spec fn family_term(estimate: Option<i64>, weight: i64) -> int {
    match estimate {
        Some(e) => e * weight,
        None => 0,
    }
}

/// Fused change of heading: the average of the families' estimates by their
/// weights, over the families that gave one; zero where those weights sum to
/// zero.
pub open spec fn fuse_spec(
    imu: Option<i64>,
    horizontal: Option<i64>,
    vertical: Option<i64>,
    imu_weight: i64,
    horizontal_weight: i64,
    vertical_weight: i64,
) -> int {
    let total = family_weight(imu, imu_weight) + family_weight(horizontal, horizontal_weight)
        + family_weight(vertical, vertical_weight);
    let sum = family_term(imu, imu_weight) + family_term(horizontal, horizontal_weight)
        + family_term(vertical, vertical_weight);
    if total != 0 {
        saturate(quot(sum, total))
    } else {
        0
    }
}

/// Change of heading by the inertial sensors.
pub fn imu_estimate(deltas: &Vec<Option<i64>>, imus: &Vec<OdomInertial>) -> (r: Option<i64>)
    requires
        deltas.len() == imus.len(),
        imus.len() <= MAX_SENSORS,
        weights_ok(imus@),
    ensures
        r == imu_estimate_spec(deltas@, imus@),
{
    let mut total: i128 = 0;
    let mut sum: i128 = 0;
    let mut i: usize = 0;
    while i < deltas.len()
        invariant
            i <= deltas.len(),
            deltas.len() == imus.len(),
            imus.len() <= 0x10_0000,
            weights_ok(imus@),
            total == weight_total(deltas@, imus@, i as nat),
            sum == weighted_sum(deltas@, imus@, i as nat),
            -i * 0x100_0000_0000 <= total <= i * 0x100_0000_0000,
            -i * 0x80_0000_0000_0000_0000_0000_0000 <= sum <= i
                * 0x80_0000_0000_0000_0000_0000_0000,
        decreases deltas.len() - i,
    {
        match deltas[i] {
            Some(d) => {
                let w: i64 = imus[i].weight;
                proof {
                    assert(weight_ok(imus@[i as int].weight));
                    lemma_term_bound(d as int, w as int);
                }
                total = total + w as i128;
                sum = sum + (d as i128) * (w as i128);
            },
            None => {},
        }
        i += 1;
    }
    if total > 0 {
        Some(narrow(quot_wide(sum, total)))
    } else {
        None
    }
}

/// Change of heading by a family of wheels.
pub fn pair_estimate(deltas: &Vec<Option<i64>>, wheels: &Vec<OdomWheel>) -> (r: Option<i64>)
    requires
        deltas.len() == wheels.len(),
        wheels.len() <= MAX_SENSORS,
        offsets_distinct(wheels@),
    ensures
        r == pair_estimate_spec(deltas@, wheels@),
{
    let n: usize = deltas.len();
    let mut sum: i128 = 0;
    let mut count: i128 = 0;
    let mut i: usize = 0;
    while i < n
        invariant
            i <= n,
            n == deltas.len(),
            n == wheels.len(),
            n <= 0x10_0000,
            offsets_distinct(wheels@),
            sum == pairs_sum(deltas@, wheels@, i as nat),
            count == pairs_count(deltas@, wheels@, i as nat),
            0 <= count <= i * 0x10_0000,
            -count * 0x8000_0000_0000_0000 <= sum <= count * 0x8000_0000_0000_0000,
        decreases n - i,
    {
        let mut row: i128 = 0;
        let mut found: i128 = 0;
        let mut j: usize = i + 1;
        while j < n
            invariant
                i < j <= n,
                n == deltas.len(),
                n == wheels.len(),
                n <= 0x10_0000,
                offsets_distinct(wheels@),
                row == row_sum(deltas@, wheels@, i as int, j as int),
                found == row_count(deltas@, wheels@, i as int, j as int),
                0 <= found <= j - i - 1,
                -found * 0x8000_0000_0000_0000 <= row <= found * 0x8000_0000_0000_0000,
            decreases n - j,
        {
            match (deltas[i], deltas[j]) {
                (Some(a), Some(b)) => {
                    assert(wheels@[i as int].offset != wheels@[j as int].offset);
                    assert(-0x10_0000_0000_0000_0000_0000 <= (a - b) * ONE
                        <= 0x10_0000_0000_0000_0000_0000) by (nonlinear_arith)
                        requires
                            -0x1_0000_0000_0000_0000 <= a - b <= 0x1_0000_0000_0000_0000,
                            ONE == 1_000_000,
                    ;
                    let top: i128 = (a as i128 - b as i128) * (ONE as i128);
                    let bottom: i128 = wheels[i].offset as i128 - wheels[j].offset as i128;
                    let angle: i64 = narrow(quot_wide(top, bottom));
                    row = row + angle as i128;
                    found = found + 1;
                },
                _ => {},
            }
            j += 1;
        }
        sum = sum + row;
        count = count + found;
        i += 1;
    }
    if count > 0 {
        Some(narrow(quot_wide(sum, count)))
    } else {
        None
    }
}

/// Fuses the three families' estimates into the change of heading.
pub fn fuse(
    imu: Option<i64>,
    horizontal: Option<i64>,
    vertical: Option<i64>,
    imu_weight: i64,
    horizontal_weight: i64,
    vertical_weight: i64,
) -> (r: i64)
    requires
        weight_ok(imu_weight),
        weight_ok(horizontal_weight),
        weight_ok(vertical_weight),
    ensures
        r == fuse_spec(imu, horizontal, vertical, imu_weight, horizontal_weight, vertical_weight),
{
    let mut total: i128 = 0;
    let mut sum: i128 = 0;
    if let Some(e) = imu {
        proof {
            lemma_term_bound(e as int, imu_weight as int);
        }
        total = total + imu_weight as i128;
        sum = sum + (e as i128) * (imu_weight as i128);
    }
    if let Some(e) = horizontal {
        proof {
            lemma_term_bound(e as int, horizontal_weight as int);
        }
        total = total + horizontal_weight as i128;
        sum = sum + (e as i128) * (horizontal_weight as i128);
    }
    if let Some(e) = vertical {
        proof {
            lemma_term_bound(e as int, vertical_weight as int);
        }
        total = total + vertical_weight as i128;
        sum = sum + (e as i128) * (vertical_weight as i128);
    }
    if total != 0 {
        narrow(quot_wide(sum, total))
    } else {
        0
    }
}

/// A reading times an accepted weight stays far inside the wide range.
proof fn lemma_term_bound(d: int, w: int)
    requires
        i64::MIN <= d <= i64::MAX,
        -MAX_WEIGHT <= w <= MAX_WEIGHT,
    ensures
        -0x80_0000_0000_0000_0000_0000_0000 <= d * w <= 0x80_0000_0000_0000_0000_0000_0000,
{
    assert(-0x80_0000_0000_0000_0000_0000_0000 <= d * w <= 0x80_0000_0000_0000_0000_0000_0000)
        by (nonlinear_arith)
        requires
            -0x8000_0000_0000_0000 <= d <= 0x8000_0000_0000_0000,
            -0x100_0000_0000 <= w <= 0x100_0000_0000,
    ;
}

/// Number of the first `n` sensors that show a change.
pub open spec fn valid_count(deltas: Seq<Option<i64>>, n: nat) -> int
    decreases n,
{
    if n == 0 {
        0
    } else {
        valid_count(deltas, (n - 1) as nat) + match deltas[n - 1] {
            Some(_) => 1int,
            None => 0,
        }
    }
}

/// Sum of the changes that the first `n` sensors show.
pub open spec fn valid_sum(deltas: Seq<Option<i64>>, n: nat) -> int
    decreases n,
{
    if n == 0 {
        0
    } else {
        valid_sum(deltas, (n - 1) as nat) + match deltas[n - 1] {
            Some(d) => d as int,
            None => 0,
        }
    }
}

/// Plain average of the changes that the sensors show; zero where none does.
pub open spec fn mean_change(deltas: Seq<Option<i64>>) -> int {
    let count = valid_count(deltas, deltas.len());
    if count > 0 {
        saturate(quot(valid_sum(deltas, deltas.len()), count))
    } else {
        0
    }
}

/// Chord that a wheel's centre-line travels while the robot turns by
/// `delta_angle`: twice the sine of half the turn, times the radius of the
/// wheel's arc less its offset.
pub open spec fn arc_spec(d: i64, offset: i64, delta_angle: i64, half_sine: i64) -> int
    recommends
        delta_angle != 0,
{
    mul_spec(saturate(2 * half_sine), saturate(div_spec(d as int, delta_angle as int) - offset))
}

/// What one wheel adds to the local displacement: its change as it is on a
/// straight tick, its chord on a turning one.
pub open spec fn local_term(d: i64, offset: i64, delta_angle: i64, half_sine: i64) -> int {
    if delta_angle == 0 {
        d as int
    } else {
        arc_spec(d, offset, delta_angle, half_sine)
    }
}

/// Sum of what the first `n` wheels add to the local displacement.
pub open spec fn local_sum(
    deltas: Seq<Option<i64>>,
    wheels: Seq<OdomWheel>,
    delta_angle: i64,
    half_sine: i64,
    n: nat,
) -> int
    decreases n,
{
    if n == 0 {
        0
    } else {
        local_sum(deltas, wheels, delta_angle, half_sine, (n - 1) as nat) + match deltas[n - 1] {
            Some(d) => local_term(d, wheels[n - 1].offset, delta_angle, half_sine),
            None => 0,
        }
    }
}

/// Displacement of the robot along the axis of one family of wheels, in the
/// robot's own frame: the average of what its wheels add, zero where none
/// shows a change.
pub open spec fn local_displacement_spec(
    deltas: Seq<Option<i64>>,
    wheels: Seq<OdomWheel>,
    delta_angle: i64,
    half_sine: i64,
) -> int {
    let count = valid_count(deltas, deltas.len());
    if count > 0 {
        saturate(quot(local_sum(deltas, wheels, delta_angle, half_sine, deltas.len()), count))
    } else {
        0
    }
}

/// Displacement along the robot's forward axis turned into the field's frame.
pub open spec fn global_x(vertical: int, horizontal: int, mean: Direction) -> int {
    saturate(mul_spec(vertical, mean.cos as int) + mul_spec(horizontal, mean.sin as int))
}

/// Displacement along the robot's strafe axis turned into the field's frame.
pub open spec fn global_y(vertical: int, horizontal: int, mean: Direction) -> int {
    saturate(mul_spec(vertical, mean.sin as int) - mul_spec(horizontal, mean.cos as int))
}

/// Displacement of the robot along the axis of one family of wheels.
pub fn local_displacement(
    deltas: &Vec<Option<i64>>,
    wheels: &Vec<OdomWheel>,
    delta_angle: i64,
    half_sine: i64,
) -> (r: i64)
    requires
        deltas.len() == wheels.len(),
    ensures
        r == local_displacement_spec(deltas@, wheels@, delta_angle, half_sine),
{
    let mut sum: i128 = 0;
    let mut count: i128 = 0;
    let mut i: usize = 0;
    while i < deltas.len()
        invariant
            i <= deltas.len(),
            deltas.len() == wheels.len(),
            count == valid_count(deltas@, i as nat),
            sum == local_sum(deltas@, wheels@, delta_angle, half_sine, i as nat),
            0 <= count <= i,
            -i * 0x8000_0000_0000_0000 <= sum <= i * 0x8000_0000_0000_0000,
        decreases deltas.len() - i,
    {
        match deltas[i] {
            Some(d) => {
                let term: i64 = if delta_angle == 0 {
                    d
                } else {
                    let radius: i64 = sat_sub(fx_div(d, delta_angle), wheels[i].offset);
                    fx_mul(sat_add(half_sine, half_sine), radius)
                };
                sum = sum + term as i128;
                count = count + 1;
            },
            None => {},
        }
        i += 1;
    }
    if count > 0 {
        narrow(quot_wide(sum, count))
    } else {
        0
    }
}

/// What one tick's readings say before any angle is resolved.
pub struct OdomDelta {
    /// Fused change of heading.
    pub delta_angle: i64,
    /// Half the change of heading, rounded toward zero.
    pub half_angle: i64,
    /// Heading half-way through the tick.
    pub mean_heading: i64,
    /// Change of each horizontal wheel.
    pub horizontal: Vec<Option<i64>>,
    /// Change of each vertical wheel.
    pub vertical: Vec<Option<i64>>,
}

/// Pose estimate and the last reading of every sensor.
pub struct OdomTracking {
    pub sensors: OdomSensors,
    pub tracked_pose: Pose,
    pub delta_global_pose: Pose,
    pub prev_imu_angles: Vec<Option<i64>>,
    pub prev_horizontal_distances: Vec<Option<i64>>,
    pub prev_vertical_distances: Vec<Option<i64>>,
}

/// A vector of `n` missing readings.
pub fn no_readings(n: usize) -> (r: Vec<Option<i64>>)
    ensures
        r@ == Seq::new(n as nat, |i: int| None::<i64>),
{
    let mut out: Vec<Option<i64>> = Vec::new();
    let mut i: usize = 0;
    while i < n
        invariant
            i <= n,
            out.len() == i,
            forall|k: int| 0 <= k < i ==> #[trigger] out[k] == None::<i64>,
        decreases n - i,
    {
        out.push(None);
        i += 1;
    }
    assert(out@ =~= Seq::new(n as nat, |i: int| None::<i64>));
    out
}

impl OdomTracking {
    /// The configuration is one the tracker can work with, and one last
    /// reading is kept for each sensor.
    pub open spec fn wf(&self) -> bool {
        &&& self.sensors.wf()
        &&& self.prev_imu_angles.len() == self.sensors.imus.len()
        &&& self.prev_horizontal_distances.len() == self.sensors.horizontals.len()
        &&& self.prev_vertical_distances.len() == self.sensors.verticals.len()
    }

    /// Fused change of heading that the readings of one tick give.
    pub open spec fn heading_change(
        &self,
        rotations: Seq<Option<i64>>,
        horizontal: Seq<Option<i64>>,
        vertical: Seq<Option<i64>>,
    ) -> int {
        let imu_now = held_headings(rotations, self.prev_imu_angles@, self.sensors.imus@);
        let horizontal_now = held_distances(horizontal, self.prev_horizontal_distances@);
        let vertical_now = held_distances(vertical, self.prev_vertical_distances@);
        fuse_spec(
            imu_estimate_spec(changes(imu_now, self.prev_imu_angles@), self.sensors.imus@),
            pair_estimate_spec(
                changes(horizontal_now, self.prev_horizontal_distances@),
                self.sensors.horizontals@,
            ),
            pair_estimate_spec(
                changes(vertical_now, self.prev_vertical_distances@),
                self.sensors.verticals@,
            ),
            self.sensors.imu_angle_weight,
            self.sensors.horizontal_angle_weight,
            self.sensors.vertical_angle_weight,
        )
    }

    /// A tracker at the origin that has seen no reading yet.
    pub fn new(sensors: OdomSensors) -> (r: Self)
        ensures
            r.sensors == sensors,
            r.tracked_pose == (Pose { x: 0, y: 0, heading: 0 }),
            r.delta_global_pose == (Pose { x: 0, y: 0, heading: 0 }),
            r.prev_imu_angles@ == Seq::new(sensors.imus.len() as nat, |i: int| None::<i64>),
            r.prev_horizontal_distances@ == Seq::new(
                sensors.horizontals.len() as nat,
                |i: int| None::<i64>,
            ),
            r.prev_vertical_distances@ == Seq::new(
                sensors.verticals.len() as nat,
                |i: int| None::<i64>,
            ),
            r.wf() == sensors.wf(),
    {
        let prev_imu_angles = no_readings(sensors.imu_count());
        let prev_horizontal_distances = no_readings(sensors.horizontals_count());
        let prev_vertical_distances = no_readings(sensors.verticals_count());
        OdomTracking {
            sensors,
            tracked_pose: Pose { x: 0, y: 0, heading: 0 },
            delta_global_pose: Pose { x: 0, y: 0, heading: 0 },
            prev_imu_angles,
            prev_horizontal_distances,
            prev_vertical_distances,
        }
    }

    /// First step of a tick: takes the readings of every sensor, a missing
    /// one as `None`, keeps them as the last readings and returns the change
    /// of each wheel and the fused change of heading.
    pub fn measure(
        &mut self,
        rotations: &Vec<Option<i64>>,
        horizontal: &Vec<Option<i64>>,
        vertical: &Vec<Option<i64>>,
    ) -> (delta: OdomDelta)
        requires
            old(self).wf(),
            rotations.len() == old(self).sensors.imus.len(),
            horizontal.len() == old(self).sensors.horizontals.len(),
            vertical.len() == old(self).sensors.verticals.len(),
        ensures
            final(self).wf(),
            final(self).sensors == old(self).sensors,
            final(self).tracked_pose == old(self).tracked_pose,
            final(self).delta_global_pose == old(self).delta_global_pose,
            final(self).prev_imu_angles@ == held_headings(
                rotations@,
                old(self).prev_imu_angles@,
                old(self).sensors.imus@,
            ),
            final(self).prev_horizontal_distances@ == held_distances(
                horizontal@,
                old(self).prev_horizontal_distances@,
            ),
            final(self).prev_vertical_distances@ == held_distances(
                vertical@,
                old(self).prev_vertical_distances@,
            ),
            delta.horizontal@ == changes(
                final(self).prev_horizontal_distances@,
                old(self).prev_horizontal_distances@,
            ),
            delta.vertical@ == changes(
                final(self).prev_vertical_distances@,
                old(self).prev_vertical_distances@,
            ),
            delta.delta_angle == old(self).heading_change(rotations@, horizontal@, vertical@),
            delta.half_angle == quot(delta.delta_angle as int, 2),
            delta.mean_heading == saturate(old(self).tracked_pose.heading + delta.half_angle),
    {
        let imu_angles = hold_headings(rotations, &self.prev_imu_angles, &self.sensors.imus);
        let delta_imu_angles = sensor_changes(&imu_angles, &self.prev_imu_angles);
        let delta_imu_angle = imu_estimate(&delta_imu_angles, &self.sensors.imus);
        self.prev_imu_angles = imu_angles;

        let horizontal_distances = hold_distances(horizontal, &self.prev_horizontal_distances);
        let delta_horizontal = sensor_changes(
            &horizontal_distances,
            &self.prev_horizontal_distances,
        );
        let delta_horizontal_angle = pair_estimate(&delta_horizontal, &self.sensors.horizontals);
        self.prev_horizontal_distances = horizontal_distances;

        let vertical_distances = hold_distances(vertical, &self.prev_vertical_distances);
        let delta_vertical = sensor_changes(&vertical_distances, &self.prev_vertical_distances);
        let delta_vertical_angle = pair_estimate(&delta_vertical, &self.sensors.verticals);
        self.prev_vertical_distances = vertical_distances;

        let delta_angle: i64 = fuse(
            delta_imu_angle,
            delta_horizontal_angle,
            delta_vertical_angle,
            self.sensors.imu_angle_weight,
            self.sensors.horizontal_angle_weight,
            self.sensors.vertical_angle_weight,
        );
        let half_angle: i64 = narrow(quot_wide(delta_angle as i128, 2));
        let mean_heading: i64 = sat_add(self.tracked_pose.heading, half_angle);
        OdomDelta {
            delta_angle,
            half_angle,
            mean_heading,
            horizontal: delta_horizontal,
            vertical: delta_vertical,
        }
    }

    /// Second step of a tick: advances the pose by what `measure` returned,
    /// given the sine of `delta.half_angle` and the direction of
    /// `delta.mean_heading`.
    pub fn update(&mut self, delta: &OdomDelta, half_sine: i64, mean: Direction)
        requires
            delta.horizontal.len() == old(self).sensors.horizontals.len(),
            delta.vertical.len() == old(self).sensors.verticals.len(),
        ensures
            final(self).wf() == old(self).wf(),
            final(self).sensors == old(self).sensors,
            final(self).prev_imu_angles == old(self).prev_imu_angles,
            final(self).prev_horizontal_distances == old(self).prev_horizontal_distances,
            final(self).prev_vertical_distances == old(self).prev_vertical_distances,
            final(self).delta_global_pose.x == global_x(
                local_displacement_spec(
                    delta.vertical@,
                    old(self).sensors.verticals@,
                    delta.delta_angle,
                    half_sine,
                ),
                local_displacement_spec(
                    delta.horizontal@,
                    old(self).sensors.horizontals@,
                    delta.delta_angle,
                    half_sine,
                ),
                mean,
            ),
            final(self).delta_global_pose.y == global_y(
                local_displacement_spec(
                    delta.vertical@,
                    old(self).sensors.verticals@,
                    delta.delta_angle,
                    half_sine,
                ),
                local_displacement_spec(
                    delta.horizontal@,
                    old(self).sensors.horizontals@,
                    delta.delta_angle,
                    half_sine,
                ),
                mean,
            ),
            final(self).delta_global_pose.heading == delta.delta_angle,
            final(self).tracked_pose.x == saturate(
                old(self).tracked_pose.x + final(self).delta_global_pose.x,
            ),
            final(self).tracked_pose.y == saturate(
                old(self).tracked_pose.y + final(self).delta_global_pose.y,
            ),
            final(self).tracked_pose.heading == saturate(
                old(self).tracked_pose.heading + delta.delta_angle,
            ),
    {
        let local_horizontal: i64 = local_displacement(
            &delta.horizontal,
            &self.sensors.horizontals,
            delta.delta_angle,
            half_sine,
        );
        let local_vertical: i64 = local_displacement(
            &delta.vertical,
            &self.sensors.verticals,
            delta.delta_angle,
            half_sine,
        );
        let dx: i64 = sat_add(fx_mul(local_vertical, mean.cos), fx_mul(local_horizontal, mean.sin));
        let dy: i64 = sat_sub(fx_mul(local_vertical, mean.sin), fx_mul(local_horizontal, mean.cos));
        self.delta_global_pose = Pose { x: dx, y: dy, heading: delta.delta_angle };
        self.tracked_pose = Pose {
            x: sat_add(self.tracked_pose.x, dx),
            y: sat_add(self.tracked_pose.y, dy),
            heading: sat_add(self.tracked_pose.heading, delta.delta_angle),
        };
    }

    /// The pose estimate.
    pub fn position(&self) -> (r: Pose)
        ensures
            r == self.tracked_pose,
    {
        self.tracked_pose
    }

    /// Replaces the pose estimate; the last readings stay.
    pub fn set_position(&mut self, position: &Pose)
        ensures
            final(self).wf() == old(self).wf(),
            final(self).tracked_pose == *position,
            final(self).sensors == old(self).sensors,
            final(self).delta_global_pose == old(self).delta_global_pose,
            final(self).prev_imu_angles == old(self).prev_imu_angles,
            final(self).prev_horizontal_distances == old(self).prev_horizontal_distances,
            final(self).prev_vertical_distances == old(self).prev_vertical_distances,
    {
        self.tracked_pose = *position;
    }
}

} // verus!
