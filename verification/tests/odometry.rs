use motion_core::differential::pose::{Direction, Pose};
use motion_core::fixed::ONE;
use motion_core::tracking::odom::{
    check_offsets, check_weights, fuse, hold_distances, hold_headings, imu_estimate,
    local_displacement, no_readings, pair_estimate, sensor_changes, OdomDelta, OdomInertial,
    OdomSensors, OdomTracking, OdomWheel, MAX_SENSORS, MAX_WEIGHT,
};

fn imu(weight: i64) -> OdomInertial {
    OdomInertial::new(ONE, weight)
}

fn wheels(offsets: &[i64]) -> Vec<OdomWheel> {
    offsets.iter().map(|o| OdomWheel::new(*o)).collect()
}

fn imu_only(weights: &[i64]) -> OdomTracking {
    let imus = weights.iter().map(|w| imu(*w)).collect();
    OdomTracking::new(OdomSensors::new(imus, vec![], vec![], ONE, 0, 0))
}

#[test]
fn sensor_counts() {
    let sensors = OdomSensors::new(
        vec![imu(ONE), imu(ONE), imu(ONE)],
        wheels(&[ONE]),
        wheels(&[ONE, -ONE]),
        ONE,
        ONE,
        ONE,
    );
    assert_eq!(sensors.imu_count(), 3);
    assert_eq!(sensors.horizontals_count(), 1);
    assert_eq!(sensors.verticals_count(), 2);
}

#[test]
fn sensor_constructors_keep_their_arguments() {
    let inertial = OdomInertial::new(3, 4);
    assert_eq!(inertial.scalar, 3);
    assert_eq!(inertial.weight, 4);
    assert_eq!(OdomWheel::new(-7).offset(), -7);
}

#[test]
fn valid_configuration_is_accepted() {
    let sensors = OdomSensors::new(
        vec![imu(ONE), imu(0), imu(MAX_WEIGHT)],
        wheels(&[ONE, -ONE, 0]),
        wheels(&[5]),
        0,
        MAX_WEIGHT,
        ONE,
    );
    assert!(sensors.is_valid());
    assert!(OdomSensors::new(vec![], vec![], vec![], 0, 0, 0).is_valid());
}

#[test]
fn equal_offsets_are_refused() {
    let horizontal = OdomSensors::new(vec![], wheels(&[ONE, 2 * ONE, ONE]), vec![], ONE, ONE, ONE);
    assert!(!horizontal.is_valid());
    let vertical = OdomSensors::new(vec![], vec![], wheels(&[0, 0]), ONE, ONE, ONE);
    assert!(!vertical.is_valid());
    assert!(!check_offsets(&wheels(&[3, 4, 5, 3])));
    assert!(check_offsets(&wheels(&[3, 4, 5, 6])));
    assert!(check_offsets(&wheels(&[])));
}

#[test]
fn weights_out_of_range_are_refused() {
    let one = |weight: i64| OdomSensors::new(vec![imu(weight)], vec![], vec![], ONE, ONE, ONE);
    assert!(!one(MAX_WEIGHT + 1).is_valid());
    assert!(!one(-MAX_WEIGHT - 1).is_valid());
    assert!(!one(i64::MIN).is_valid());
    assert!(one(MAX_WEIGHT).is_valid());
    assert!(one(-MAX_WEIGHT).is_valid());
    assert!(!OdomSensors::new(vec![], vec![], vec![], -MAX_WEIGHT - 1, ONE, ONE).is_valid());
    assert!(!OdomSensors::new(vec![], vec![], vec![], ONE, MAX_WEIGHT + 1, ONE).is_valid());
    assert!(!OdomSensors::new(vec![], vec![], vec![], ONE, ONE, i64::MAX).is_valid());
    assert!(OdomSensors::new(vec![], vec![], vec![], -1, 0, -MAX_WEIGHT).is_valid());
    assert!(!check_weights(&vec![imu(ONE), imu(MAX_WEIGHT + 1)]));
    assert!(check_weights(&vec![imu(ONE), imu(0), imu(-5)]));
}

#[test]
fn weights_below_zero_count_with_their_sign() {
    let deltas = vec![Some(100_000), Some(300_000)];
    // (0.1 * -1 + 0.3 * 3) / 2
    assert_eq!(imu_estimate(&deltas, &vec![imu(-ONE), imu(3 * ONE)]), Some(400_000));
    // weights that sum to zero or less give no estimate
    assert_eq!(imu_estimate(&deltas, &vec![imu(-ONE), imu(ONE)]), None);
    assert_eq!(imu_estimate(&deltas, &vec![imu(-ONE), imu(0)]), None);
    assert_eq!(fuse(Some(100_000), Some(300_000), None, -ONE, 3 * ONE, ONE), 400_000);
    assert_eq!(fuse(Some(100_000), Some(300_000), None, -ONE, ONE, ONE), 0);
}

#[test]
fn sensor_limit_is_more_than_a_million() {
    assert_eq!(MAX_SENSORS, 1_048_576);
}

#[test]
fn too_many_sensors_are_refused() {
    let many: Vec<OdomInertial> = (0..MAX_SENSORS + 1).map(|_| imu(ONE)).collect();
    assert!(!OdomSensors::new(many, vec![], vec![], ONE, ONE, ONE).is_valid());
    let most: Vec<OdomInertial> = (0..MAX_SENSORS).map(|_| imu(ONE)).collect();
    assert!(OdomSensors::new(most, vec![], vec![], ONE, ONE, ONE).is_valid());
}

#[test]
fn new_tracker_is_at_the_origin_without_readings() {
    let tracker = OdomTracking::new(OdomSensors::new(
        vec![imu(ONE), imu(ONE)],
        wheels(&[ONE]),
        wheels(&[ONE, -ONE, 0]),
        ONE,
        ONE,
        ONE,
    ));
    assert_eq!(tracker.tracked_pose, Pose::new(0, 0, 0));
    assert_eq!(tracker.delta_global_pose, Pose::new(0, 0, 0));
    assert_eq!(tracker.prev_imu_angles, vec![None, None]);
    assert_eq!(tracker.prev_horizontal_distances, vec![None]);
    assert_eq!(tracker.prev_vertical_distances, vec![None, None, None]);
    assert_eq!(no_readings(0), Vec::<Option<i64>>::new());
}

#[test]
fn position_can_be_set_and_read() {
    let mut tracker = imu_only(&[ONE]);
    assert_eq!(tracker.position(), Pose::new(0, 0, 0));
    tracker.set_position(&Pose::new(-62 * ONE, 0, -1_570_796));
    assert_eq!(tracker.position(), Pose::new(-62 * ONE, 0, -1_570_796));
}

#[test]
fn missing_reading_is_held() {
    let previous = vec![Some(5), None, Some(7), None];
    let readings = vec![Some(6), Some(1), None, None];
    assert_eq!(hold_distances(&readings, &previous), vec![Some(6), Some(1), Some(7), None]);
}

#[test]
fn rotation_is_negated_and_scaled() {
    let imus = vec![OdomInertial::new(ONE, ONE), OdomInertial::new(2 * ONE, ONE), imu(ONE)];
    let previous = vec![None, Some(9), Some(11)];
    let rotations = vec![Some(100_000), Some(-100_000), None];
    assert_eq!(
        hold_headings(&rotations, &previous, &imus),
        vec![Some(-100_000), Some(200_000), Some(11)]
    );
}

#[test]
fn change_needs_both_readings() {
    let previous = vec![Some(5), None, Some(7), None];
    let current = vec![Some(8), Some(1), Some(7), None];
    assert_eq!(sensor_changes(&current, &previous), vec![Some(3), None, Some(0), None]);
}

#[test]
fn change_saturates() {
    let previous = vec![Some(i64::MIN), Some(i64::MAX)];
    let current = vec![Some(i64::MAX), Some(i64::MIN)];
    assert_eq!(sensor_changes(&current, &previous), vec![Some(i64::MAX), Some(i64::MIN)]);
}

#[test]
fn imu_estimate_is_the_weighted_average() {
    let deltas = vec![Some(100_000), Some(300_000)];
    assert_eq!(imu_estimate(&deltas, &vec![imu(ONE), imu(ONE)]), Some(200_000));
    assert_eq!(imu_estimate(&deltas, &vec![imu(ONE), imu(3 * ONE)]), Some(250_000));
    assert_eq!(imu_estimate(&deltas, &vec![imu(1), imu(2)]), Some(233_333));
}

#[test]
fn imu_estimate_with_one_weight_is_that_sensor() {
    let deltas = vec![Some(100_000), Some(300_000), Some(-777)];
    assert_eq!(imu_estimate(&deltas, &vec![imu(0), imu(5 * ONE), imu(0)]), Some(300_000));
    assert_eq!(imu_estimate(&deltas, &vec![imu(0), imu(0), imu(1)]), Some(-777));
    let ends = vec![Some(i64::MIN), Some(i64::MAX)];
    assert_eq!(imu_estimate(&ends, &vec![imu(MAX_WEIGHT), imu(0)]), Some(i64::MIN));
    assert_eq!(imu_estimate(&ends, &vec![imu(0), imu(MAX_WEIGHT)]), Some(i64::MAX));
}

#[test]
fn imu_estimate_leaves_out_sensors_without_change() {
    let deltas = vec![None, Some(300_000)];
    assert_eq!(imu_estimate(&deltas, &vec![imu(ONE), imu(ONE)]), Some(300_000));
}

#[test]
fn imu_estimate_is_nothing_without_weight() {
    assert_eq!(imu_estimate(&vec![], &vec![]), None);
    assert_eq!(imu_estimate(&vec![None, None], &vec![imu(ONE), imu(ONE)]), None);
    assert_eq!(imu_estimate(&vec![Some(5), None], &vec![imu(0), imu(ONE)]), None);
}

#[test]
fn pair_estimate_divides_by_the_offset_difference() {
    let deltas = vec![Some(ONE), Some(-ONE)];
    assert_eq!(pair_estimate(&deltas, &wheels(&[5 * ONE, -5 * ONE])), Some(200_000));
    assert_eq!(pair_estimate(&deltas, &wheels(&[-5 * ONE, 5 * ONE])), Some(-200_000));
}

#[test]
fn pair_estimate_averages_all_pairs() {
    // pairs: (0,1) -> 2/10, (0,2) -> 1/5, (1,2) -> -1/-5
    let deltas = vec![Some(ONE), Some(-ONE), Some(0)];
    let family = wheels(&[5 * ONE, -5 * ONE, 0]);
    assert_eq!(pair_estimate(&deltas, &family), Some(200_000));
    // pairs: (0,1) -> 3/1, (0,2) -> 3/2, (1,2) -> 0/1
    let deltas = vec![Some(3 * ONE), Some(0), Some(0)];
    let family = wheels(&[2 * ONE, ONE, 0]);
    assert_eq!(pair_estimate(&deltas, &family), Some(1_500_000));
}

#[test]
fn pair_estimate_leaves_out_wheels_without_change() {
    let deltas = vec![Some(3 * ONE), None, Some(0)];
    let family = wheels(&[2 * ONE, ONE, 0]);
    assert_eq!(pair_estimate(&deltas, &family), Some(1_500_000));
}

#[test]
fn pair_estimate_needs_two_wheels() {
    assert_eq!(pair_estimate(&vec![], &wheels(&[])), None);
    assert_eq!(pair_estimate(&vec![Some(ONE)], &wheels(&[ONE])), None);
    assert_eq!(pair_estimate(&vec![Some(ONE), None], &wheels(&[ONE, 0])), None);
}

#[test]
fn pair_estimate_saturates() {
    let deltas = vec![Some(i64::MAX), Some(i64::MIN)];
    assert_eq!(pair_estimate(&deltas, &wheels(&[1, 0])), Some(i64::MAX));
    assert_eq!(pair_estimate(&deltas, &wheels(&[0, 1])), Some(i64::MIN));
}

#[test]
fn fuse_is_the_weighted_average_of_the_families() {
    assert_eq!(fuse(Some(100_000), Some(200_000), Some(600_000), ONE, ONE, ONE), 300_000);
    assert_eq!(fuse(Some(100_000), Some(200_000), Some(600_000), 2 * ONE, ONE, ONE), 250_000);
    assert_eq!(fuse(Some(-100_000), Some(100_000), None, ONE, 3 * ONE, ONE), 50_000);
}

#[test]
fn fuse_with_one_weight_is_that_family() {
    assert_eq!(fuse(Some(123_456), Some(9), Some(-9), 7, 0, 0), 123_456);
    assert_eq!(fuse(Some(9), Some(123_456), Some(-9), 0, 7, 0), 123_456);
    assert_eq!(fuse(Some(9), Some(-9), Some(123_456), 0, 0, 7), 123_456);
    assert_eq!(fuse(Some(i64::MIN), None, None, MAX_WEIGHT, 0, 0), i64::MIN);
}

#[test]
fn fuse_leaves_out_families_without_estimate() {
    assert_eq!(fuse(None, Some(200_000), None, ONE, ONE, ONE), 200_000);
    assert_eq!(fuse(Some(100_000), None, Some(300_000), ONE, 5 * ONE, ONE), 200_000);
}

#[test]
fn fuse_divides_by_a_weight_sum_below_zero() {
    assert_eq!(fuse(Some(500_000), None, None, -ONE, 0, 0), 500_000);
    assert_eq!(fuse(Some(500_000), Some(9), Some(9), -1, 0, 0), 500_000);
    // (0.1 * -3 + 0.3 * 1) / -2 = 0, (0.1 * -3 + 0.5 * 1) / -2 = -0.1
    assert_eq!(fuse(Some(100_000), Some(300_000), None, -3 * ONE, ONE, ONE), 0);
    assert_eq!(fuse(Some(100_000), Some(500_000), None, -3 * ONE, ONE, ONE), -100_000);
    assert_eq!(fuse(Some(100_000), Some(200_000), Some(600_000), -ONE, -ONE, -ONE), 300_000);
}

#[test]
fn measure_with_a_family_weight_below_zero() {
    let sensors = OdomSensors::new(vec![imu(ONE)], vec![], vec![], -ONE, 0, 0);
    assert!(sensors.is_valid());
    let mut tracker = OdomTracking::new(sensors);
    tracker.measure(&vec![Some(0)], &vec![], &vec![]);
    let delta = tracker.measure(&vec![Some(-500_000)], &vec![], &vec![]);
    assert_eq!(delta.delta_angle, 500_000);
    tracker.update(&delta, 247_404, Direction::new(968_912, 247_404));
    assert_eq!(tracker.position().heading, 500_000);
}

#[test]
fn fuse_is_zero_without_weight() {
    assert_eq!(fuse(None, None, None, ONE, ONE, ONE), 0);
    assert_eq!(fuse(Some(5), None, Some(7), 0, ONE, 0), 0);
}

#[test]
fn straight_displacement_is_the_plain_average() {
    let family = wheels(&[ONE, -ONE, 3 * ONE]);
    let deltas = vec![Some(2 * ONE), None, Some(4 * ONE)];
    assert_eq!(local_displacement(&deltas, &family, 0, 0), 3 * ONE);
    assert_eq!(local_displacement(&deltas, &family, 0, 999_999), 3 * ONE);
    assert_eq!(local_displacement(&vec![Some(-5), Some(2)], &wheels(&[0, 1]), 0, 0), -1);
}

#[test]
fn displacement_is_zero_without_change() {
    assert_eq!(local_displacement(&vec![], &wheels(&[]), 0, 0), 0);
    assert_eq!(local_displacement(&vec![None], &wheels(&[ONE]), 500_000, 247_404), 0);
}

#[test]
fn turning_displacement_is_the_chord() {
    // a turn of 0.5 with sin(0.25) = 0.247404
    let family = wheels(&[ONE]);
    assert_eq!(local_displacement(&vec![Some(ONE)], &family, 500_000, 247_404), 494_808);
    let strafe = wheels(&[3 * ONE]);
    assert_eq!(local_displacement(&vec![Some(200_000)], &strafe, 500_000, 247_404), -1_286_500);
    // the wheel on the centre of the turn adds nothing
    assert_eq!(local_displacement(&vec![Some(ONE)], &wheels(&[2 * ONE]), 500_000, 247_404), 0);
}

#[test]
fn turning_displacement_averages_the_wheels() {
    let family = wheels(&[ONE, 2 * ONE]);
    let deltas = vec![Some(ONE), Some(ONE)];
    assert_eq!(local_displacement(&deltas, &family, 500_000, 247_404), 247_404);
}

#[test]
fn first_tick_shows_no_change() {
    let mut tracker = imu_only(&[ONE, ONE]);
    let delta = tracker.measure(&vec![Some(-100_000), Some(-300_000)], &vec![], &vec![]);
    assert_eq!(delta.delta_angle, 0);
    assert_eq!(tracker.prev_imu_angles, vec![Some(100_000), Some(300_000)]);
}

#[test]
fn measure_fuses_the_inertial_sensors() {
    let mut tracker = imu_only(&[ONE, 3 * ONE]);
    tracker.measure(&vec![Some(0), Some(0)], &vec![], &vec![]);
    let delta = tracker.measure(&vec![Some(-100_000), Some(-300_000)], &vec![], &vec![]);
    assert_eq!(delta.delta_angle, 250_000);
    assert_eq!(delta.half_angle, 125_000);
    assert_eq!(delta.mean_heading, 125_000);
    assert!(delta.horizontal.is_empty());
    assert!(delta.vertical.is_empty());
    assert_eq!(tracker.tracked_pose, Pose::new(0, 0, 0));
}

#[test]
fn measure_rounds_half_the_turn_toward_zero() {
    let mut tracker = imu_only(&[ONE]);
    tracker.set_position(&Pose::new(0, 0, ONE));
    tracker.measure(&vec![Some(0)], &vec![], &vec![]);
    let delta = tracker.measure(&vec![Some(3)], &vec![], &vec![]);
    assert_eq!(delta.delta_angle, -3);
    assert_eq!(delta.half_angle, -1);
    assert_eq!(delta.mean_heading, ONE - 1);
}

#[test]
fn measure_with_every_sensor_valid_equals_the_average_of_the_families() {
    let sensors = OdomSensors::new(
        vec![imu(ONE), imu(ONE)],
        wheels(&[5 * ONE, -5 * ONE]),
        wheels(&[2 * ONE, ONE]),
        2 * ONE,
        ONE,
        ONE,
    );
    assert!(sensors.is_valid());
    let mut tracker = OdomTracking::new(sensors);
    tracker.measure(
        &vec![Some(0), Some(0)],
        &vec![Some(0), Some(0)],
        &vec![Some(10 * ONE), Some(10 * ONE)],
    );
    let delta = tracker.measure(
        &vec![Some(-100_000), Some(-300_000)],
        &vec![Some(ONE), Some(-ONE)],
        &vec![Some(10 * ONE + 400_000), Some(10 * ONE)],
    );
    // inertial: 0.2, horizontal pair: 2.0 / 10 = 0.2, vertical pair: 0.4 / 1 = 0.4
    // fused: (0.2 * 2 + 0.2 + 0.4) / 4 = 0.25
    assert_eq!(delta.delta_angle, 250_000);
    assert_eq!(delta.horizontal, vec![Some(ONE), Some(-ONE)]);
    assert_eq!(delta.vertical, vec![Some(400_000), Some(0)]);
}

#[test]
fn failing_sensor_is_frozen_at_its_last_reading() {
    let mut tracker = imu_only(&[ONE, ONE]);
    tracker.measure(&vec![Some(0), Some(0)], &vec![], &vec![]);
    tracker.measure(&vec![Some(-100_000), Some(-300_000)], &vec![], &vec![]);
    for _ in 0..5 {
        let delta = tracker.measure(&vec![None, Some(-300_000)], &vec![], &vec![]);
        assert_eq!(delta.delta_angle, 0);
        assert_eq!(tracker.prev_imu_angles, vec![Some(100_000), Some(300_000)]);
    }
    // the dead sensor adds a change of zero with its weight
    let delta = tracker.measure(&vec![None, Some(-500_000)], &vec![], &vec![]);
    assert_eq!(delta.delta_angle, 100_000);
}

#[test]
fn sensor_that_never_read_adds_nothing() {
    let mut tracker = imu_only(&[ONE, ONE]);
    tracker.measure(&vec![None, Some(0)], &vec![], &vec![]);
    let delta = tracker.measure(&vec![None, Some(-300_000)], &vec![], &vec![]);
    assert_eq!(delta.delta_angle, 300_000);
    assert_eq!(tracker.prev_imu_angles, vec![None, Some(300_000)]);
}

#[test]
fn failing_wheel_adds_no_distance() {
    let sensors = OdomSensors::new(vec![], vec![], wheels(&[ONE]), 0, 0, 0);
    let mut tracker = OdomTracking::new(sensors);
    tracker.measure(&vec![], &vec![], &vec![Some(ONE)]);
    let moved = tracker.measure(&vec![], &vec![], &vec![Some(3 * ONE)]);
    assert_eq!(moved.vertical, vec![Some(2 * ONE)]);
    tracker.update(&moved, 0, Direction::new(ONE, 0));
    assert_eq!(tracker.position(), Pose::new(2 * ONE, 0, 0));
    for _ in 0..5 {
        let held = tracker.measure(&vec![], &vec![], &vec![None]);
        assert_eq!(held.vertical, vec![Some(0)]);
        tracker.update(&held, 0, Direction::new(ONE, 0));
        assert_eq!(tracker.position(), Pose::new(2 * ONE, 0, 0));
        assert_eq!(tracker.prev_vertical_distances, vec![Some(3 * ONE)]);
    }
}

#[test]
fn straight_tick_moves_along_the_heading() {
    let sensors = OdomSensors::new(vec![], wheels(&[0]), wheels(&[5 * ONE, -5 * ONE]), 0, 0, ONE);
    let mut tracker = OdomTracking::new(sensors);
    tracker.measure(&vec![], &vec![Some(0)], &vec![Some(0), Some(0)]);
    let delta = tracker.measure(&vec![], &vec![Some(0)], &vec![Some(2 * ONE), Some(2 * ONE)]);
    assert_eq!(delta.delta_angle, 0);
    tracker.update(&delta, 0, Direction::new(ONE, 0));
    assert_eq!(tracker.position(), Pose::new(2 * ONE, 0, 0));
    assert_eq!(tracker.delta_global_pose, Pose::new(2 * ONE, 0, 0));
}

#[test]
fn straight_tick_does_not_depend_on_the_sine_handed_in() {
    let mut outcomes: Vec<Pose> = Vec::new();
    for half_sine in [0, 1, -1, 247_404, ONE, i64::MAX, i64::MIN] {
        let sensors = OdomSensors::new(vec![], wheels(&[3 * ONE]), wheels(&[ONE, -ONE]), 0, 0, ONE);
        let mut tracker = OdomTracking::new(sensors);
        tracker.measure(&vec![], &vec![Some(0)], &vec![Some(0), Some(0)]);
        let delta =
            tracker.measure(&vec![], &vec![Some(ONE)], &vec![Some(2 * ONE), Some(2 * ONE)]);
        assert_eq!(delta.delta_angle, 0);
        tracker.update(&delta, half_sine, Direction::new(ONE, 0));
        outcomes.push(tracker.position());
    }
    for pose in &outcomes {
        assert_eq!(*pose, Pose::new(2 * ONE, -ONE, 0));
    }
}

#[test]
fn heading_at_a_quarter_turn_swaps_the_axes() {
    // facing up the field: forward is +y, strafe is +x
    let sensors = OdomSensors::new(vec![], wheels(&[0]), wheels(&[0]), 0, 0, 0);
    let mut tracker = OdomTracking::new(sensors);
    tracker.set_position(&Pose::new(ONE, ONE, 1_570_796));
    tracker.measure(&vec![], &vec![Some(0)], &vec![Some(0)]);
    let delta = tracker.measure(&vec![], &vec![Some(3 * ONE)], &vec![Some(2 * ONE)]);
    tracker.update(&delta, 0, Direction::new(0, ONE));
    assert_eq!(tracker.delta_global_pose, Pose::new(3 * ONE, 2 * ONE, 0));
    assert_eq!(tracker.position(), Pose::new(4 * ONE, 3 * ONE, 1_570_796));
}

#[test]
fn turning_tick_corrects_for_the_arc() {
    let sensors =
        OdomSensors::new(vec![imu(ONE)], wheels(&[3 * ONE]), wheels(&[ONE]), ONE, 0, 0);
    let mut tracker = OdomTracking::new(sensors);
    tracker.measure(&vec![Some(0)], &vec![Some(0)], &vec![Some(0)]);
    let delta = tracker.measure(&vec![Some(-500_000)], &vec![Some(200_000)], &vec![Some(ONE)]);
    assert_eq!(delta.delta_angle, 500_000);
    assert_eq!(delta.half_angle, 250_000);
    assert_eq!(delta.mean_heading, 250_000);
    // sin(0.25) = 0.247404, cos(0.25) = 0.968912
    tracker.update(&delta, 247_404, Direction::new(968_912, 247_404));
    assert_eq!(tracker.delta_global_pose, Pose::new(161_140, 1_368_922, 500_000));
    assert_eq!(tracker.position(), Pose::new(161_140, 1_368_922, 500_000));
}

#[test]
fn heading_accumulates_without_wrapping() {
    let mut tracker = imu_only(&[ONE]);
    tracker.measure(&vec![Some(0)], &vec![], &vec![]);
    let mut rotation: i64 = 0;
    for _ in 0..10 {
        rotation -= ONE;
        let delta = tracker.measure(&vec![Some(rotation)], &vec![], &vec![]);
        tracker.update(&delta, 479_425, Direction::new(ONE, 0));
    }
    // ten radians, more than a full turn
    assert_eq!(tracker.position().heading, 10 * ONE);
}

#[test]
fn pose_saturates() {
    let sensors = OdomSensors::new(vec![], vec![], wheels(&[0]), 0, 0, 0);
    let mut tracker = OdomTracking::new(sensors);
    tracker.set_position(&Pose::new(i64::MAX - 5, 0, 0));
    tracker.measure(&vec![], &vec![], &vec![Some(0)]);
    let delta = tracker.measure(&vec![], &vec![], &vec![Some(100)]);
    tracker.update(&delta, 0, Direction::new(ONE, 0));
    assert_eq!(tracker.position(), Pose::new(i64::MAX, 0, 0));
}

#[test]
fn update_takes_any_delta_of_the_right_size() {
    let sensors = OdomSensors::new(vec![], wheels(&[0]), wheels(&[0]), 0, 0, 0);
    let mut tracker = OdomTracking::new(sensors);
    let delta = OdomDelta {
        delta_angle: 0,
        half_angle: 0,
        mean_heading: 0,
        horizontal: vec![Some(-ONE)],
        vertical: vec![None],
    };
    tracker.update(&delta, 0, Direction::new(ONE, 0));
    // at a heading of zero a strafe to the right is a move down the field
    assert_eq!(tracker.position(), Pose::new(0, ONE, 0));
}
