//! What holds of a motion to a point on every tick.

use vstd::prelude::*;
use crate::differential::chassis::Chassis;
use crate::differential::motions::linear::{
    slew_limit, timed_out, ExitReason, MotionStep, MoveToPoint,
};
use crate::differential::pose::{Direction, Pose, Vector2};
use crate::fixed::{lemma_norm_zero, magnitude, ONE};
use crate::utils::math::{arcade_left, arcade_right, delta_clamp_spec};

verus! {

/// A robot that stands on its target is within every early exit range above
/// zero: the tick ends the motion and gives no velocities.
pub proof fn lemma_at_target_arrives(
    motion: MoveToPoint,
    pose: Pose,
    facing: Direction,
    bearing: i64,
    now: u64,
)
    requires
        motion.target == (Vector2 { x: pose.x, y: pose.y }),
        motion.params.early_exit_range > 0,
    ensures
        motion.linear_error(pose, facing) == 0,
        motion.arrives(pose, facing),
        motion.outcome(pose, facing, bearing, now) == MotionStep::Done(ExitReason::EarlyExit),
{
    assert(facing.cos * 0 == 0 && facing.sin * 0 == 0) by (nonlinear_arith);
    assert(motion.local_x(pose, facing) == 0);
    assert(motion.local_y(pose, facing) == 0);
    lemma_norm_zero();
}

/// The first tick of a motion whose target is where the robot stands ends
/// it, where the early exit range is above zero and the motion has time
/// left.
pub proof fn lemma_tick_at_target_ends(
    chassis: Chassis,
    pose: Pose,
    facing: Direction,
    bearing: i64,
    now: u64,
)
    requires
        chassis.motion_handler.in_motion,
        !timed_out(chassis.motion.deadline, now),
        chassis.motion.target == (Vector2 { x: pose.x, y: pose.y }),
        chassis.motion.params.early_exit_range > 0,
    ensures
        chassis.tick_outcome(pose, facing, bearing, now) == MotionStep::Done(
            ExitReason::EarlyExit,
        ),
{
    lemma_at_target_arrives(chassis.motion, pose, facing, bearing, now);
}

/// A tick commands the drivetrain only for the motion that holds the slot,
/// and while one holds it no other motion can start: no two motions command
/// the drivetrain at once.
pub proof fn lemma_drive_excludes_start(
    chassis: Chassis,
    pose: Pose,
    facing: Direction,
    bearing: i64,
    now: u64,
)
    requires
        chassis.wf(),
    ensures
        chassis.tick_outcome(pose, facing, bearing, now) is Drive ==> !chassis.can_start(),
        chassis.can_start() ==> chassis.tick_outcome(pose, facing, bearing, now) is Done,
{
}

/// A motion that was asked to stop keeps the slot: no other motion can start
/// before the loop of the first has seen the request, and the tick that sees
/// it commands nothing.
pub proof fn lemma_stop_keeps_slot(
    chassis: Chassis,
    pose: Pose,
    facing: Direction,
    bearing: i64,
    now: u64,
)
    requires
        chassis.motion_handler.slot_taken,
        !chassis.motion_handler.in_motion,
    ensures
        !chassis.can_start(),
        chassis.tick_outcome(pose, facing, bearing, now) is Done,
{
}

/// An output under a slew limit above zero is no farther than the limit from
/// the output before it, whatever the output asked for.
pub proof fn lemma_slew_limits_change(target: int, previous: int, max_delta: int)
    requires
        max_delta > 0,
    ensures
        magnitude(delta_clamp_spec(target, previous, max_delta) - previous) <= max_delta,
{
}

/// Between two ticks in a row, the linear output of a motion with a linear
/// slew above zero changes by no more than the slew, and so does the angular
/// output with an angular slew.
pub proof fn lemma_outputs_slewed(
    motion: MoveToPoint,
    pose: Pose,
    facing: Direction,
    bearing: i64,
    now: u64,
)
    ensures
        slew_limit(motion.params.linear_slew) > 0 ==> magnitude(
            motion.linear_output(pose, facing, now) - motion.previous_linear_output,
        ) <= slew_limit(motion.params.linear_slew),
        slew_limit(motion.params.angular_slew) > 0 ==> magnitude(
            motion.angular_output(bearing, now) - motion.previous_angular_output,
        ) <= slew_limit(motion.params.angular_slew),
{
}

/// With no angular output both sides of the drivetrain get the same
/// velocity.
pub proof fn lemma_straight_drive(linear: int)
    ensures
        arcade_left(linear, 0) == arcade_right(linear, 0),
{
}

/// Both sides of the drivetrain stay within `-ONE ..= ONE`.
pub proof fn lemma_sides_bounded(linear: int, angular: int)
    ensures
        -ONE <= arcade_left(linear, angular) <= ONE,
        -ONE <= arcade_right(linear, angular) <= ONE,
{
    crate::utils::math::lemma_desaturated_bound(
        linear - angular,
        crate::utils::math::arcade_demand(linear, angular),
    );
    crate::utils::math::lemma_desaturated_bound(
        linear + angular,
        crate::utils::math::arcade_demand(linear, angular),
    );
}

} // verus!
