//! Motion to a point and motion along the heading.
//!
//! A motion is started by `Chassis::move_to_point` or
//! `Chassis::move_relative` and then advanced by `Chassis::tick`, once per
//! write to the drivetrain, until a tick says that it is done.

use vstd::prelude::*;
use crate::controllers::pid::PID;
use crate::controllers::ControllerMethod;
use crate::differential::chassis::Chassis;
use crate::differential::motions::{
    all_cleared, all_updated, any_settled, MotionHandler, ToleranceGroup,
};
use crate::differential::pose::{across, along, Direction, Pose, Vector2};
use crate::fixed::{
    clamp_spec, clamp_symmetric, magnitude, mul_spec, norm_spec, sat_add, sat_neg, sat_sub,
    saturate, ONE,
};
use crate::utils::math::{
    arcade_desaturate, arcade_left, arcade_right, delta_clamp, delta_clamp_spec,
};

verus! {

/// Distance to the target under which the robot counts as near it.
pub const NEAR_RANGE: i64 = 5_000_000;

/// Largest linear speed once the robot is near the target.
pub const NEAR_MAX_LINEAR_SPEED: i64 = 600_000;

/// How one motion to a point is to be driven.
#[derive(Clone, Copy, Debug, PartialEq, Eq, Structural)]
pub struct MoveToPointParameters {
    /// Whether the robot drives with its front toward the target.
    pub forwards: bool,
    /// Smallest size of a linear output other than zero.
    pub min_linear_speed: i64,
    /// Largest size of the linear output.
    pub max_linear_speed: i64,
    /// Largest size of the angular output.
    pub max_angular_speed: i64,
    /// Distance to the target under which the motion ends at once.
    pub early_exit_range: i64,
    /// Largest change of the linear output in one tick; no limit if absent.
    pub linear_slew: Option<i64>,
    /// Largest change of the angular output in one tick; no limit if absent.
    pub angular_slew: Option<i64>,
}

/// How one motion along the heading is to be driven.
#[derive(Clone, Copy, Debug, PartialEq, Eq, Structural)]
pub struct MoveRelativeParameters {
    pub min_linear_speed: i64,
    pub max_linear_speed: i64,
    pub early_exit_range: i64,
    pub linear_slew: Option<i64>,
}

/// The controllers and the convergence check of a motion.
pub struct MoveToPointSettings {
    pub linear_controller: PID,
    pub angular_controller: PID,
    pub linear_tolerances: ToleranceGroup,
}

/// The point that a motion drives to.
#[derive(Clone, Copy, Debug, PartialEq, Eq, Structural)]
pub struct MoveToPointTarget(pub Vector2);

/// Why a motion ended.
#[derive(Clone, Copy, Debug, PartialEq, Eq, Structural)]
pub enum ExitReason {
    /// The time allowed for the motion has passed.
    Timeout,
    /// The motion was asked to stop, or none was in progress.
    Cancelled,
    /// The robot came within the early exit range of the target.
    EarlyExit,
    /// The error settled while the robot was near the target.
    Settled,
}

/// What one tick of a motion asks of the caller.
#[derive(Clone, Copy, Debug, PartialEq, Eq, Structural)]
pub enum MotionStep {
    /// Command the two sides of the drivetrain and tick again after the
    /// drivetrain's write interval.
    Drive { left: i64, right: i64 },
    /// The motion is over and the slot is free.
    Done(ExitReason),
}

/// A motion to a point, between two ticks.
pub struct MoveToPoint {
    pub target: Vector2,
    pub params: MoveToPointParameters,
    pub settings: MoveToPointSettings,
    /// Time in microseconds at which the motion gives up.
    pub deadline: Option<u64>,
    /// Whether the robot has been near the target.
    pub is_near: bool,
    /// Pose at the last tick.
    pub previous_pose: Pose,
    pub previous_linear_output: i64,
    pub previous_angular_output: i64,
}

/// The limit that a slew stands for: zero, which is no limit, where absent.
pub open spec fn slew_limit(slew: Option<i64>) -> int {
    match slew {
        Some(limit) => limit as int,
        None => 0,
    }
}

/// An output whose size is under `min` becomes one of size `min` with the
/// same sign; zero counts as positive.
pub open spec fn snap(output: int, min: int) -> int {
    if magnitude(output) < min {
        if output < 0 {
            -min
        } else {
            min
        }
    } else {
        output
    }
}

/// Away from the target the robot does not reverse: an output below zero
/// becomes zero.
pub open spec fn hold_back(output: int, near: bool) -> int {
    if output < 0 && !near {
        0
    } else {
        output
    }
}

/// The linear output that follows from the controller's correction.
pub open spec fn shape_linear(
    raw: int,
    min: int,
    max: int,
    near: bool,
    previous: int,
    slew: Option<i64>,
) -> int {
    delta_clamp_spec(hold_back(snap(clamp_spec(raw, max), min), near), previous, slew_limit(slew))
}

/// The angular output that follows from the controller's correction.
pub open spec fn shape_angular(raw: int, max: int, previous: int, slew: Option<i64>) -> int {
    delta_clamp_spec(clamp_spec(raw, max), previous, slew_limit(slew))
}

/// Time at which a motion started at `now` gives up.
pub open spec fn deadline_spec(timeout: Option<u64>, now: u64) -> Option<u64> {
    match timeout {
        Some(allowed) => Some(
            if now + allowed > u64::MAX {
                u64::MAX
            } else {
                (now + allowed) as u64
            },
        ),
        None => None,
    }
}

/// Whether a motion with this deadline has to give up at `now`.
pub open spec fn timed_out(deadline: Option<u64>, now: u64) -> bool {
    match deadline {
        Some(end) => now >= end,
        None => false,
    }
}

impl MoveToPointParameters {
    /// Limits that a motion can be driven with: none below zero.
    pub open spec fn wf(&self) -> bool {
        &&& self.max_linear_speed >= 0
        &&& self.max_angular_speed >= 0
        &&& slew_limit(self.linear_slew) >= 0
        &&& slew_limit(self.angular_slew) >= 0
    }

    /// The parameters of a motion that names none.
    pub open spec fn default_spec() -> Self {
        MoveToPointParameters {
            forwards: true,
            min_linear_speed: 0,
            max_linear_speed: ONE,
            max_angular_speed: ONE,
            early_exit_range: 0,
            linear_slew: None,
            angular_slew: None,
        }
    }

    /// The parameters of a motion along the heading.
    pub open spec fn relative_spec(distance: i64, params: Option<MoveRelativeParameters>) -> Self {
        match params {
            Some(given) => MoveToPointParameters {
                forwards: distance > 0,
                min_linear_speed: given.min_linear_speed,
                max_linear_speed: given.max_linear_speed,
                max_angular_speed: ONE,
                early_exit_range: given.early_exit_range,
                linear_slew: given.linear_slew,
                angular_slew: None,
            },
            None => MoveToPointParameters {
                forwards: distance > 0,
                min_linear_speed: 0,
                max_linear_speed: ONE,
                max_angular_speed: ONE,
                early_exit_range: 0,
                linear_slew: None,
                angular_slew: None,
            },
        }
    }

    /// Whether a motion can be driven with these limits.
    pub fn is_valid(&self) -> (r: bool)
        ensures
            r == self.wf(),
    {
        let linear_ok: bool = match self.linear_slew {
            Some(limit) => limit >= 0,
            None => true,
        };
        let angular_ok: bool = match self.angular_slew {
            Some(limit) => limit >= 0,
            None => true,
        };
        self.max_linear_speed >= 0 && self.max_angular_speed >= 0 && linear_ok && angular_ok
    }
}

impl Default for MoveToPointParameters {
    fn default() -> (r: Self)
        ensures
            r == MoveToPointParameters::default_spec(),
    {
        MoveToPointParameters {
            forwards: true,
            min_linear_speed: 0,
            max_linear_speed: ONE,
            max_angular_speed: ONE,
            early_exit_range: 0,
            linear_slew: None,
            angular_slew: None,
        }
    }
}

impl Default for MoveRelativeParameters {
    fn default() -> (r: Self)
        ensures
            r == (MoveRelativeParameters {
                min_linear_speed: 0,
                max_linear_speed: ONE,
                early_exit_range: 0,
                linear_slew: None,
            }),
    {
        MoveRelativeParameters {
            min_linear_speed: 0,
            max_linear_speed: ONE,
            early_exit_range: 0,
            linear_slew: None,
        }
    }
}

impl MoveToPointSettings {
    /// The settings with nothing accumulated.
    pub open spec fn is_cleared_from(&self, before: &MoveToPointSettings) -> bool {
        &&& self.linear_controller == before.linear_controller.cleared()
        &&& self.angular_controller == before.angular_controller.cleared()
        &&& self.linear_tolerances.members@ == all_cleared(before.linear_tolerances.members@)
    }

    pub fn new(
        linear_controller: PID,
        angular_controller: PID,
        linear_tolerances: ToleranceGroup,
    ) -> (r: Self)
        ensures
            r.linear_controller == linear_controller,
            r.angular_controller == angular_controller,
            r.linear_tolerances == linear_tolerances,
    {
        MoveToPointSettings { linear_controller, angular_controller, linear_tolerances }
    }

    /// Clears both controllers and the convergence check.
    pub fn reset(&mut self)
        ensures
            final(self).is_cleared_from(old(self)),
    {
        self.linear_controller.reset();
        self.angular_controller.reset();
        self.linear_tolerances.reset();
    }

    /// Settings with the same controllers and tolerances in the same state.
    pub fn duplicate(&self) -> (r: Self)
        ensures
            r.linear_controller == self.linear_controller,
            r.angular_controller == self.angular_controller,
            r.linear_tolerances.members@ == self.linear_tolerances.members@,
    {
        MoveToPointSettings {
            linear_controller: self.linear_controller,
            angular_controller: self.angular_controller,
            linear_tolerances: self.linear_tolerances.duplicate(),
        }
    }
}

impl From<Vector2> for MoveToPointTarget {
    fn from(vector: Vector2) -> (r: Self) {
        MoveToPointTarget(vector)
    }
}

impl vstd::std_specs::convert::FromSpecImpl<Vector2> for MoveToPointTarget {
    open spec fn obeys_from_spec() -> bool {
        true
    }

    open spec fn from_spec(vector: Vector2) -> Self {
        MoveToPointTarget(vector)
    }
}

impl From<MoveToPointTarget> for Vector2 {
    fn from(target: MoveToPointTarget) -> (r: Self) {
        target.0
    }
}

impl vstd::std_specs::convert::FromSpecImpl<MoveToPointTarget> for Vector2 {
    open spec fn obeys_from_spec() -> bool {
        true
    }

    open spec fn from_spec(target: MoveToPointTarget) -> Self {
        target.0
    }
}

impl From<(i64, i64)> for MoveToPointTarget {
    fn from(point: (i64, i64)) -> (r: Self) {
        MoveToPointTarget(Vector2 { x: point.0, y: point.1 })
    }
}

impl vstd::std_specs::convert::FromSpecImpl<(i64, i64)> for MoveToPointTarget {
    open spec fn obeys_from_spec() -> bool {
        true
    }

    open spec fn from_spec(point: (i64, i64)) -> Self {
        MoveToPointTarget(Vector2 { x: point.0, y: point.1 })
    }
}

/// Time at which a motion started at `now` gives up.
pub fn deadline_after(timeout: Option<u64>, now: u64) -> (r: Option<u64>)
    ensures
        r == deadline_spec(timeout, now),
{
    match timeout {
        Some(allowed) => {
            if allowed > u64::MAX - now {
                Some(u64::MAX)
            } else {
                Some(now + allowed)
            }
        },
        None => None,
    }
}

impl MoveToPoint {
    /// The motion can be driven.
    pub open spec fn wf(&self) -> bool {
        self.params.wf()
    }

    /// The target as the robot sees it, along the side that it drives
    /// with.
    pub open spec fn local_x(&self, pose: Pose, facing: Direction) -> int {
        let seen = along(facing, saturate(self.target.x - pose.x), saturate(self.target.y - pose.y));
        if self.params.forwards {
            seen
        } else {
            saturate(-seen)
        }
    }

    /// The target as the robot sees it, to the left of the side that it
    /// drives with.
    pub open spec fn local_y(&self, pose: Pose, facing: Direction) -> int {
        let seen = across(
            facing,
            saturate(self.target.x - pose.x),
            saturate(self.target.y - pose.y),
        );
        if self.params.forwards {
            seen
        } else {
            saturate(-seen)
        }
    }

    /// Distance to the target.
    pub open spec fn linear_error(&self, pose: Pose, facing: Direction) -> int {
        norm_spec(self.local_x(pose, facing), self.local_y(pose, facing))
    }

    /// Whether the robot has been near the target by the end of this tick.
    pub open spec fn near_after(&self, pose: Pose, facing: Direction) -> bool {
        self.is_near || self.linear_error(pose, facing) < NEAR_RANGE
    }

    /// The parameters after this tick: on the tick on which the robot first
    /// comes near, the largest linear speed becomes the one for near the
    /// target.
    pub open spec fn params_after(&self, pose: Pose, facing: Direction) -> MoveToPointParameters {
        MoveToPointParameters {
            forwards: self.params.forwards,
            min_linear_speed: self.params.min_linear_speed,
            max_linear_speed: if !self.is_near && self.linear_error(pose, facing) < NEAR_RANGE {
                NEAR_MAX_LINEAR_SPEED
            } else {
                self.params.max_linear_speed
            },
            max_angular_speed: self.params.max_angular_speed,
            early_exit_range: self.params.early_exit_range,
            linear_slew: self.params.linear_slew,
            angular_slew: self.params.angular_slew,
        }
    }

    /// Whether the robot is within the early exit range.
    pub open spec fn arrives(&self, pose: Pose, facing: Direction) -> bool {
        self.linear_error(pose, facing) < self.params.early_exit_range
    }

    /// Whether the convergence check passes on this tick while the robot is
    /// near the target.
    pub open spec fn settles(&self, pose: Pose, facing: Direction, now: u64) -> bool {
        any_settled(
            all_updated(
                self.settings.linear_tolerances.members@,
                self.local_x(pose, facing) as i64,
                now,
            ),
            now,
        ) && self.near_after(pose, facing)
    }

    /// The linear output of this tick.
    pub open spec fn linear_output(&self, pose: Pose, facing: Direction, now: u64) -> int {
        shape_linear(
            self.settings.linear_controller.output(self.local_x(pose, facing) as i64, now) as int,
            self.params.min_linear_speed as int,
            self.params_after(pose, facing).max_linear_speed as int,
            self.near_after(pose, facing),
            self.previous_linear_output as int,
            self.params.linear_slew,
        )
    }

    /// The angular output of this tick, for a target at the angle `bearing`
    /// from the side that the robot drives with.
    pub open spec fn angular_output(&self, bearing: i64, now: u64) -> int {
        shape_angular(
            self.settings.angular_controller.output(bearing, now) as int,
            self.params.max_angular_speed as int,
            self.previous_angular_output as int,
            self.params.angular_slew,
        )
    }

    /// The linear output as the drivetrain takes it: negated where the robot
    /// drives backwards.
    pub open spec fn throttle(&self, pose: Pose, facing: Direction, now: u64) -> int {
        if self.params.forwards {
            self.linear_output(pose, facing, now)
        } else {
            saturate(-self.linear_output(pose, facing, now))
        }
    }

    /// What this tick asks of the caller.
    pub open spec fn outcome(&self, pose: Pose, facing: Direction, bearing: i64, now: u64)
        -> MotionStep {
        if self.arrives(pose, facing) {
            MotionStep::Done(ExitReason::EarlyExit)
        } else if self.settles(pose, facing, now) {
            MotionStep::Done(ExitReason::Settled)
        } else {
            MotionStep::Drive {
                left: arcade_left(
                    self.throttle(pose, facing, now),
                    self.angular_output(bearing, now),
                ) as i64,
                right: arcade_right(
                    self.throttle(pose, facing, now),
                    self.angular_output(bearing, now),
                ) as i64,
            }
        }
    }

    /// A motion toward `target` that has not ticked yet.
    pub fn new(
        target: Vector2,
        params: MoveToPointParameters,
        settings: MoveToPointSettings,
        deadline: Option<u64>,
        pose: Pose,
    ) -> (r: Self)
        ensures
            r.target == target,
            r.params == params,
            r.settings == settings,
            r.deadline == deadline,
            !r.is_near,
            r.previous_pose == pose,
            r.previous_linear_output == 0,
            r.previous_angular_output == 0,
    {
        MoveToPoint {
            target,
            params,
            settings,
            deadline,
            is_near: false,
            previous_pose: pose,
            previous_linear_output: 0,
            previous_angular_output: 0,
        }
    }

    /// The target in the frame of the robot, as it drives: along and to the
    /// left of the side that it drives with. The angle of this vector is the
    /// `bearing` that `step` takes.
    pub fn local_error(&self, pose: Pose, facing: Direction) -> (r: Vector2)
        ensures
            r.x == self.local_x(pose, facing),
            r.y == self.local_y(pose, facing),
    {
        let error = Vector2 {
            x: sat_sub(self.target.x, pose.x),
            y: sat_sub(self.target.y, pose.y),
        };
        let seen = facing.to_local(error);
        if self.params.forwards {
            seen
        } else {
            Vector2 { x: sat_neg(seen.x), y: sat_neg(seen.y) }
        }
    }

    /// Whether `self` is the motion `before` after one tick. The convergence
    /// check sees the error unless the robot is within the early exit range;
    /// the controllers see it, and the outputs change, only on a tick that
    /// drives.
    pub open spec fn stepped(
        &self,
        before: &MoveToPoint,
        pose: Pose,
        facing: Direction,
        bearing: i64,
        now: u64,
    ) -> bool {
        let drives = before.outcome(pose, facing, bearing, now) is Drive;
        let error = before.local_x(pose, facing) as i64;
        &&& self.target == before.target
        &&& self.deadline == before.deadline
        &&& self.previous_pose == pose
        &&& self.is_near == before.near_after(pose, facing)
        &&& self.params == before.params_after(pose, facing)
        &&& self.settings.linear_tolerances.members@ == if before.arrives(pose, facing) {
            before.settings.linear_tolerances.members@
        } else {
            all_updated(before.settings.linear_tolerances.members@, error, now)
        }
        &&& self.settings.linear_controller == if drives {
            before.settings.linear_controller.updated(error, now)
        } else {
            before.settings.linear_controller
        }
        &&& self.settings.angular_controller == if drives {
            before.settings.angular_controller.updated(bearing, now)
        } else {
            before.settings.angular_controller
        }
        &&& self.previous_linear_output == if drives {
            before.linear_output(pose, facing, now)
        } else {
            before.previous_linear_output as int
        }
        &&& self.previous_angular_output == if drives {
            before.angular_output(bearing, now)
        } else {
            before.previous_angular_output as int
        }
    }

    /// One tick of the control loop, for a robot at `pose` that faces
    /// `facing`, with the target at the angle `bearing`, at time `now`.
    pub fn step(&mut self, pose: Pose, facing: Direction, bearing: i64, now: u64) -> (r:
        MotionStep)
        requires
            old(self).wf(),
        ensures
            final(self).wf(),
            r == old(self).outcome(pose, facing, bearing, now),
            final(self).stepped(old(self), pose, facing, bearing, now),
            r is Drive ==> {
                &&& -ONE <= r->left <= ONE
                &&& -ONE <= r->right <= ONE
            },
    {
        let local = self.local_error(pose, facing);
        let linear_error: i64 = local.norm();
        self.previous_pose = pose;
        if linear_error < NEAR_RANGE && !self.is_near {
            self.params.max_linear_speed = NEAR_MAX_LINEAR_SPEED;
            self.is_near = true;
        }
        if linear_error < self.params.early_exit_range {
            return MotionStep::Done(ExitReason::EarlyExit);
        }
        let settled: bool = self.settings.linear_tolerances.update_all(local.x, now);
        if settled && self.is_near {
            return MotionStep::Done(ExitReason::Settled);
        }
        let raw_linear: i64 = self.settings.linear_controller.update(local.x, now);
        let clamped: i64 = clamp_symmetric(raw_linear, self.params.max_linear_speed);
        let min: i64 = self.params.min_linear_speed;
        let snapped: i64 = if min > 0 && -min < clamped && clamped < min {
            if clamped < 0 {
                -min
            } else {
                min
            }
        } else {
            clamped
        };
        let held: i64 = if snapped < 0 && !self.is_near {
            0
        } else {
            snapped
        };
        let linear_limit: i64 = match self.params.linear_slew {
            Some(limit) => limit,
            None => 0,
        };
        let linear: i64 = delta_clamp(held, self.previous_linear_output, linear_limit);

        let raw_angular: i64 = self.settings.angular_controller.update(bearing, now);
        let angular_limit: i64 = match self.params.angular_slew {
            Some(limit) => limit,
            None => 0,
        };
        let angular: i64 = delta_clamp(
            clamp_symmetric(raw_angular, self.params.max_angular_speed),
            self.previous_angular_output,
            angular_limit,
        );
        self.previous_linear_output = linear;
        self.previous_angular_output = angular;
        let throttle: i64 = if self.params.forwards {
            linear
        } else {
            sat_neg(linear)
        };
        let sides = arcade_desaturate(throttle, angular);
        MotionStep::Drive { left: sides.0, right: sides.1 }
    }
}

impl Chassis {
    /// Whether a call of `move_to_point` starts a motion: the slot is free.
    pub open spec fn can_start(&self) -> bool {
        !self.motion_handler.slot_taken
    }

    /// The chassis after a motion toward `target` has started.
    pub open spec fn started(
        &self,
        before: &Chassis,
        target: Vector2,
        timeout: Option<u64>,
        params: MoveToPointParameters,
        settings: Option<MoveToPointSettings>,
        pose: Pose,
        now: u64,
    ) -> bool {
        &&& self.motion_handler == (MotionHandler { in_motion: true, slot_taken: true })
        &&& self.motion_settings == before.motion_settings
        &&& self.distance_traveled == Some(0i64)
        &&& self.motion.target == target
        &&& self.motion.params == params
        &&& self.motion.deadline == deadline_spec(timeout, now)
        &&& !self.motion.is_near
        &&& self.motion.previous_pose == pose
        &&& self.motion.previous_linear_output == 0
        &&& self.motion.previous_angular_output == 0
        &&& match settings {
            Some(given) => self.motion.settings == given,
            None => self.motion.settings.is_cleared_from(&before.motion_settings),
        }
    }

    /// The point that a motion along the heading drives to.
    pub open spec fn relative_target(distance: i64, pose: Pose, facing: Direction) -> Vector2 {
        Vector2 {
            x: saturate(pose.x + mul_spec(facing.cos as int, distance as int)) as i64,
            y: saturate(pose.y + mul_spec(facing.sin as int, distance as int)) as i64,
        }
    }

    /// Starts a motion toward `target` for a robot at `pose`, at time `now`,
    /// where the slot is free, and says whether it did. A motion that brings
    /// settings keeps their state; one that brings none starts from the
    /// chassis's settings, cleared. `timeout` is in microseconds.
    pub fn move_to_point(
        &mut self,
        target: MoveToPointTarget,
        timeout: Option<u64>,
        params: Option<MoveToPointParameters>,
        settings: Option<MoveToPointSettings>,
        pose: Pose,
        now: u64,
    ) -> (started: bool)
        ensures
            old(self).wf() ==> final(self).wf(),
            started == old(self).can_start(),
            !started ==> *final(self) == *old(self),
            started ==> final(self).started(
                old(self),
                target.0,
                timeout,
                match params {
                    Some(given) => given,
                    None => MoveToPointParameters::default_spec(),
                },
                settings,
                pose,
                now,
            ),
    {
        if !self.motion_handler.start_motion() {
            return false;
        }
        let chosen: MoveToPointSettings = match settings {
            Some(given) => given,
            None => {
                let mut fresh = self.motion_settings.duplicate();
                fresh.reset();
                fresh
            },
        };
        let unwrapped_params: MoveToPointParameters = match params {
            Some(given) => given,
            None => MoveToPointParameters::default(),
        };
        self.distance_traveled = Some(0);
        self.motion = MoveToPoint::new(
            target.0,
            unwrapped_params,
            chosen,
            deadline_after(timeout, now),
            pose,
        );
        true
    }

    /// Starts a motion to the point `distance` ahead of a robot at `pose`
    /// that faces `facing`, or behind it where `distance` is below zero, and
    /// says whether it did. The robot drives forwards where `distance` is
    /// above zero.
    pub fn move_relative(
        &mut self,
        distance: i64,
        timeout: Option<u64>,
        params: Option<MoveRelativeParameters>,
        settings: Option<MoveToPointSettings>,
        pose: Pose,
        facing: Direction,
        now: u64,
    ) -> (started: bool)
        ensures
            old(self).wf() ==> final(self).wf(),
            started == old(self).can_start(),
            !started ==> *final(self) == *old(self),
            started ==> final(self).started(
                old(self),
                Chassis::relative_target(distance, pose, facing),
                timeout,
                MoveToPointParameters::relative_spec(distance, params),
                settings,
                pose,
                now,
            ),
    {
        let displacement = facing.ahead(distance);
        let target = Vector2 {
            x: sat_add(pose.x, displacement.x),
            y: sat_add(pose.y, displacement.y),
        };
        let move_to_point_params: MoveToPointParameters = match params {
            Some(given) => MoveToPointParameters {
                forwards: distance > 0,
                min_linear_speed: given.min_linear_speed,
                max_linear_speed: given.max_linear_speed,
                max_angular_speed: ONE,
                early_exit_range: given.early_exit_range,
                linear_slew: given.linear_slew,
                angular_slew: None,
            },
            None => MoveToPointParameters {
                forwards: distance > 0,
                min_linear_speed: 0,
                max_linear_speed: ONE,
                max_angular_speed: ONE,
                early_exit_range: 0,
                linear_slew: None,
                angular_slew: None,
            },
        };
        self.move_to_point(
            MoveToPointTarget(target),
            timeout,
            Some(move_to_point_params),
            settings,
            pose,
            now,
        )
    }

    /// Distance covered by the motion after a tick at `pose`.
    pub open spec fn traveled_after(&self, pose: Pose) -> Option<i64> {
        match self.distance_traveled {
            Some(covered) => Some(
                saturate(covered + pose.distance_spec(&self.motion.previous_pose)) as i64,
            ),
            None => None,
        }
    }

    /// What a tick asks of the caller.
    pub open spec fn tick_outcome(&self, pose: Pose, facing: Direction, bearing: i64, now: u64)
        -> MotionStep {
        if timed_out(self.motion.deadline, now) {
            MotionStep::Done(ExitReason::Timeout)
        } else if !self.motion_handler.in_motion {
            MotionStep::Done(ExitReason::Cancelled)
        } else {
            self.motion.outcome(pose, facing, bearing, now)
        }
    }

    /// One tick of the motion in progress, for a robot at `pose` that faces
    /// `facing`, at time `now`. `bearing` is the angle of
    /// `self.motion.local_error(pose, facing)`. The motion ends where its
    /// time has passed, where it was asked to stop, where the robot is
    /// within the early exit range, or where the error has settled near the
    /// target; the slot is then free and no distance is kept. Else the tick
    /// gives the velocities of the two sides of the drivetrain.
    pub fn tick(&mut self, pose: Pose, facing: Direction, bearing: i64, now: u64) -> (r:
        MotionStep)
        requires
            old(self).wf(),
            old(self).motion.wf(),
        ensures
            r == old(self).tick_outcome(pose, facing, bearing, now),
            final(self).wf(),
            final(self).motion.wf(),
            final(self).motion_settings == old(self).motion_settings,
            r is Done ==> final(self).motion_handler == (MotionHandler {
                in_motion: false,
                slot_taken: false,
            }) && final(self).distance_traveled is None,
            r is Drive ==> final(self).motion_handler == (MotionHandler {
                in_motion: true,
                slot_taken: true,
            }) && final(self).distance_traveled == old(self).traveled_after(pose),
            if timed_out(old(self).motion.deadline, now) || !old(self).motion_handler.in_motion {
                final(self).motion == old(self).motion
            } else {
                final(self).motion.stepped(&old(self).motion, pose, facing, bearing, now)
            },
            r is Drive ==> {
                &&& -ONE <= r->left <= ONE
                &&& -ONE <= r->right <= ONE
            },
    {
        let late: bool = match self.motion.deadline {
            Some(end) => now >= end,
            None => false,
        };
        if late {
            self.distance_traveled = None;
            self.motion_handler.end_motion();
            return MotionStep::Done(ExitReason::Timeout);
        }
        if !self.motion_handler.is_in_motion() {
            self.distance_traveled = None;
            self.motion_handler.end_motion();
            return MotionStep::Done(ExitReason::Cancelled);
        }
        let moved: i64 = pose.distance_to(&self.motion.previous_pose);
        self.distance_traveled = match self.distance_traveled {
            Some(covered) => Some(sat_add(covered, moved)),
            None => None,
        };
        let outcome = self.motion.step(pose, facing, bearing, now);
        match outcome {
            MotionStep::Done(_) => {
                self.distance_traveled = None;
                self.motion_handler.end_motion();
            },
            MotionStep::Drive { .. } => {},
        }
        outcome
    }
}

} // verus!
