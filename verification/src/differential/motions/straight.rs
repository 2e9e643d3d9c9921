//! What holds of a run straight at the target.
//!
//! The robot stands on the line through the target along the x axis of the
//! field, short of the target, faces along that axis and drives forwards.
//! The library fixes each tick; the robot's advance between two ticks and
//! the controllers' answers are premises.

use vstd::prelude::*;
use crate::controllers::ControllerMethod;
use crate::differential::motions::linear::{MotionStep, MoveToPoint};
use crate::differential::pose::{Direction, Pose};
use crate::fixed::{is_norm, lemma_norm_unique, lemma_quot_cancel, norm_spec, ONE};
use crate::utils::math::{arcade_left, arcade_right};

verus! {

/// The direction along the x axis of the field.
pub open spec fn ahead() -> Direction {
    Direction { cos: ONE, sin: 0 }
}

/// The pose at `x` on the line through the target along the x axis.
pub open spec fn on_line(motion: MoveToPoint, x: i64) -> Pose {
    Pose { x, y: motion.target.y, heading: 0 }
}

/// The motion drives forwards with a largest speed above zero, its last
/// linear output was not below zero and its last angular output was zero,
/// and the robot at `x` is short of the target.
pub open spec fn heads_straight(motion: MoveToPoint, x: i64) -> bool {
    &&& motion.wf()
    &&& motion.params.forwards
    &&& motion.params.max_linear_speed > 0
    &&& motion.previous_linear_output >= 0
    &&& motion.previous_angular_output == 0
    &&& x < motion.target.x
    &&& motion.target.x - x <= i64::MAX
}

/// The controllers answer as a straight run needs it: the linear one with an
/// output above zero to an error above zero, the angular one with zero to an
/// error of zero.
pub open spec fn answers_straight(motion: MoveToPoint, x: i64, now: u64) -> bool {
    &&& motion.settings.linear_controller.output((motion.target.x - x) as i64, now) > 0
    &&& motion.settings.angular_controller.output(0, now) == 0
}

/// On the line and short of the target, the error along the heading is the
/// distance to the target, and there is no error across.
pub proof fn lemma_error_on_line(motion: MoveToPoint, x: i64)
    requires
        motion.params.forwards,
        x <= motion.target.x,
        motion.target.x - x <= i64::MAX,
    ensures
        motion.local_x(on_line(motion, x), ahead()) == motion.target.x - x,
        motion.local_y(on_line(motion, x), ahead()) == 0,
        motion.linear_error(on_line(motion, x), ahead()) == motion.target.x - x,
{
    let error = motion.target.x - x;
    lemma_quot_cancel(error, ONE as int);
    assert(ONE * error == error * ONE && 0 * error == 0) by (nonlinear_arith);
    assert(is_norm(error, 0, error)) by (nonlinear_arith)
        requires
            0 <= error <= i64::MAX,
    ;
    lemma_norm_unique(error, 0, error, norm_spec(error, 0));
}

/// A tick of a straight run that drives commands both sides alike and above
/// zero: the robot neither turns nor reverses.
pub proof fn lemma_straight_tick_drives_ahead(motion: MoveToPoint, x: i64, now: u64)
    requires
        heads_straight(motion, x),
        answers_straight(motion, x, now),
    ensures
        motion.linear_output(on_line(motion, x), ahead(), now) > 0,
        motion.angular_output(0, now) == 0,
        motion.throttle(on_line(motion, x), ahead(), now) > 0,
        motion.outcome(on_line(motion, x), ahead(), 0, now) matches MotionStep::Drive {
            left,
            right,
        } ==> left == right && left > 0,
{
    lemma_error_on_line(motion, x);
    let linear = motion.linear_output(on_line(motion, x), ahead(), now);
    if linear > ONE {
        lemma_quot_cancel(ONE as int, linear);
        assert(linear * ONE == ONE * linear) by (nonlinear_arith);
    }
    assert(arcade_left(linear, 0) == arcade_right(linear, 0));
}

/// Tick `k` of a run: the library's tick at `xs[k]` drives and leads from
/// `motions[k]` to `motions[k + 1]`, the controllers answer as a straight
/// run needs it, and a robot whose two sides are commanded alike and above
/// zero advances along the line without reaching the target.
pub open spec fn run_tick(motions: Seq<MoveToPoint>, xs: Seq<i64>, times: Seq<u64>, k: int)
    -> bool {
    let pose = on_line(motions[k], xs[k]);
    let outcome = motions[k].outcome(pose, ahead(), 0, times[k]);
    &&& outcome is Drive
    &&& motions[k + 1].stepped(&motions[k], pose, ahead(), 0, times[k])
    &&& answers_straight(motions[k], xs[k], times[k])
    &&& outcome->left == outcome->right && outcome->left > 0 ==> xs[k] < xs[k + 1]
        < motions[k].target.x
}

/// A run of ticks straight at the target.
pub open spec fn straight_run(motions: Seq<MoveToPoint>, xs: Seq<i64>, times: Seq<u64>) -> bool {
    &&& motions.len() == xs.len()
    &&& motions.len() == times.len()
    &&& motions.len() > 0
    &&& heads_straight(motions[0], xs[0])
    &&& forall|k: int| 0 <= k < motions.len() - 1 ==> #[trigger] run_tick(motions, xs, times, k)
}

/// Every tick of a straight run starts from a motion that heads straight.
proof fn lemma_run_heads_straight(
    motions: Seq<MoveToPoint>,
    xs: Seq<i64>,
    times: Seq<u64>,
    k: int,
)
    requires
        straight_run(motions, xs, times),
        0 <= k < motions.len(),
    ensures
        heads_straight(motions[k], xs[k]),
        motions[k].target == motions[0].target,
    decreases k,
{
    if k > 0 {
        lemma_run_heads_straight(motions, xs, times, k - 1);
        assert(run_tick(motions, xs, times, k - 1));
        lemma_straight_tick_drives_ahead(motions[k - 1], xs[k - 1], times[k - 1]);
    }
}

/// Over a straight run the distance to the target falls from tick to tick,
/// and every tick commands both sides alike and above zero: the robot never
/// reverses and never turns.
pub proof fn lemma_straight_run_closes_in(
    motions: Seq<MoveToPoint>,
    xs: Seq<i64>,
    times: Seq<u64>,
    k: int,
)
    requires
        straight_run(motions, xs, times),
        0 <= k < motions.len() - 1,
    ensures
        motions[k + 1].linear_error(on_line(motions[k + 1], xs[k + 1]), ahead())
            < motions[k].linear_error(on_line(motions[k], xs[k]), ahead()),
        motions[k].outcome(on_line(motions[k], xs[k]), ahead(), 0, times[k]) matches MotionStep::Drive {
            left,
            right,
        } && left == right && left > 0,
        motions[k].throttle(on_line(motions[k], xs[k]), ahead(), times[k]) > 0,
{
    lemma_run_heads_straight(motions, xs, times, k);
    lemma_run_heads_straight(motions, xs, times, k + 1);
    assert(run_tick(motions, xs, times, k));
    lemma_straight_tick_drives_ahead(motions[k], xs[k], times[k]);
    lemma_error_on_line(motions[k], xs[k]);
    lemma_error_on_line(motions[k + 1], xs[k + 1]);
}

} // verus!
