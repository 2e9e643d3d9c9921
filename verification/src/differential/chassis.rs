//! The drive as the motions see it: the motion slot, the settings that a
//! motion falls back on, and the motion in progress.

use vstd::prelude::*;
use crate::differential::motions::linear::{
    MoveToPoint, MoveToPointParameters, MoveToPointSettings,
};
use crate::differential::motions::MotionHandler;
use crate::differential::pose::{Pose, Vector2};

verus! {

/// A differential drive and the motion that it runs.
pub struct Chassis {
    /// The motion slot.
    pub motion_handler: MotionHandler,
    /// Settings of a motion that brings none of its own.
    pub motion_settings: MoveToPointSettings,
    /// Distance covered by the motion in progress; nothing between motions.
    pub distance_traveled: Option<i64>,
    /// The motion in progress, or the last one.
    pub motion: MoveToPoint,
}

impl Chassis {
    /// Only the holder of the motion slot is in motion.
    pub open spec fn wf(&self) -> bool {
        self.motion_handler.wf()
    }

    /// A chassis at rest. A motion that brings no settings of its own will
    /// start from `motion_settings`.
    pub fn new(motion_settings: MoveToPointSettings) -> (r: Self)
        ensures
            r.motion_handler == (MotionHandler { in_motion: false, slot_taken: false }),
            r.motion_settings == motion_settings,
            r.distance_traveled is None,
            r.wf(),
            r.motion.wf(),
            r.motion.target == (Vector2 { x: 0, y: 0 }),
            r.motion.params == MoveToPointParameters::default_spec(),
            r.motion.settings.linear_controller == motion_settings.linear_controller,
            r.motion.settings.angular_controller == motion_settings.angular_controller,
            r.motion.settings.linear_tolerances.members@
                == motion_settings.linear_tolerances.members@,
            r.motion.deadline is None,
            !r.motion.is_near,
            r.motion.previous_pose == (Pose { x: 0, y: 0, heading: 0 }),
            r.motion.previous_linear_output == 0,
            r.motion.previous_angular_output == 0,
    {
        let settings = motion_settings.duplicate();
        Chassis {
            motion_handler: MotionHandler::new(),
            motion_settings,
            distance_traveled: None,
            motion: MoveToPoint::new(
                Vector2 { x: 0, y: 0 },
                MoveToPointParameters::default(),
                settings,
                None,
                Pose { x: 0, y: 0, heading: 0 },
            ),
        }
    }

    /// Whether a motion is in progress and has not been asked to stop.
    pub fn is_in_motion(&self) -> (r: bool)
        ensures
            r == self.motion_handler.in_motion,
    {
        self.motion_handler.is_in_motion()
    }

    /// Whether no motion holds the slot: a motion can start.
    pub fn is_free(&self) -> (r: bool)
        ensures
            r == self.can_start(),
    {
        self.motion_handler.is_free()
    }

    /// Whether the motion can be ticked: none of its limits is below zero.
    pub fn can_tick(&self) -> (r: bool)
        ensures
            r == self.motion.wf(),
    {
        self.motion.params.is_valid()
    }

    /// Asks the motion in progress to stop: it ends at its next tick, and
    /// keeps the slot until then.
    pub fn cancel_motion(&mut self)
        ensures
            !final(self).motion_handler.in_motion,
            final(self).motion_handler.slot_taken == old(self).motion_handler.slot_taken,
            final(self).wf(),
            final(self).motion_settings == old(self).motion_settings,
            final(self).distance_traveled == old(self).distance_traveled,
            final(self).motion == old(self).motion,
    {
        self.motion_handler.stop_motion();
    }

    /// Whether one who waits for the motion to cover more than `distance`
    /// may go on: it has covered it, or no motion is in progress.
    pub fn has_traveled(&self, distance: i64) -> (r: bool)
        ensures
            r == match self.distance_traveled {
                Some(covered) => covered > distance,
                None => true,
            },
    {
        match self.distance_traveled {
            Some(covered) => covered > distance,
            None => true,
        }
    }
}

} // verus!
