//! Motion-control core of a differential-drive robot.
//!
//! The crate estimates the robot's pose from inertial sensors and tracking
//! wheels (`tracking`), drives the robot to a point with two feedback
//! controllers (`differential`, `controllers`) and shapes the commands that
//! the drivetrain gets (`utils`).
//!
//! Every quantity is a fixed-point number held in an `i64`: the raw value
//! `v` stands for `v / fixed::ONE`. Distances are in the unit of the field,
//! angles in radians, speeds as a fraction of the drivetrain's full speed.
//! Points in time are counts of microseconds. Arithmetic rounds toward zero
//! and saturates, so that no operation can overflow.
//!
//! The crate reads no sensor and no clock, and knows no sine: the caller
//! hands in each reading, the time, and the sines and cosines of the angles
//! that the crate gives out.

pub mod fixed;
pub mod utils;
pub mod controllers;
pub mod differential;
pub mod tracking;
