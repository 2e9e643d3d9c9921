//! Pose estimation from redundant sensors.

pub mod calibration;
pub mod odom;
pub mod laws;
