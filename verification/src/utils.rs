//! Helpers shared by the motions.

pub mod math;
