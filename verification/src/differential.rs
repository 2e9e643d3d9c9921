//! The differential drive: its pose and its motions.

pub mod pose;
pub mod motions;
pub mod chassis;
