//! Control core of a two-wheeled differential-drive robot: encoder
//! integration, dead-reckoning pose estimation, goal seeking and waypoint
//! sequencing, all in fixed-point arithmetic.
//!
//! Units used throughout: lengths in micrometres, angles in microdegrees,
//! motor duties in parts per million of full drive.
use vstd::prelude::*;

pub mod hal;
pub mod librobotcontrol;
pub mod angle;
pub mod wheel;
pub mod motor;
pub mod position;
pub mod planner;
pub mod diff_drive;
pub mod distance;

verus! {

} // verus!
