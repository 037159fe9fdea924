//! Small enums used across the crate.

use vstd::prelude::*;

verus! {

/// Represents the orientation or direction of a tracking wheel or component.
///
/// Used to indicate the mounting side and rotation sense of tracking wheels
/// and other directional components of the robot.
#[derive(Debug, Clone, Copy, PartialEq, Eq, Structural)]
pub enum Orientation {
    /// Left orientation
    Left,
    /// Right orientation
    Right,
    /// Clockwise rotation
    CW,
    /// Counter-clockwise rotation
    CCW,
}

/// How a tracking wheel is mounted, with its signed offset from the centre of
/// rotation in nanometres.
#[derive(Copy, Clone, Debug, PartialEq, Eq, Structural)]
pub enum TrackingWheelOrientation {
    /// The wheel rolls along the robot's forward axis.
    Vertical(i64),
    /// The wheel rolls along the robot's lateral axis.
    Horizontal(i64),
}

} // verus!
