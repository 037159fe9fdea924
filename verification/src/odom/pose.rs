//! 2D pose: a position and a heading.

use vstd::prelude::*;

verus! {

/// A position `(x, y)` in nanometres and a heading in nanoradians.
///
/// The heading is an accumulator: it is not normalised into one turn.
#[derive(Debug, Clone, Copy, PartialEq, Eq, Structural)]
pub struct Pose {
    pub x: i64,
    pub y: i64,
    pub heading: i64,
}

impl Pose {
    /// Creates a new pose with the given position and heading.
    pub fn new(x: i64, y: i64, heading: i64) -> (p: Self)
        ensures
            p == (Pose { x, y, heading }),
    {
        Pose { x, y, heading }
    }

    /// The pose at the origin, heading zero.
    pub fn identity() -> (p: Self)
        ensures
            p == (Pose { x: 0, y: 0, heading: 0 }),
    {
        Pose { x: 0, y: 0, heading: 0 }
    }

    /// Returns the heading (orientation) of this pose.
    pub fn heading(&self) -> (h: i64)
        ensures
            h == self.heading,
    {
        self.heading
    }

    /// Returns the `(x, y)` position of this pose.
    pub fn position(&self) -> (p: (i64, i64))
        ensures
            p == (self.x, self.y),
    {
        (self.x, self.y)
    }
}

impl Default for Pose {
    fn default() -> (p: Self)
        ensures
            p == (Pose { x: 0, y: 0, heading: 0 }),
    {
        Pose::identity()
    }
}

} // verus!
