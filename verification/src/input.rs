//! The per-frame input snapshot: pointer position, primary-button state
//! and wheel delta. Immutable once taken; the engine keeps the two most
//! recent snapshots so that press and release edges can be detected.
use vstd::prelude::*;

use crate::geo::Point;

verus! {

/// One immutable snapshot of the pointer for a frame.
#[derive(Clone, Copy, PartialEq, Eq, Structural, Debug)]
pub struct Input {
    pub mouse_position: Point,
    pub mouse_wheel: i8,
    pub primary_down: bool,
}

impl Default for Input {
    fn default() -> (r: Input)
        ensures
            r == (Input { mouse_position: Point { x: 0, y: 0 }, mouse_wheel: 0i8, primary_down: false }),
    {
        Input { mouse_position: Point { x: 0, y: 0 }, mouse_wheel: 0, primary_down: false }
    }
}

impl Input {
    /// The wheel moved toward the user this frame.
    pub fn wheel_up(&self) -> (r: bool)
        ensures
            r == (self.mouse_wheel < 0),
    {
        self.mouse_wheel < 0
    }

    /// The wheel moved away from the user this frame.
    pub fn wheel_down(&self) -> (r: bool)
        ensures
            r == (self.mouse_wheel > 0),
    {
        self.mouse_wheel > 0
    }
}

} // verus!
