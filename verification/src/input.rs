//! What the input system reports of one frame.

use vstd::prelude::*;

verus! {

/// The pointer movement accumulated over one frame, in millionths of a unit
/// of raw movement. `dx` grows to the right and `dy` downwards.
#[derive(Clone, Copy, Debug, PartialEq, Eq)]
pub struct PointerDelta {
    pub dx: i64,
    pub dy: i64,
}

/// The input of one frame. It is built afresh for each frame and read once.
#[derive(Debug)]
pub struct FrameInput {
    /// The accumulated pointer movement, or nothing if the pointer did not
    /// report any movement in this frame.
    pub motion: Option<PointerDelta>,
    /// Whether the primary button is held.
    pub primary_held: bool,
    /// The vertical amount of each scroll event of the frame, in the order in
    /// which the events arrived and in millionths of a scroll unit. A positive
    /// amount scrolls away from the user.
    pub scrolls: Vec<i64>,
}

impl FrameInput {
    /// The movement that turns the camera: the pointer movement of the frame
    /// if there is one and the primary button is held, else nothing.
    pub open spec fn drag(self) -> Option<PointerDelta> {
        if self.primary_held {
            self.motion
        } else {
            None
        }
    }

    /// The movement that turns the camera in this frame, if any does.
    pub fn drag_delta(&self) -> (delta: Option<PointerDelta>)
        ensures
            delta == self.drag(),
            delta.is_some() <==> self.primary_held && self.motion.is_some(),
    {
        if self.primary_held {
            self.motion
        } else {
            None
        }
    }
}

} // verus!
