//! The per-frame snapshot of the logical actions that are held.

use vstd::prelude::*;

verus! {

/// Which logical actions are held during one frame. Level-triggered: a key
/// that stays down keeps its flag set frame after frame.
#[derive(Clone, Copy, Debug, PartialEq, Eq, Structural)]
pub struct InputSnapshot {
    pub left: bool,
    pub right: bool,
    pub jump: bool,
}

impl InputSnapshot {
    /// True when the character is asked to move sideways in this frame.
    pub open spec fn horizontal(&self) -> bool {
        self.left || self.right
    }

    /// The snapshot of a frame in which nothing is held.
    pub fn new() -> (snapshot: InputSnapshot)
        ensures
            snapshot == (InputSnapshot { left: false, right: false, jump: false }),
    {
        InputSnapshot { left: false, right: false, jump: false }
    }

    /// Executable form of [`InputSnapshot::horizontal`].
    pub fn is_horizontal(&self) -> (active: bool)
        ensures
            active == self.horizontal(),
    {
        self.left || self.right
    }
}

/// Builds the frame's snapshot from the state of the three bound keys: each
/// flag is set exactly when its key is held.
pub fn movement_input(left_held: bool, right_held: bool, jump_held: bool) -> (snapshot:
    InputSnapshot)
    ensures
        snapshot == (InputSnapshot { left: left_held, right: right_held, jump: jump_held }),
{
    InputSnapshot { left: left_held, right: right_held, jump: jump_held }
}

} // verus!
