//! The movement integrator: sideways displacement and facing.

use crate::input::InputSnapshot;
use vstd::prelude::*;

verus! {

/// The side the character looks to.
#[derive(Clone, Copy, Debug, PartialEq, Eq, Structural)]
pub enum Facing {
    Left,
    Right,
}

/// The facing taken when left and right are held in the same frame: left
/// wins.
pub const BOTH_HELD_FACING: Facing = Facing::Left;

/// Signed sideways displacement of one frame, in sub-units: speed times time
/// to the right, the same to the left, nothing when both or neither are held.
pub open spec fn horizontal_delta(input: InputSnapshot, elapsed: nat, speed: nat) -> int {
    if input.right && !input.left {
        (speed * elapsed) as int
    } else if input.left && !input.right {
        -(speed * elapsed)
    } else {
        0
    }
}

/// The facing after one frame: the side that is held, the tie-break when both
/// are, and the facing before when neither is.
pub open spec fn facing_after(input: InputSnapshot, facing: Facing) -> Facing {
    if input.left && input.right {
        BOTH_HELD_FACING
    } else if input.left {
        Facing::Left
    } else if input.right {
        Facing::Right
    } else {
        facing
    }
}

impl Facing {
    /// Turn about the vertical axis that shows this facing, in degrees: none
    /// to the right, half a turn to the left.
    pub fn rotation_degrees(&self) -> (degrees: u16)
        ensures
            degrees == (match *self {
                Facing::Right => 0u16,
                Facing::Left => 180u16,
            }),
    {
        match self {
            Facing::Right => 0,
            Facing::Left => 180,
        }
    }
}

/// One frame of sideways movement for a character that moves at `speed` units
/// per second and looked to `facing`. Returns the displacement in sub-units
/// and the new facing.
pub fn integrate_movement(input: InputSnapshot, elapsed: u64, speed: u32, facing: Facing) -> (moved: (
    i128,
    Facing,
))
    ensures
        moved.0 == horizontal_delta(input, elapsed as nat, speed as nat),
        moved.1 == facing_after(input, facing),
{
    assert(speed * elapsed <= 0xffff_ffff * 0xffff_ffff_ffff_ffff) by (nonlinear_arith)
        requires
            0 <= elapsed <= 0xffff_ffff_ffff_ffff,
            0 <= speed <= 0xffff_ffff,
    ;
    let distance: i128 = (speed as i128) * (elapsed as i128);
    if input.left && input.right {
        (0, BOTH_HELD_FACING)
    } else if input.right {
        (distance, Facing::Right)
    } else if input.left {
        (-distance, Facing::Left)
    } else {
        (0, facing)
    }
}

/// Holding both sides cancels out, and holding neither moves nothing.
pub proof fn lemma_opposed_or_idle_input_stands_still(
    input: InputSnapshot,
    elapsed: nat,
    speed: nat,
)
    requires
        input.left == input.right,
    ensures
        horizontal_delta(input, elapsed, speed) == 0,
{
}

} // verus!
