//! The jump integrator: a linear ascent that ends by resetting its own
//! accumulator. Coming back down is left to whoever owns gravity.

use vstd::prelude::*;

verus! {

/// Sub-units in one world unit.
pub const SUBUNITS_PER_UNIT: u64 = 1_000_000_000;

/// Height, in sub-units, gained in a frame of `elapsed` nanoseconds: twice
/// the fall speed, in units per second, times the time.
pub open spec fn jump_power(elapsed: nat, fall_speed: nat) -> nat {
    elapsed * fall_speed * 2
}

/// The jump ceiling in sub-units, for a height given in whole units.
pub open spec fn jump_ceiling(jump_height: nat) -> nat {
    jump_height * (SUBUNITS_PER_UNIT as nat)
}

/// Grounded and idle: nothing gathered and the jump action not held.
pub open spec fn grounded(height: nat, jump_held: bool) -> bool {
    !jump_held && height == 0
}

/// Height gained by the character in one frame.
pub open spec fn rise(height: nat, jump_held: bool, power: nat, ceiling: nat) -> nat {
    if !grounded(height, jump_held) && height <= ceiling {
        power
    } else {
        0
    }
}

/// The accumulator after one frame.
pub open spec fn height_after(height: nat, jump_held: bool, power: nat, ceiling: nat) -> nat {
    if grounded(height, jump_held) {
        height
    } else if height <= ceiling {
        height + power
    } else {
        0
    }
}

/// Progress of the current jump.
#[derive(Clone, Copy, Debug)]
pub struct JumpState {
    height_accumulated: u128,
}

impl JumpState {
    /// Height gathered since the jump began, in sub-units; zero on the ground.
    pub closed spec fn height(&self) -> nat {
        self.height_accumulated as nat
    }

    /// The state of a character on the ground.
    pub fn new() -> (state: JumpState)
        ensures
            state.height() == 0,
    {
        JumpState { height_accumulated: 0 }
    }

    pub fn height_accumulated(&self) -> (height: u128)
        ensures
            height == self.height(),
    {
        self.height_accumulated
    }

    /// One frame of the jump. Returns the height, in sub-units, to add to the
    /// character's vertical position.
    ///
    /// On the ground with the jump action released nothing happens.
    /// Otherwise, while the accumulator has not passed the ceiling, the
    /// frame's jump power is added to the accumulator and returned; once it
    /// has, the accumulator goes back to zero and nothing is returned.
    pub fn advance(
        &mut self,
        jump_held: bool,
        elapsed: u64,
        fall_speed: u32,
        jump_height: u64,
    ) -> (dy: u128)
        ensures
            dy == rise(
                old(self).height(),
                jump_held,
                jump_power(elapsed as nat, fall_speed as nat),
                jump_ceiling(jump_height as nat),
            ),
            final(self).height() == height_after(
                old(self).height(),
                jump_held,
                jump_power(elapsed as nat, fall_speed as nat),
                jump_ceiling(jump_height as nat),
            ),
            dy <= i128::MAX,
    {
        if !jump_held && self.height_accumulated == 0 {
            return 0;
        }
        assert(jump_height * 1_000_000_000 <= 0xffff_ffff_ffff_ffff * 1_000_000_000)
            by (nonlinear_arith)
            requires
                0 <= jump_height <= 0xffff_ffff_ffff_ffff,
        ;
        let ceiling: u128 = (jump_height as u128) * (SUBUNITS_PER_UNIT as u128);
        if self.height_accumulated <= ceiling {
            assert(elapsed * fall_speed <= 0xffff_ffff_ffff_ffff * 0xffff_ffff)
                by (nonlinear_arith)
                requires
                    0 <= elapsed <= 0xffff_ffff_ffff_ffff,
                    0 <= fall_speed <= 0xffff_ffff,
            ;
            let power: u128 = (elapsed as u128) * (fall_speed as u128) * 2;
            self.height_accumulated = self.height_accumulated + power;
            power
        } else {
            self.height_accumulated = 0;
            0
        }
    }
}

/// The accumulator never shrinks except to fall back to exactly zero, and it
/// does that on the frame that finds it above the ceiling, and on no other
/// frame that changes it.
pub proof fn lemma_height_grows_or_resets(height: nat, jump_held: bool, power: nat, ceiling: nat)
    ensures
        height_after(height, jump_held, power, ceiling) >= 0,
        height > ceiling ==> height_after(height, jump_held, power, ceiling) == 0,
        height <= ceiling ==> height_after(height, jump_held, power, ceiling) >= height,
        height <= ceiling && !grounded(height, jump_held) ==> height_after(
            height,
            jump_held,
            power,
            ceiling,
        ) == height + power,
{
}

/// With the jump action held, time passing and a positive fall speed, every
/// frame before the reset lifts the character by a positive amount.
pub proof fn lemma_held_jump_rises(height: nat, elapsed: nat, fall_speed: nat, ceiling: nat)
    requires
        elapsed > 0,
        fall_speed > 0,
        height <= ceiling,
    ensures
        rise(height, true, jump_power(elapsed, fall_speed), ceiling) == jump_power(
            elapsed,
            fall_speed,
        ),
        jump_power(elapsed, fall_speed) > 0,
{
    assert(elapsed * fall_speed * 2 > 0) by (nonlinear_arith)
        requires
            elapsed > 0,
            fall_speed > 0,
    ;
}

} // verus!
