//! The character and the controller that moves it once per frame.

use crate::config::{AnimationRange, ControllerConfig};
use crate::input::InputSnapshot;
use crate::jump::{height_after, jump_ceiling, jump_power, rise, JumpState};
use crate::movement::{facing_after, horizontal_delta, integrate_movement, Facing};
use crate::timer::{elapsed_after, fires, AnimationTimer};
use vstd::prelude::*;

verus! {

/// `value` held to what a coordinate can store.
pub open spec fn saturate(value: int) -> int {
    if value > i128::MAX {
        i128::MAX as int
    } else if value < i128::MIN {
        i128::MIN as int
    } else {
        value
    }
}

/// The sprite frame after one update: idle whenever the character is not
/// asked to move sideways; otherwise one further when the timer fired, from
/// `last` back to zero; otherwise unchanged.
pub open spec fn frame_after(frame: nat, last: nat, horizontal: bool, fired: bool) -> nat {
    if !horizontal {
        0
    } else if !fired {
        frame
    } else if frame == last {
        0
    } else {
        frame + 1
    }
}

/// What a character is, as plain mathematics.
pub ghost struct CharacterView {
    pub x: int,
    pub y: int,
    pub facing: Facing,
    pub current_frame: nat,
    pub first: nat,
    pub last: nat,
    pub interval: nat,
    pub timer_elapsed: nat,
    pub height: nat,
}

/// The character after sideways movement has been applied. A character that
/// is not asked to move sideways goes back to the idle frame.
pub open spec fn moved(before: CharacterView, input: InputSnapshot, elapsed: nat, speed: nat)
    -> CharacterView {
    CharacterView {
        x: saturate(before.x + horizontal_delta(input, elapsed, speed)),
        facing: facing_after(input, before.facing),
        current_frame: if input.horizontal() {
            before.current_frame
        } else {
            0
        },
        ..before
    }
}

/// The character after the jump has been applied.
pub open spec fn jumped(
    before: CharacterView,
    input: InputSnapshot,
    elapsed: nat,
    fall_speed: nat,
    jump_height: nat,
) -> CharacterView {
    let power = jump_power(elapsed, fall_speed);
    let ceiling = jump_ceiling(jump_height);
    CharacterView {
        y: saturate(before.y + rise(before.height, input.jump, power, ceiling)),
        height: height_after(before.height, input.jump, power, ceiling),
        ..before
    }
}

/// The character after the animation timer has been ticked and the sprite
/// frame brought up to date.
pub open spec fn animated(before: CharacterView, input: InputSnapshot, elapsed: nat)
    -> CharacterView {
    CharacterView {
        current_frame: frame_after(
            before.current_frame,
            before.last,
            input.horizontal(),
            fires(before.interval, before.timer_elapsed, elapsed),
        ),
        timer_elapsed: elapsed_after(before.interval, before.timer_elapsed, elapsed),
        ..before
    }
}

/// One whole frame: movement, then the jump, then the animation.
pub open spec fn frame_step(
    speed: nat,
    fall_speed: nat,
    jump_height: nat,
    before: CharacterView,
    input: InputSnapshot,
    elapsed: nat,
) -> CharacterView {
    animated(
        jumped(moved(before, input, elapsed, speed), input, elapsed, fall_speed, jump_height),
        input,
        elapsed,
    )
}

/// `position + delta`, held to the range of a coordinate.
fn offset(position: i128, delta: i128) -> (sum: i128)
    ensures
        sum == saturate(position + delta),
{
    if delta >= 0 {
        if position > i128::MAX - delta {
            i128::MAX
        } else {
            position + delta
        }
    } else {
        if position < i128::MIN - delta {
            i128::MIN
        } else {
            position + delta
        }
    }
}

/// One character: where it is, where it looks, which sprite frame it shows,
/// and the timer and jump progress behind that. Coordinates are in sub-units.
#[derive(Clone, Copy, Debug)]
pub struct CharacterState {
    x: i128,
    y: i128,
    facing: Facing,
    current_frame: usize,
    range: AnimationRange,
    timer: AnimationTimer,
    jump: JumpState,
}

impl View for CharacterState {
    type V = CharacterView;

    closed spec fn view(&self) -> CharacterView {
        CharacterView {
            x: self.x as int,
            y: self.y as int,
            facing: self.facing,
            current_frame: self.current_frame as nat,
            first: self.range.first(),
            last: self.range.last(),
            interval: self.timer.interval(),
            timer_elapsed: self.timer.elapsed(),
            height: self.jump.height(),
        }
    }
}

/// What holds of every character: its frame is no later than the last of its
/// range, its range is in order, and its timer holds less than one interval.
pub open spec fn valid(character: CharacterView) -> bool {
    &&& character.current_frame <= character.last
    &&& character.first <= character.last
    &&& character.timer_elapsed < character.interval
}

impl CharacterState {
    /// Every character in existence is valid and fits its fields.
    pub closed spec fn wf(&self) -> bool {
        &&& valid(self@)
        &&& self.range.wf()
        &&& self.timer.wf()
    }

    /// A valid character's view is valid.
    pub proof fn lemma_wf_is_valid(&self)
        requires
            self.wf(),
        ensures
            valid(self@),
    {
    }

    /// A character at its spawn point: on the ground, idle, looking right,
    /// with its timer at rest.
    pub fn new(config: &ControllerConfig, x: i128, y: i128) -> (character: CharacterState)
        requires
            config.wf(),
        ensures
            character.wf(),
            valid(character@),
            character@ == (CharacterView {
                x: x as int,
                y: y as int,
                facing: Facing::Right,
                current_frame: 0,
                first: config.range().first(),
                last: config.range().last(),
                interval: config.animation_interval(),
                timer_elapsed: 0,
                height: 0,
            }),
    {
        let timer = AnimationTimer::new(config.animation_interval_nanos()).unwrap();
        CharacterState {
            x,
            y,
            facing: Facing::Right,
            current_frame: 0,
            range: config.animation_range(),
            timer,
            jump: JumpState::new(),
        }
    }

    pub fn position(&self) -> (position: (i128, i128))
        ensures
            position.0 == self@.x,
            position.1 == self@.y,
    {
        (self.x, self.y)
    }

    pub fn orientation(&self) -> (facing: Facing)
        ensures
            facing == self@.facing,
    {
        self.facing
    }

    pub fn current_frame(&self) -> (frame: usize)
        ensures
            frame == self@.current_frame,
    {
        self.current_frame
    }

    pub fn animation_range(&self) -> (range: AnimationRange)
        ensures
            range.first() == self@.first,
            range.last() == self@.last,
    {
        self.range
    }

    pub fn animation_timer(&self) -> (timer: AnimationTimer)
        ensures
            timer.interval() == self@.interval,
            timer.elapsed() == self@.timer_elapsed,
    {
        self.timer
    }

    pub fn jump_state(&self) -> (jump: JumpState)
        ensures
            jump.height() == self@.height,
    {
        self.jump
    }

    /// Applies one frame of sideways movement: the displacement to `x`, the
    /// side held to the facing, and the idle frame when no side is held.
    pub fn move_character(&mut self, input: InputSnapshot, elapsed: u64, speed: u32)
        requires
            old(self).wf(),
        ensures
            final(self).wf(),
            valid(final(self)@),
            final(self)@ == moved(old(self)@, input, elapsed as nat, speed as nat),
    {
        let (dx, facing) = integrate_movement(input, elapsed, speed, self.facing);
        self.x = offset(self.x, dx);
        self.facing = facing;
        if !input.is_horizontal() {
            self.current_frame = 0;
        }
    }

    /// Applies one frame of the jump: the height gained to `y`, and the
    /// progress to the jump state.
    pub fn player_jump(
        &mut self,
        input: InputSnapshot,
        elapsed: u64,
        fall_speed: u32,
        jump_height: u64,
    )
        requires
            old(self).wf(),
        ensures
            final(self).wf(),
            valid(final(self)@),
            final(self)@ == jumped(
                old(self)@,
                input,
                elapsed as nat,
                fall_speed as nat,
                jump_height as nat,
            ),
    {
        let dy = self.jump.advance(input.jump, elapsed, fall_speed, jump_height);
        self.y = offset(self.y, dy as i128);
    }

    /// Ticks the animation timer by the frame's time and brings the sprite
    /// frame up to date: idle when no side is held, whatever the timer says;
    /// one frame on, wrapping after the last, when a side is held and the
    /// timer fired.
    pub fn update_char_sprite(&mut self, input: InputSnapshot, elapsed: u64)
        requires
            old(self).wf(),
        ensures
            final(self).wf(),
            valid(final(self)@),
            final(self)@ == animated(old(self)@, input, elapsed as nat),
    {
        let fired = self.timer.tick(elapsed);
        if !input.is_horizontal() {
            self.current_frame = 0;
        } else if fired {
            if self.current_frame == self.range.last_frame() {
                self.current_frame = 0;
            } else {
                self.current_frame = self.current_frame + 1;
            }
        }
    }
}

/// A character together with the constants it is moved by.
#[derive(Clone, Copy, Debug)]
pub struct CharacterController {
    config: ControllerConfig,
    state: CharacterState,
}

impl CharacterController {
    pub closed spec fn config(&self) -> ControllerConfig {
        self.config
    }

    pub closed spec fn state(&self) -> CharacterState {
        self.state
    }

    /// The constants and the character are each in order.
    pub open spec fn wf(&self) -> bool {
        self.config().wf() && self.state().wf()
    }

    /// A controller for a character that spawns at `(x, y)`.
    pub fn new(config: ControllerConfig, x: i128, y: i128) -> (controller: CharacterController)
        requires
            config.wf(),
        ensures
            controller.wf(),
            controller.config() == config,
            controller.state()@ == (CharacterView {
                x: x as int,
                y: y as int,
                facing: Facing::Right,
                current_frame: 0,
                first: config.range().first(),
                last: config.range().last(),
                interval: config.animation_interval(),
                timer_elapsed: 0,
                height: 0,
            }),
    {
        let state = CharacterState::new(&config, x, y);
        CharacterController { config, state }
    }

    pub fn character(&self) -> (state: CharacterState)
        ensures
            state == self.state(),
    {
        self.state
    }

    pub fn constants(&self) -> (config: ControllerConfig)
        ensures
            config == self.config(),
    {
        self.config
    }

    /// One frame. The same input and the same time go to every part: first
    /// the movement, then the jump, then the animation, so that the sprite
    /// frame answers to the input of this frame.
    pub fn update(&mut self, input: InputSnapshot, elapsed: u64)
        requires
            old(self).wf(),
        ensures
            final(self).wf(),
            valid(final(self).state()@),
            final(self).config() == old(self).config(),
            final(self).state()@ == frame_step(
                old(self).config().speed(),
                old(self).config().fall_speed(),
                old(self).config().jump_height(),
                old(self).state()@,
                input,
                elapsed as nat,
            ),
    {
        self.state.move_character(input, elapsed, self.config.speed_per_second());
        self.state.player_jump(
            input,
            elapsed,
            self.config.fall_speed_per_second(),
            self.config.jump_height_units(),
        );
        self.state.update_char_sprite(input, elapsed);
    }
}

/// One frame for a character that may not be there: a frame that arrives
/// before the character has spawned, or after it is gone, changes nothing.
pub fn update_if_spawned(
    slot: &mut Option<CharacterController>,
    input: InputSnapshot,
    elapsed: u64,
)
    requires
        old(slot).is_some() ==> old(slot).unwrap().wf(),
    ensures
        old(slot).is_none() ==> final(slot).is_none(),
        old(slot).is_some() ==> {
            &&& final(slot).is_some()
            &&& final(slot).unwrap().wf()
            &&& final(slot).unwrap().config() == old(slot).unwrap().config()
            &&& final(slot).unwrap().state()@ == frame_step(
                old(slot).unwrap().config().speed(),
                old(slot).unwrap().config().fall_speed(),
                old(slot).unwrap().config().jump_height(),
                old(slot).unwrap().state()@,
                input,
                elapsed as nat,
            )
        },
{
    match *slot {
        Some(controller) => {
            let mut controller = controller;
            controller.update(input, elapsed);
            *slot = Some(controller);
        },
        None => {},
    }
}

/// The sprite frame never leaves the range: it is at most `last` after every
/// frame, and a frame in which a side is held and the timer fires takes it
/// from `last` back to zero.
pub proof fn lemma_frame_stays_in_range(
    speed: nat,
    fall_speed: nat,
    jump_height: nat,
    before: CharacterView,
    input: InputSnapshot,
    elapsed: nat,
)
    requires
        valid(before),
    ensures
        0 <= frame_step(speed, fall_speed, jump_height, before, input, elapsed).current_frame
            <= before.last,
        frame_step(speed, fall_speed, jump_height, before, input, elapsed).last == before.last,
        valid(frame_step(speed, fall_speed, jump_height, before, input, elapsed)),
        before.current_frame == before.last && input.horizontal() && fires(
            before.interval,
            before.timer_elapsed,
            elapsed,
        ) ==> frame_step(speed, fall_speed, jump_height, before, input, elapsed).current_frame
            == 0,
{
    let sum: int = (before.timer_elapsed + elapsed) as int;
    let period: int = before.interval as int;
    assert(0 <= sum % period < period) by (nonlinear_arith)
        requires
            period > 0,
            sum >= 0,
    ;
}

/// A frame in which neither side is held leaves the character on the idle
/// frame, whatever frame it showed and whatever the timer did.
pub proof fn lemma_idle_when_no_side_is_held(
    speed: nat,
    fall_speed: nat,
    jump_height: nat,
    before: CharacterView,
    input: InputSnapshot,
    elapsed: nat,
)
    requires
        !input.left,
        !input.right,
    ensures
        frame_step(speed, fall_speed, jump_height, before, input, elapsed).current_frame == 0,
{
}

/// The jump accumulator is never negative, grows by the frame's jump power
/// on every frame of the ascent, and falls to exactly zero, not to the
/// ceiling, on the frame that finds it above the ceiling.
pub proof fn lemma_accumulator_grows_or_resets(
    speed: nat,
    fall_speed: nat,
    jump_height: nat,
    before: CharacterView,
    input: InputSnapshot,
    elapsed: nat,
)
    ensures
        frame_step(speed, fall_speed, jump_height, before, input, elapsed).height >= 0,
        before.height > jump_ceiling(jump_height) ==> frame_step(
            speed,
            fall_speed,
            jump_height,
            before,
            input,
            elapsed,
        ).height == 0,
        before.height <= jump_ceiling(jump_height) ==> frame_step(
            speed,
            fall_speed,
            jump_height,
            before,
            input,
            elapsed,
        ).height >= before.height,
        before.height <= jump_ceiling(jump_height) && (input.jump || before.height > 0)
            ==> frame_step(speed, fall_speed, jump_height, before, input, elapsed).height
            == before.height + jump_power(elapsed, fall_speed),
{
}

/// With the jump action held, time passing and a positive fall speed, every
/// frame before the accumulator resets lifts the character by exactly the
/// frame's jump power, which is positive, as long as the new height can be
/// stored.
pub proof fn lemma_held_jump_climbs(
    speed: nat,
    fall_speed: nat,
    jump_height: nat,
    before: CharacterView,
    input: InputSnapshot,
    elapsed: nat,
)
    requires
        input.jump,
        elapsed > 0,
        fall_speed > 0,
        before.height <= jump_ceiling(jump_height),
        i128::MIN <= before.y,
        before.y + jump_power(elapsed, fall_speed) <= i128::MAX,
    ensures
        frame_step(speed, fall_speed, jump_height, before, input, elapsed).y == before.y
            + jump_power(elapsed, fall_speed),
        frame_step(speed, fall_speed, jump_height, before, input, elapsed).y > before.y,
{
    crate::jump::lemma_held_jump_rises(
        before.height,
        elapsed,
        fall_speed,
        jump_ceiling(jump_height),
    );
}

/// Holding one side only moves the character by speed times time towards
/// that side and turns it that way; holding both moves it nowhere and turns
/// it to the tie-break side.
pub proof fn lemma_sideways_movement(
    speed: nat,
    fall_speed: nat,
    jump_height: nat,
    before: CharacterView,
    input: InputSnapshot,
    elapsed: nat,
)
    requires
        i128::MIN <= before.x - speed * elapsed,
        before.x + speed * elapsed <= i128::MAX,
    ensures
        ({
            let after = frame_step(speed, fall_speed, jump_height, before, input, elapsed);
            &&& input.right && !input.left ==> after.x == before.x + speed * elapsed
                && after.facing == Facing::Right
            &&& input.left && !input.right ==> after.x == before.x - speed * elapsed
                && after.facing == Facing::Left
            &&& input.left && input.right ==> after.x == before.x && after.facing
                == crate::movement::BOTH_HELD_FACING
            &&& !input.left && !input.right ==> after.x == before.x && after.facing
                == before.facing
        }),
{
    assert(speed * elapsed >= 0) by (nonlinear_arith)
        requires
            speed >= 0,
            elapsed >= 0,
    ;
}

} // verus!
