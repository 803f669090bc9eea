use platformer_controller::config::{AnimationRange, ConfigError, ControllerConfig};
use platformer_controller::controller::{update_if_spawned, CharacterController, CharacterState};
use platformer_controller::input::{movement_input, InputSnapshot};
use platformer_controller::jump::{JumpState, SUBUNITS_PER_UNIT};
use platformer_controller::movement::{integrate_movement, Facing, BOTH_HELD_FACING};

const MS: u64 = 1_000_000;
const UNIT: i128 = SUBUNITS_PER_UNIT as i128;

fn frog() -> CharacterController {
    let config = ControllerConfig::new(100, 98, 100, 50_000_000, 1, 11).unwrap();
    CharacterController::new(config, 0, 0)
}

fn held(left: bool, right: bool, jump: bool) -> InputSnapshot {
    movement_input(left, right, jump)
}

#[test]
fn snapshot_of_no_keys_is_all_false() {
    let snapshot = InputSnapshot::new();
    assert!(!snapshot.left && !snapshot.right && !snapshot.jump);
    assert_eq!(snapshot, movement_input(false, false, false));
    assert!(!snapshot.is_horizontal());
}

#[test]
fn snapshot_flags_follow_their_keys() {
    for bits in 0..8u8 {
        let (left, right, jump) = (bits & 1 != 0, bits & 2 != 0, bits & 4 != 0);
        let snapshot = movement_input(left, right, jump);
        assert_eq!(snapshot, InputSnapshot { left, right, jump });
        assert_eq!(snapshot.is_horizontal(), left || right);
    }
}

#[test]
fn config_keeps_its_constants() {
    let config = ControllerConfig::new(100, 98, 100, 50_000_000, 1, 11).unwrap();
    assert_eq!(config.speed_per_second(), 100);
    assert_eq!(config.fall_speed_per_second(), 98);
    assert_eq!(config.jump_height_units(), 100);
    assert_eq!(config.animation_interval_nanos(), 50_000_000);
    assert_eq!(config.animation_range().first_frame(), 1);
    assert_eq!(config.animation_range().last_frame(), 11);
}

#[test]
fn config_with_inverted_range_is_refused() {
    assert_eq!(
        ControllerConfig::new(100, 98, 100, 50_000_000, 12, 11).unwrap_err(),
        ConfigError::InvertedRange
    );
    assert_eq!(AnimationRange::new(5, 4).unwrap_err(), ConfigError::InvertedRange);
    assert!(AnimationRange::new(4, 4).is_ok());
    assert!(AnimationRange::new(0, 0).is_ok());
}

#[test]
fn config_with_non_positive_interval_is_refused() {
    assert_eq!(
        ControllerConfig::new(100, 98, 100, 0, 1, 11).unwrap_err(),
        ConfigError::NonPositiveInterval
    );
    assert_eq!(
        ControllerConfig::new(100, 98, 100, -50_000_000, 1, 11).unwrap_err(),
        ConfigError::NonPositiveInterval
    );
}

#[test]
fn config_with_negative_jump_height_is_refused() {
    assert_eq!(
        ControllerConfig::new(100, 98, -1, 50_000_000, 1, 11).unwrap_err(),
        ConfigError::NegativeJumpHeight
    );
    assert!(ControllerConfig::new(100, 98, 0, 50_000_000, 1, 11).is_ok());
}

#[test]
fn config_faults_are_reported_in_order() {
    assert_eq!(
        ControllerConfig::new(100, 98, -1, -1, 3, 2).unwrap_err(),
        ConfigError::InvertedRange
    );
    assert_eq!(
        ControllerConfig::new(100, 98, -1, -1, 2, 3).unwrap_err(),
        ConfigError::NonPositiveInterval
    );
}

#[test]
fn character_spawns_idle_on_the_ground() {
    let config = ControllerConfig::new(100, 98, 100, 50_000_000, 1, 11).unwrap();
    let character = CharacterState::new(&config, 7 * UNIT, -3 * UNIT);
    assert_eq!(character.position(), (7 * UNIT, -3 * UNIT));
    assert_eq!(character.orientation(), Facing::Right);
    assert_eq!(character.current_frame(), 0);
    assert_eq!(character.jump_state().height_accumulated(), 0);
    assert_eq!(character.animation_timer().elapsed_nanos(), 0);
    assert_eq!(character.animation_timer().interval_nanos(), 50_000_000);
    assert_eq!(character.animation_range().first_frame(), 1);
    assert_eq!(character.animation_range().last_frame(), 11);
}

#[test]
fn right_for_half_a_second_moves_fifty_units() {
    let mut controller = frog();
    controller.update(held(false, true, false), 500 * MS);
    assert_eq!(controller.character().position(), (50 * UNIT, 0));
    assert_eq!(controller.character().orientation(), Facing::Right);
}

#[test]
fn left_for_half_a_second_moves_fifty_units_back() {
    let mut controller = frog();
    controller.update(held(true, false, false), 500 * MS);
    assert_eq!(controller.character().position(), (-50 * UNIT, 0));
    assert_eq!(controller.character().orientation(), Facing::Left);
}

#[test]
fn left_and_right_together_cancel_and_left_wins_the_facing() {
    let mut controller = frog();
    controller.update(held(true, true, false), 500 * MS);
    assert_eq!(controller.character().position(), (0, 0));
    assert_eq!(controller.character().orientation(), Facing::Left);
    assert_eq!(BOTH_HELD_FACING, Facing::Left);
    assert_eq!(
        integrate_movement(held(true, true, false), 500 * MS, 100, Facing::Right),
        (0, Facing::Left)
    );
}

#[test]
fn no_side_held_keeps_place_and_facing() {
    let mut controller = frog();
    controller.update(held(true, false, false), 100 * MS);
    controller.update(held(false, false, false), 100 * MS);
    assert_eq!(controller.character().position(), (-10 * UNIT, 0));
    assert_eq!(controller.character().orientation(), Facing::Left);
}

#[test]
fn integrator_gives_exact_displacement() {
    assert_eq!(
        integrate_movement(held(false, true, false), 1, 1, Facing::Left),
        (1, Facing::Right)
    );
    assert_eq!(
        integrate_movement(held(true, false, false), u64::MAX, u32::MAX, Facing::Right),
        (-((u64::MAX as i128) * (u32::MAX as i128)), Facing::Left)
    );
    assert_eq!(
        integrate_movement(held(false, false, true), 500 * MS, 100, Facing::Left),
        (0, Facing::Left)
    );
}

#[test]
fn facing_maps_to_a_turn() {
    assert_eq!(Facing::Right.rotation_degrees(), 0);
    assert_eq!(Facing::Left.rotation_degrees(), 180);
}

#[test]
fn position_saturates_at_the_edge_of_the_range() {
    let config = ControllerConfig::new(100, 98, 100, 50_000_000, 1, 11).unwrap();
    let mut controller = CharacterController::new(config, i128::MAX - 1, i128::MAX);
    controller.update(held(false, true, true), 500 * MS);
    assert_eq!(controller.character().position(), (i128::MAX, i128::MAX));
    let mut controller = CharacterController::new(config, i128::MIN + 1, 0);
    controller.update(held(true, false, false), 500 * MS);
    assert_eq!(controller.character().position().0, i128::MIN);
}

#[test]
fn held_jump_climbs_by_jump_power_every_frame() {
    let mut controller = frog();
    let power: i128 = 19_600_000_000;
    let mut previous = controller.character().position().1;
    for frame in 1..=3i128 {
        controller.update(held(false, false, true), 100 * MS);
        let y = controller.character().position().1;
        assert!(y > previous);
        assert_eq!(y, frame * power);
        assert_eq!(controller.character().jump_state().height_accumulated(), (frame * power) as u128);
        previous = y;
    }
}

#[test]
fn jump_resets_to_zero_after_passing_the_ceiling() {
    let mut controller = frog();
    let power: u128 = 19_600_000_000;
    for frame in 1..=6u128 {
        controller.update(held(false, false, true), 100 * MS);
        assert_eq!(controller.character().jump_state().height_accumulated(), frame * power);
    }
    // 117.6 units: above the ceiling, and not clamped to it
    assert_eq!(controller.character().jump_state().height_accumulated(), 117_600_000_000);
    controller.update(held(false, false, true), 100 * MS);
    assert_eq!(controller.character().jump_state().height_accumulated(), 0);
    // the character stays where the ascent left it
    assert_eq!(controller.character().position().1, 117_600_000_000);
}

#[test]
fn released_jump_keeps_ascending_until_the_reset() {
    let mut controller = frog();
    controller.update(held(false, false, true), 100 * MS);
    controller.update(held(false, false, false), 100 * MS);
    assert_eq!(controller.character().position().1, 39_200_000_000);
    assert_eq!(controller.character().jump_state().height_accumulated(), 39_200_000_000);
}

#[test]
fn grounded_without_jump_does_nothing() {
    let mut controller = frog();
    controller.update(held(false, false, false), 100 * MS);
    assert_eq!(controller.character().position(), (0, 0));
    assert_eq!(controller.character().jump_state().height_accumulated(), 0);
}

#[test]
fn jump_at_the_ceiling_still_ascends() {
    let mut jump = JumpState::new();
    assert_eq!(jump.advance(true, 1_000_000_000, 1, 2), 2_000_000_000);
    assert_eq!(jump.height_accumulated(), 2_000_000_000);
    assert_eq!(jump.advance(false, 1_000_000_000, 1, 2), 2_000_000_000);
    assert_eq!(jump.height_accumulated(), 4_000_000_000);
    assert_eq!(jump.advance(true, 1_000_000_000, 1, 2), 0);
    assert_eq!(jump.height_accumulated(), 0);
}

#[test]
fn jump_with_no_time_or_no_speed_gains_nothing() {
    let mut jump = JumpState::new();
    assert_eq!(jump.advance(true, 0, 98, 100), 0);
    assert_eq!(jump.advance(true, 100 * MS, 0, 100), 0);
    assert_eq!(jump.height_accumulated(), 0);
}

#[test]
fn jump_power_at_the_largest_inputs_is_exact() {
    let mut jump = JumpState::new();
    let power = (u64::MAX as u128) * (u32::MAX as u128) * 2;
    assert_eq!(jump.advance(true, u64::MAX, u32::MAX, u64::MAX), power);
    assert_eq!(jump.height_accumulated(), power);
}

#[test]
fn walk_cycle_advances_once_per_tick_and_wraps() {
    let mut controller = frog();
    assert_eq!(controller.character().current_frame(), 0);
    for tick in 1..=11usize {
        controller.update(held(false, true, false), 50 * MS);
        assert_eq!(controller.character().current_frame(), tick);
    }
    controller.update(held(false, true, false), 50 * MS);
    assert_eq!(controller.character().current_frame(), 0);
    controller.update(held(false, true, false), 50 * MS);
    assert_eq!(controller.character().current_frame(), 1);
}

#[test]
fn frame_never_passes_the_last_of_the_range() {
    let config = ControllerConfig::new(100, 98, 100, 50_000_000, 1, 3).unwrap();
    let mut controller = CharacterController::new(config, 0, 0);
    let mut seen = Vec::new();
    for _ in 0..9 {
        controller.update(held(true, true, false), 50 * MS);
        let frame = controller.character().current_frame();
        assert!(frame <= 3);
        seen.push(frame);
    }
    assert_eq!(seen, vec![1, 2, 3, 0, 1, 2, 3, 0, 1]);
}

#[test]
fn frame_holds_between_timer_fires() {
    let mut controller = frog();
    controller.update(held(true, false, false), 20 * MS);
    assert_eq!(controller.character().current_frame(), 0);
    controller.update(held(true, false, false), 20 * MS);
    assert_eq!(controller.character().current_frame(), 0);
    controller.update(held(true, false, false), 20 * MS);
    assert_eq!(controller.character().current_frame(), 1);
    assert_eq!(controller.character().animation_timer().elapsed_nanos(), 10 * MS);
}

#[test]
fn releasing_both_sides_resets_to_the_idle_frame() {
    let mut controller = frog();
    for _ in 0..5 {
        controller.update(held(false, true, false), 50 * MS);
    }
    assert_eq!(controller.character().current_frame(), 5);
    // the timer fires in this frame too, and idle still wins
    controller.update(held(false, false, true), 50 * MS);
    assert_eq!(controller.character().current_frame(), 0);
    controller.update(held(false, false, false), 1);
    assert_eq!(controller.character().current_frame(), 0);
}

#[test]
fn timer_runs_on_while_the_character_is_idle() {
    let mut controller = frog();
    controller.update(held(false, false, false), 30 * MS);
    assert_eq!(controller.character().animation_timer().elapsed_nanos(), 30 * MS);
    controller.update(held(false, true, false), 30 * MS);
    assert_eq!(controller.character().current_frame(), 1);
}

#[test]
fn sprite_update_alone_changes_only_frame_and_timer() {
    let config = ControllerConfig::new(100, 98, 100, 50_000_000, 1, 11).unwrap();
    let mut character = CharacterState::new(&config, 5, 6);
    character.update_char_sprite(held(true, false, true), 60 * MS);
    assert_eq!(character.current_frame(), 1);
    assert_eq!(character.animation_timer().elapsed_nanos(), 10 * MS);
    assert_eq!(character.position(), (5, 6));
    assert_eq!(character.orientation(), Facing::Right);
    assert_eq!(character.jump_state().height_accumulated(), 0);
}

#[test]
fn movement_alone_changes_only_x_and_facing() {
    let config = ControllerConfig::new(100, 98, 100, 50_000_000, 1, 11).unwrap();
    let mut character = CharacterState::new(&config, 5, 6);
    character.move_character(held(true, false, true), 60 * MS, 10);
    assert_eq!(character.position(), (5 - 600_000_000, 6));
    assert_eq!(character.orientation(), Facing::Left);
    assert_eq!(character.current_frame(), 0);
    assert_eq!(character.animation_timer().elapsed_nanos(), 0);
    assert_eq!(character.jump_state().height_accumulated(), 0);
}

#[test]
fn jump_alone_changes_only_y_and_height() {
    let config = ControllerConfig::new(100, 98, 100, 50_000_000, 1, 11).unwrap();
    let mut character = CharacterState::new(&config, 5, 6);
    character.player_jump(held(true, false, true), 100 * MS, 98, 100);
    assert_eq!(character.position(), (5, 6 + 19_600_000_000));
    assert_eq!(character.jump_state().height_accumulated(), 19_600_000_000);
    assert_eq!(character.orientation(), Facing::Right);
    assert_eq!(character.current_frame(), 0);
}

#[test]
fn frame_for_a_missing_character_is_a_no_op() {
    let mut slot: Option<CharacterController> = None;
    update_if_spawned(&mut slot, held(true, false, true), 50 * MS);
    assert!(slot.is_none());
}

#[test]
fn frame_for_a_spawned_character_updates_it() {
    let mut slot = Some(frog());
    update_if_spawned(&mut slot, held(false, true, true), 500 * MS);
    let controller = slot.unwrap();
    assert_eq!(controller.character().position(), (50 * UNIT, 98 * UNIT));
    assert_eq!(controller.character().current_frame(), 1);
    assert_eq!(controller.constants().speed_per_second(), 100);
}

#[test]
fn movement_without_a_side_held_shows_the_idle_frame() {
    let config = ControllerConfig::new(100, 98, 100, 50_000_000, 1, 11).unwrap();
    let mut character = CharacterState::new(&config, 0, 0);
    character.update_char_sprite(held(false, true, false), 50 * MS);
    character.update_char_sprite(held(false, true, false), 50 * MS);
    assert_eq!(character.current_frame(), 2);
    character.move_character(held(false, true, false), 50 * MS, 100);
    assert_eq!(character.current_frame(), 2);
    character.move_character(held(false, false, true), 50 * MS, 100);
    assert_eq!(character.current_frame(), 0);
    assert_eq!(character.position(), (5 * UNIT, 0));
}
