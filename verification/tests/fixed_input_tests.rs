use bevy::input::Input;
use fixed_input::input::{input_clear, input_update, FixedInput};

#[test]
fn fresh_accumulator_reports_nothing() {
    let acc = FixedInput::default();
    assert!(!acc.pressed(1));
    assert!(!acc.just_pressed(1));
    assert!(!acc.just_released(1));
}

#[test]
fn ingest_copies_transitions() {
    let mut dev: Input<u32> = Input::default();
    dev.press(7);
    let mut acc = FixedInput::default();
    input_update(&mut acc, &dev);
    assert!(acc.pressed(7));
    assert!(acc.just_pressed(7));
    assert!(!acc.just_released(7));
    assert!(!acc.pressed(8));
    assert!(!acc.just_pressed(8));
}

#[test]
fn ingest_is_idempotent() {
    let mut dev: Input<u32> = Input::default();
    dev.press(7);
    let mut once = FixedInput::default();
    input_update(&mut once, &dev);
    let mut thrice = FixedInput::default();
    input_update(&mut thrice, &dev);
    input_update(&mut thrice, &dev);
    input_update(&mut thrice, &dev);
    for key in [6, 7, 8] {
        assert_eq!(once.pressed(key), thrice.pressed(key));
        assert_eq!(once.just_pressed(key), thrice.just_pressed(key));
        assert_eq!(once.just_released(key), thrice.just_released(key));
    }
}

#[test]
fn clear_empties_transients_and_keeps_held() {
    let mut dev: Input<u32> = Input::default();
    dev.press(7);
    dev.press(9);
    dev.release(9);
    let mut acc = FixedInput::default();
    input_update(&mut acc, &dev);
    assert!(acc.pressed(7));
    assert!(acc.just_pressed(9));
    assert!(acc.just_released(9));
    input_clear(&mut acc);
    assert!(acc.pressed(7));
    assert!(!acc.just_pressed(7));
    assert!(!acc.just_released(7));
    assert!(!acc.pressed(9));
    assert!(!acc.just_pressed(9));
    assert!(!acc.just_released(9));
}

#[test]
fn press_in_empty_frame_waits_for_first_tick() {
    // Frame 1: the device reports key 42 just-pressed; zero ticks run, so the
    // accumulator is not cleared.
    let mut dev: Input<u32> = Input::default();
    dev.press(42);
    let mut acc = FixedInput::default();
    input_update(&mut acc, &dev);
    // Frame 2: no further device changes; the frame boundary clears the
    // device's own transients, not the accumulator's.
    dev.clear();
    input_update(&mut acc, &dev);
    // Tick 1 of frame 2 still observes the press.
    assert!(acc.just_pressed(42));
    assert!(acc.pressed(42));
    input_clear(&mut acc);
    // Ticks 2 and 3 observe the key as held but no longer just-pressed.
    assert!(!acc.just_pressed(42));
    assert!(acc.pressed(42));
    input_clear(&mut acc);
    assert!(!acc.just_pressed(42));
    assert!(acc.pressed(42));
}

#[test]
fn press_and_release_between_ticks_are_not_lost() {
    // The key goes down in frame 1 and up in frame 2, before any tick runs:
    // the first tick still sees both transitions.
    let mut dev: Input<u32> = Input::default();
    dev.press(3);
    let mut acc = FixedInput::default();
    input_update(&mut acc, &dev);
    dev.clear();
    dev.release(3);
    input_update(&mut acc, &dev);
    assert!(acc.just_pressed(3));
    assert!(acc.just_released(3));
    assert!(!acc.pressed(3));
}

#[test]
fn held_key_reports_just_pressed_only_once_per_clear() {
    let mut dev: Input<u32> = Input::default();
    dev.press(5);
    let mut acc = FixedInput::default();
    input_update(&mut acc, &dev);
    input_clear(&mut acc);
    // The key stays down: later frames report no new transition.
    dev.clear();
    input_update(&mut acc, &dev);
    input_update(&mut acc, &dev);
    assert!(acc.pressed(5));
    assert!(!acc.just_pressed(5));
    // Only a release ends the held state.
    dev.release(5);
    input_update(&mut acc, &dev);
    assert!(!acc.pressed(5));
    assert!(acc.just_released(5));
}
