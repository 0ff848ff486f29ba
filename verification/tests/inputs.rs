use gametank_core::gametank_bus::new_framebuffer;
use gametank_core::inputs::{ControllerButton, GamePad, InputCommand, KeyState};

#[test]
fn key_state_pressed_classification() {
    assert!(KeyState::JustPressed.is_pressed());
    assert!(KeyState::Held.is_pressed());
    assert!(!KeyState::JustReleased.is_pressed());
    assert!(!KeyState::Released.is_pressed());
}

#[test]
fn key_state_new_from_level() {
    assert_eq!(KeyState::new(true), KeyState::JustPressed);
    assert_eq!(KeyState::new(false), KeyState::Released);
}

#[test]
fn key_state_update_state_table() {
    assert_eq!(KeyState::JustPressed.update_state(true), KeyState::JustPressed);
    assert_eq!(KeyState::Held.update_state(true), KeyState::Held);
    assert_eq!(KeyState::JustReleased.update_state(true), KeyState::JustPressed);
    assert_eq!(KeyState::Released.update_state(true), KeyState::JustPressed);
    assert_eq!(KeyState::JustPressed.update_state(false), KeyState::JustReleased);
    assert_eq!(KeyState::Held.update_state(false), KeyState::JustReleased);
    assert_eq!(KeyState::JustReleased.update_state(false), KeyState::Released);
    assert_eq!(KeyState::Released.update_state(false), KeyState::Released);
}

#[test]
fn key_state_update_settles_edges() {
    assert_eq!(KeyState::JustPressed.update(), KeyState::Held);
    assert_eq!(KeyState::Held.update(), KeyState::Held);
    assert_eq!(KeyState::JustReleased.update(), KeyState::Released);
    assert_eq!(KeyState::Released.update(), KeyState::Released);
}

#[test]
fn gamepad_default_is_all_clear() {
    let p = GamePad::default();
    assert!(!p.up && !p.down && !p.left && !p.right);
    assert!(!p.a && !p.b && !p.c && !p.start);
    assert!(!p.port_select);
}

#[test]
fn input_commands_carry_buttons() {
    let c = InputCommand::Controller1(ControllerButton::A);
    assert_eq!(c, InputCommand::Controller1(ControllerButton::A));
    assert_ne!(c, InputCommand::Controller2(ControllerButton::A));
    assert_ne!(
        InputCommand::Controller1(ControllerButton::B),
        InputCommand::Controller1(ControllerButton::C)
    );
}

#[test]
fn new_framebuffer_is_filled() {
    let fb = new_framebuffer(0x3C);
    assert_eq!(fb.len(), 0x4000);
    assert!(fb.iter().all(|b| *b == 0x3C));
}
