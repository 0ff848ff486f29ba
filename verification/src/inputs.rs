//! Gamepad state and the key-state machine that produces it from physical
//! input edges.

use vstd::prelude::*;

verus! {

/// Per-button state of one gamepad, as read by the controller status
/// registers.  `port_select` is the latch that chooses which half of the
/// button set a status read reports.
#[derive(Debug, Clone, Copy, PartialEq, Eq, Structural)]
pub struct GamePad {
    pub up: bool,
    pub down: bool,
    pub left: bool,
    pub right: bool,
    pub b: bool,
    pub a: bool,
    pub c: bool,
    pub start: bool,
    pub port_select: bool,
}

impl GamePad {
    /// All buttons released, select latch clear.
    pub open spec fn spec_default() -> GamePad {
        GamePad {
            up: false,
            down: false,
            left: false,
            right: false,
            b: false,
            a: false,
            c: false,
            start: false,
            port_select: false,
        }
    }
}

impl Default for GamePad {
    /// All buttons released, select latch clear.
    fn default() -> (r: GamePad)
        ensures
            r == GamePad::spec_default(),
    {
        GamePad {
            up: false,
            down: false,
            left: false,
            right: false,
            b: false,
            a: false,
            c: false,
            start: false,
            port_select: false,
        }
    }
}

/// A physical controller button.
#[derive(Copy, Clone, Debug, Eq, Hash, PartialEq)]
pub enum ControllerButton {
    Up,
    Down,
    Left,
    Right,
    B,
    A,
    Start,
    C,
}

/// A translated input event addressed to the emulator.
#[derive(Copy, Clone, Debug, Eq, Hash, PartialEq)]
pub enum InputCommand {
    Controller1(ControllerButton),
    Controller2(ControllerButton),
    PlayPause,
    SoftReset,
    HardReset,
}

/// The four states of one key, distinguishing the frames on which it changed.
#[derive(Copy, Clone, Debug, Eq, Hash, PartialEq)]
pub enum KeyState {
    JustPressed,
    Held,
    JustReleased,
    Released,
}

impl KeyState {
    /// Whether this state counts as pressed.
    pub open spec fn spec_is_pressed(self) -> bool {
        self == KeyState::JustPressed || self == KeyState::Held
    }

    /// The state a fresh key takes when first observed.
    pub open spec fn spec_new(pressed: bool) -> KeyState {
        if pressed {
            KeyState::JustPressed
        } else {
            KeyState::Released
        }
    }

    /// The state after observing the key's current physical level.
    pub open spec fn spec_update_state(self, pressed: bool) -> KeyState {
        if pressed {
            match self {
                KeyState::JustPressed => KeyState::JustPressed,
                KeyState::Held => KeyState::Held,
                KeyState::JustReleased => KeyState::JustPressed,
                KeyState::Released => KeyState::JustPressed,
            }
        } else {
            match self {
                KeyState::JustPressed => KeyState::JustReleased,
                KeyState::Held => KeyState::JustReleased,
                KeyState::JustReleased => KeyState::Released,
                KeyState::Released => KeyState::Released,
            }
        }
    }

    /// The state after one frame elapses with no new observation: edge
    /// states settle into their level states.
    pub open spec fn spec_update(self) -> KeyState {
        match self {
            KeyState::JustPressed => KeyState::Held,
            KeyState::Held => KeyState::Held,
            KeyState::JustReleased => KeyState::Released,
            KeyState::Released => KeyState::Released,
        }
    }

    /// Whether this state counts as pressed.
    pub fn is_pressed(&self) -> (r: bool)
        ensures
            r == self.spec_is_pressed(),
    {
        match self {
            KeyState::JustPressed => true,
            KeyState::Held => true,
            KeyState::JustReleased => false,
            KeyState::Released => false,
        }
    }

    /// The state a fresh key takes when first observed.
    pub fn new(pressed: bool) -> (r: KeyState)
        ensures
            r == KeyState::spec_new(pressed),
    {
        if pressed {
            return KeyState::JustPressed;
        }
        KeyState::Released
    }

    /// Fold the key's current physical level into its state.
    pub fn update_state(&self, pressed: bool) -> (r: KeyState)
        ensures
            r == self.spec_update_state(pressed),
    {
        if pressed {
            return match self {
                KeyState::JustPressed => KeyState::JustPressed,
                KeyState::Held => KeyState::Held,
                KeyState::JustReleased => KeyState::JustPressed,
                KeyState::Released => KeyState::JustPressed,
            };
        }
        match self {
            KeyState::JustPressed => KeyState::JustReleased,
            KeyState::Held => KeyState::JustReleased,
            KeyState::JustReleased => KeyState::Released,
            KeyState::Released => KeyState::Released,
        }
    }

    /// Let one frame elapse: edge states settle into level states.
    pub fn update(&self) -> (r: KeyState)
        ensures
            r == self.spec_update(),
    {
        match self {
            KeyState::JustPressed => KeyState::Held,
            KeyState::Held => KeyState::Held,
            KeyState::JustReleased => KeyState::Released,
            KeyState::Released => KeyState::Released,
        }
    }
}

} // verus!
