//! Host input as the control loop sees it, and the fixed table that binds
//! keys to what the player does.

use crate::property::Speed;
use vstd::prelude::*;

verus! {

/// The keys that the player tells apart.
#[derive(Clone, Copy, Debug, PartialEq, Eq, Structural)]
pub enum Key {
    Escape,
    Space,
    F,
    /// A digit of the numeric keypad, zero to nine.
    Keypad(u8),
    /// Any other key, or none that the host could name.
    Other,
}

/// One discrete event from the host's input queue.
#[derive(Clone, Copy, Debug, PartialEq, Eq, Structural)]
pub enum InputEvent {
    /// The host asks the player to end.
    Quit,
    /// A key went down; `repeat` is set where the host repeats a held key.
    KeyDown { key: Key, repeat: bool },
    /// An event that the player has no use for.
    Other,
}

/// What a bound input asks of the player.
#[derive(Clone, Copy, Debug, PartialEq, Eq, Structural)]
pub enum Control {
    Quit,
    TogglePause,
    SetSpeed(Speed),
    ToggleFullscreen,
}

/// The host's code for the escape key.
pub const CODE_ESCAPE: i32 = 27;

/// The host's code for the space bar.
pub const CODE_SPACE: i32 = 32;

/// The host's code for the letter F.
pub const CODE_F: i32 = 102;

/// The host's code for the keypad's one; two to nine follow it, then zero.
pub const CODE_KEYPAD_1: i32 = 1073741913;

/// The host's code for the keypad's zero.
pub const CODE_KEYPAD_0: i32 = 1073741922;

impl Key {
    /// The key that a host key code names.
    pub open spec fn of_code(code: i32) -> Key {
        if code == CODE_ESCAPE {
            Key::Escape
        } else if code == CODE_SPACE {
            Key::Space
        } else if code == CODE_F {
            Key::F
        } else if CODE_KEYPAD_1 <= code < CODE_KEYPAD_0 {
            Key::Keypad((code - CODE_KEYPAD_1 + 1) as u8)
        } else if code == CODE_KEYPAD_0 {
            Key::Keypad(0)
        } else {
            Key::Other
        }
    }

    /// Tells the keys apart by the host's key code.
    pub fn from_code(code: i32) -> (key: Key)
        ensures
            key == Self::of_code(code),
            key matches Key::Keypad(digit) ==> digit <= 9,
    {
        if code == CODE_ESCAPE {
            Key::Escape
        } else if code == CODE_SPACE {
            Key::Space
        } else if code == CODE_F {
            Key::F
        } else if CODE_KEYPAD_1 <= code && code < CODE_KEYPAD_0 {
            Key::Keypad((code - CODE_KEYPAD_1 + 1) as u8)
        } else if code == CODE_KEYPAD_0 {
            Key::Keypad(0)
        } else {
            Key::Other
        }
    }
}

/// The binding table. A quit request and the escape key end the player,
/// repeated or not. The space bar, the letter F and the keypad's digits are
/// bound on the first key-down only: a repeated one is bound to nothing.
pub open spec fn bound(event: InputEvent) -> Option<Control> {
    match event {
        InputEvent::Quit => Some(Control::Quit),
        InputEvent::KeyDown { key: Key::Escape, repeat } => Some(Control::Quit),
        InputEvent::KeyDown { key, repeat: true } => None,
        InputEvent::KeyDown { key: Key::Space, repeat } => Some(Control::TogglePause),
        InputEvent::KeyDown { key: Key::F, repeat } => Some(Control::ToggleFullscreen),
        InputEvent::KeyDown { key: Key::Keypad(digit), repeat } => if digit <= 9 {
            Some(Control::SetSpeed(Speed::of_digit(digit)))
        } else {
            None
        },
        InputEvent::KeyDown { key: Key::Other, repeat } => None,
        InputEvent::Other => None,
    }
}

/// Looks an input event up in the binding table.
pub fn binding(event: InputEvent) -> (control: Option<Control>)
    ensures
        control == bound(event),
{
    match event {
        InputEvent::Quit => Some(Control::Quit),
        InputEvent::KeyDown { key, repeat } => match key {
            Key::Escape => Some(Control::Quit),
            Key::Space => if repeat { None } else { Some(Control::TogglePause) },
            Key::F => if repeat { None } else { Some(Control::ToggleFullscreen) },
            Key::Keypad(digit) => if repeat {
                None
            } else {
                match Speed::for_digit(digit) {
                    Some(speed) => Some(Control::SetSpeed(speed)),
                    None => None,
                }
            },
            Key::Other => None,
        },
        InputEvent::Other => None,
    }
}

/// The keypad's digits one to nine set the speed to as many tenths, and zero
/// sets it to one; a repeated key-down of any of them sets nothing.
pub proof fn lemma_speed_bindings(digit: u8, repeat: bool)
    requires
        digit <= 9,
    ensures
        !repeat ==> bound(InputEvent::KeyDown { key: Key::Keypad(digit), repeat })
            == Some(Control::SetSpeed(Speed { tenths: if digit == 0 { 10u32 } else { digit as u32 } })),
        repeat ==> bound(InputEvent::KeyDown { key: Key::Keypad(digit), repeat }) is None,
        Speed::of_digit(digit).positive(),
        Speed::of_digit(digit).tenths <= 10,
{
}

/// A repeated key-down asks for nothing but, on the escape key, the end.
pub proof fn lemma_repeat_is_unbound(key: Key)
    ensures
        key != Key::Escape ==> bound(InputEvent::KeyDown { key, repeat: true }) is None,
        bound(InputEvent::KeyDown { key: Key::Escape, repeat: true }) == Some(Control::Quit),
{
}

} // verus!
