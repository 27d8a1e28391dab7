//! Host keyboard to DMG joypad mapping, after the physical layout on a
//! QWERTY keyboard:
//!
//! | Host key      | DMG button |
//! |---------------|------------|
//! | Arrow keys    | D-pad      |
//! | Z             | B          |
//! | X             | A          |
//! | Enter         | Start      |
//! | Right Shift   | Select     |
use vstd::prelude::*;
use crate::input::Button;

verus! {

/// The host keys the shell tells apart; the window layer maps every other
/// key to `Other`.
#[derive(Debug, Clone, Copy, PartialEq, Eq, Structural)]
pub enum HostKey {
    ArrowRight,
    ArrowLeft,
    ArrowUp,
    ArrowDown,
    KeyZ,
    KeyX,
    Enter,
    ShiftRight,
    Escape,
    Other,
}

/// The button a host key stands for, if any.
pub open spec fn button_for(key: HostKey) -> Option<Button> {
    match key {
        HostKey::ArrowRight => Some(Button::Right),
        HostKey::ArrowLeft => Some(Button::Left),
        HostKey::ArrowUp => Some(Button::Up),
        HostKey::ArrowDown => Some(Button::Down),
        HostKey::KeyZ => Some(Button::B),
        HostKey::KeyX => Some(Button::A),
        HostKey::Enter => Some(Button::Start),
        HostKey::ShiftRight => Some(Button::Select),
        HostKey::Escape => None,
        HostKey::Other => None,
    }
}

/// Maps a host key to a DMG button, `None` for unmapped keys.
pub fn map_key(key: HostKey) -> (button: Option<Button>)
    ensures
        button == button_for(key),
{
    match key {
        HostKey::ArrowRight => Some(Button::Right),
        HostKey::ArrowLeft => Some(Button::Left),
        HostKey::ArrowUp => Some(Button::Up),
        HostKey::ArrowDown => Some(Button::Down),
        HostKey::KeyZ => Some(Button::B),
        HostKey::KeyX => Some(Button::A),
        HostKey::Enter => Some(Button::Start),
        HostKey::ShiftRight => Some(Button::Select),
        HostKey::Escape => None,
        HostKey::Other => None,
    }
}

/// Different keys never stand for the same button, and every button has a
/// key.
pub proof fn lemma_key_map_is_one_to_one(a: HostKey, b: HostKey, button: Button)
    ensures
        button_for(a) is Some && button_for(a) == button_for(b) ==> a == b,
        exists|k: HostKey| button_for(k) == Some(button),
{
    match button {
        Button::Right => assert(button_for(HostKey::ArrowRight) == Some(button)),
        Button::Left => assert(button_for(HostKey::ArrowLeft) == Some(button)),
        Button::Up => assert(button_for(HostKey::ArrowUp) == Some(button)),
        Button::Down => assert(button_for(HostKey::ArrowDown) == Some(button)),
        Button::B => assert(button_for(HostKey::KeyZ) == Some(button)),
        Button::A => assert(button_for(HostKey::KeyX) == Some(button)),
        Button::Start => assert(button_for(HostKey::Enter) == Some(button)),
        Button::Select => assert(button_for(HostKey::ShiftRight) == Some(button)),
    }
}

} // verus!
