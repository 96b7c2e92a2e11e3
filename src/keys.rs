//! Normalised key input: a key and whether the control modifier was held.

use crossterm::event::{Event, KeyCode, KeyEvent, KeyModifiers};
use vstd::prelude::*;

verus! {

#[verifier::external_type_specification]
#[verifier::external_body]
pub struct ExKeyModifiers(crossterm::event::KeyModifiers);

#[verifier::external_type_specification]
#[verifier::external_body]
pub struct ExKeyEventKind(crossterm::event::KeyEventKind);

#[verifier::external_type_specification]
#[verifier::external_body]
pub struct ExKeyEventState(crossterm::event::KeyEventState);

#[verifier::external_type_specification]
#[verifier::external_body]
pub struct ExMediaKeyCode(crossterm::event::MediaKeyCode);

#[verifier::external_type_specification]
#[verifier::external_body]
pub struct ExModifierKeyCode(crossterm::event::ModifierKeyCode);

#[verifier::external_type_specification]
#[verifier::external_body]
pub struct ExMouseEvent(crossterm::event::MouseEvent);

#[verifier::external_type_specification]
pub struct ExKeyCode(crossterm::event::KeyCode);

#[verifier::external_type_specification]
pub struct ExKeyEvent(crossterm::event::KeyEvent);

#[verifier::external_type_specification]
pub struct ExEvent(crossterm::event::Event);

/// A key, independent of the terminal library that reported it.
#[derive(Clone, Copy, Debug, PartialEq, Eq, Structural)]
pub enum Key {
    Char(char),
    Backspace,
    Enter,
    Left,
    Right,
    Up,
    Down,
    Tab,
    Delete,
    Home,
    End,
    Null,
}

/// A key together with the state of the control modifier.
#[derive(Clone, Copy, Debug, PartialEq, Eq, Structural)]
pub struct Input {
    pub key: Key,
    pub ctrl: bool,
}

impl Default for Input {
    fn default() -> (r: Input)
        ensures
            r == (Input { key: Key::Null, ctrl: false }),
    {
        Input { key: Key::Null, ctrl: false }
    }
}

/// The key that a terminal key code stands for; codes without one map to `Null`.
pub open spec fn key_of_code(code: KeyCode) -> Key {
    match code {
        KeyCode::Char(c) => Key::Char(c),
        KeyCode::Backspace => Key::Backspace,
        KeyCode::Enter => Key::Enter,
        KeyCode::Left => Key::Left,
        KeyCode::Right => Key::Right,
        KeyCode::Up => Key::Up,
        KeyCode::Down => Key::Down,
        KeyCode::Tab => Key::Tab,
        KeyCode::Delete => Key::Delete,
        KeyCode::Home => Key::Home,
        KeyCode::End => Key::End,
        _ => Key::Null,
    }
}

/// Relies on crossterm's `KeyModifiers::contains`: whether the control bit is set.
#[verifier::external_body]
fn control_held(modifiers: &KeyModifiers) -> (r: bool) {
    modifiers.contains(KeyModifiers::CONTROL)
}

/// Maps a terminal key code to the library's key.
pub fn key_from_code(code: KeyCode) -> (r: Key)
    ensures
        r == key_of_code(code),
{
    match code {
        KeyCode::Char(c) => Key::Char(c),
        KeyCode::Backspace => Key::Backspace,
        KeyCode::Enter => Key::Enter,
        KeyCode::Left => Key::Left,
        KeyCode::Right => Key::Right,
        KeyCode::Up => Key::Up,
        KeyCode::Down => Key::Down,
        KeyCode::Tab => Key::Tab,
        KeyCode::Delete => Key::Delete,
        KeyCode::Home => Key::Home,
        KeyCode::End => Key::End,
        _ => Key::Null,
    }
}

impl Input {
    /// Normalises a terminal key event.
    pub fn from_key_event(event: KeyEvent) -> (r: Input)
        ensures
            r.key == key_of_code(event.code),
    {
        let ctrl = control_held(&event.modifiers);
        Input { key: key_from_code(event.code), ctrl }
    }

    /// Normalises a terminal event; anything but a key event is `Null`.
    pub fn from_event(event: Event) -> (r: Input)
        ensures
            match event {
                Event::Key(k) => r.key == key_of_code(k.code),
                _ => r == (Input { key: Key::Null, ctrl: false }),
            },
    {
        match event {
            Event::Key(k) => Input::from_key_event(k),
            _ => Input { key: Key::Null, ctrl: false },
        }
    }
}

impl From<KeyEvent> for Input {
    fn from(event: KeyEvent) -> Input {
        Input::from_key_event(event)
    }
}

// The control flag comes from crossterm's modifier set, which is opaque here,
// so these conversions claim nothing through `from_spec`; `from_key_event` and
// `from_event` state what is known of their results.
impl vstd::std_specs::convert::FromSpecImpl<KeyEvent> for Input {
    open spec fn obeys_from_spec() -> bool {
        false
    }

    open spec fn from_spec(event: KeyEvent) -> Input {
        Input { key: key_of_code(event.code), ctrl: false }
    }
}

impl From<Event> for Input {
    fn from(event: Event) -> Input {
        Input::from_event(event)
    }
}

impl vstd::std_specs::convert::FromSpecImpl<Event> for Input {
    open spec fn obeys_from_spec() -> bool {
        false
    }

    open spec fn from_spec(event: Event) -> Input {
        Input { key: Key::Null, ctrl: false }
    }
}

} // verus!
