//! Decoding terminal key presses into application actions.
//!
//! The terminal delivers raw key events; the surrounding binary reads them
//! and hands each one in here as a plain `Key` plus its modifier flags.

use vstd::prelude::*;

verus! {

/// The decoded actions the rest of the application works with.
pub enum Action {
    Quit,
    SwitchWindow,
    MoveUp,
    MoveDown,
    Select,
    Space,
    NextSong,
    PreviousSong,
    Char(char),
    Backspace,
    Esc,
}

/// A terminal key, as this library models it: the keys the player binds,
/// and `Other` for everything else.
pub enum Key {
    Up,
    Down,
    PageUp,
    PageDown,
    Enter,
    Left,
    Right,
    Tab,
    Backspace,
    Esc,
    Char(char),
    Other,
}

/// What an unmodified key press means.
pub open spec fn spec_handle(key: Key) -> Option<Action> {
    match key {
        Key::Up | Key::PageUp => Option::Some(Action::MoveUp),
        Key::Down | Key::PageDown => Option::Some(Action::MoveDown),
        Key::Enter => Option::Some(Action::Select),
        Key::Char(c) => if c == ' ' {
            Option::Some(Action::Space)
        } else {
            Option::Some(Action::Char(c))
        },
        Key::Left => Option::Some(Action::PreviousSong),
        Key::Right => Option::Some(Action::NextSong),
        Key::Tab => Option::Some(Action::SwitchWindow),
        Key::Backspace => Option::Some(Action::Backspace),
        Key::Esc => Option::Some(Action::Esc),
        Key::Other => Option::None,
    }
}

/// What a modified key press means: control-c quits, a shifted character is
/// that character, anything else is swallowed.
pub open spec fn spec_handle_with_modifier(key: Key, ctrl: bool, shift: bool) -> Option<Action> {
    if ctrl && (key matches Key::Char(c) && c == 'c') {
        Option::Some(Action::Quit)
    } else if shift && key is Char {
        Option::Some(Action::Char(key->Char_0))
    } else {
        Option::None
    }
}

/// Reads key presses from the terminal in the surrounding binary and turns
/// each one into an action through the two decoders below.
pub struct KeyboardHandler {
}

impl KeyboardHandler {
    pub fn new() -> (r: KeyboardHandler) {
        KeyboardHandler {  }
    }

    /// Decodes a key press without modifiers.
    pub fn handle(&self, key: Key) -> (r: Option<Action>)
        ensures
            r == spec_handle(key),
    {
        match key {
            Key::Up | Key::PageUp => Some(Action::MoveUp),
            Key::Down | Key::PageDown => Some(Action::MoveDown),
            Key::Enter => Some(Action::Select),
            Key::Char(c) => if c == ' ' {
                Some(Action::Space)
            } else {
                Some(Action::Char(c))
            },
            Key::Left => Some(Action::PreviousSong),
            Key::Right => Some(Action::NextSong),
            Key::Tab => Some(Action::SwitchWindow),
            Key::Backspace => Some(Action::Backspace),
            Key::Esc => Some(Action::Esc),
            Key::Other => None,
        }
    }

    /// Decodes a key press that arrived with modifier flags.
    pub fn handle_with_modifier(&self, key: Key, ctrl: bool, shift: bool) -> (r: Option<Action>)
        ensures
            r == spec_handle_with_modifier(key, ctrl, shift),
    {
        if ctrl {
            if let Key::Char(c) = key {
                if c == 'c' {
                    return Some(Action::Quit);
                }
            }
        }
        if shift {
            if let Key::Char(c) = key {
                return Some(Action::Char(c));
            }
        }
        None
    }
}

} // verus!
