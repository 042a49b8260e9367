//! Keys as the menu sees them, and the events they are mapped to.

use vstd::prelude::*;

verus! {

/// One key press, as the terminal names it.
#[derive(Debug, PartialEq, Eq)]
pub enum Key {
    Unknown,
    /// Escape followed by characters that form no known sequence.
    UnknownEscSeq(Vec<char>),
    ArrowLeft,
    ArrowRight,
    ArrowUp,
    ArrowDown,
    Enter,
    Escape,
    Backspace,
    Home,
    End,
    Tab,
    BackTab,
    Alt,
    Del,
    Shift,
    Insert,
    PageUp,
    PageDown,
    Char(char),
    CtrlC,
}

/// What a key press asks of the menu.
#[derive(Debug, PartialEq, Eq)]
pub enum Event {
    /// Leave the menu with this value, whatever is highlighted.
    Return(String),
    /// Move the highlight one option up.
    Up,
    /// Move the highlight one option down.
    Down,
    /// Leave the menu with the highlighted option.
    Select,
    /// Nothing: draw again and wait for the next key.
    Noop,
}

/// The event that the default bindings give to `key`.
pub open spec fn default_binding(key: Key) -> Event {
    match key {
        Key::ArrowDown => Event::Down,
        Key::ArrowUp => Event::Up,
        Key::Enter => Event::Select,
        _ => Event::Noop,
    }
}

/// The default bindings: the arrow keys move the highlight, Enter selects,
/// every other key does nothing.
pub fn default_event(key: &Key) -> (event: Event)
    ensures
        event == default_binding(*key),
{
    match key {
        Key::ArrowDown => Event::Down,
        Key::ArrowUp => Event::Up,
        Key::Enter => Event::Select,
        _ => Event::Noop,
    }
}

/// What the letter bindings ask for on one key.
#[derive(Debug, PartialEq, Eq)]
pub enum KeyAction {
    /// Hand this event to the menu.
    Emit(Event),
    /// Ask the user for a text and add it with `Menu::add_option`, which
    /// gives the event to hand to the menu.
    AddOption,
    /// Remove the highlighted option with `Menu::remove_selected`, which
    /// gives the event to hand to the menu.
    RemoveSelected,
}

/// The action that the letter bindings give to `key`.
pub open spec fn letter_binding(key: Key) -> KeyAction {
    match key {
        Key::Char(c) => if c == 'j' {
            KeyAction::Emit(Event::Down)
        } else if c == 'k' {
            KeyAction::Emit(Event::Up)
        } else if c == 'a' {
            KeyAction::AddOption
        } else if c == 'd' {
            KeyAction::RemoveSelected
        } else {
            KeyAction::Emit(Event::Noop)
        },
        Key::Enter => KeyAction::Emit(Event::Select),
        _ => KeyAction::Emit(Event::Noop),
    }
}

/// The letter bindings: `j` and `k` move the highlight down and up, Enter
/// selects, `a` adds an option, `d` removes the highlighted one, and every
/// other key does nothing.
pub fn letter_action(key: &Key) -> (action: KeyAction)
    ensures
        action == letter_binding(*key),
{
    match key {
        Key::Char(c) => {
            let c: char = *c;
            if c == 'j' {
                KeyAction::Emit(Event::Down)
            } else if c == 'k' {
                KeyAction::Emit(Event::Up)
            } else if c == 'a' {
                KeyAction::AddOption
            } else if c == 'd' {
                KeyAction::RemoveSelected
            } else {
                KeyAction::Emit(Event::Noop)
            }
        },
        Key::Enter => KeyAction::Emit(Event::Select),
        _ => KeyAction::Emit(Event::Noop),
    }
}

} // verus!
