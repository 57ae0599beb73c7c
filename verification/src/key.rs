//! Key presses as the pages see them.

use vstd::prelude::*;

verus! {

/// The key that was pressed. Keys that no page and no editor reacts to are
/// all `Other`.
#[derive(Debug, Clone, Copy, PartialEq, Eq, Hash, Structural)]
pub enum Key {
    Char(char),
    Enter,
    Esc,
    Pause,
    Tab,
    Up,
    Down,
    Left,
    Right,
    Home,
    End,
    Backspace,
    Delete,
    Other,
}

/// The modifier keys held down with a key. `Other` is any combination that
/// is neither empty nor shift alone nor control alone.
#[derive(Debug, Clone, Copy, PartialEq, Eq, Hash, Structural)]
pub enum Modifiers {
    Plain,
    Shift,
    Control,
    Other,
}

/// One key press.
#[derive(Debug, Clone, Copy, PartialEq, Eq, Hash, Structural)]
pub struct KeyPress {
    pub code: Key,
    pub modifiers: Modifiers,
}

impl KeyPress {
    /// A key pressed with the given modifiers.
    pub fn new(code: Key, modifiers: Modifiers) -> (key: KeyPress)
        ensures
            key == (KeyPress { code, modifiers }),
    {
        KeyPress { code, modifiers }
    }

    /// A key pressed alone.
    pub fn plain(code: Key) -> (key: KeyPress)
        ensures
            key == (KeyPress { code, modifiers: Modifiers::Plain }),
    {
        KeyPress { code, modifiers: Modifiers::Plain }
    }

    /// A character typed with control alone held down.
    pub fn control(letter: char) -> (key: KeyPress)
        ensures
            key == (KeyPress { code: Key::Char(letter), modifiers: Modifiers::Control }),
    {
        KeyPress { code: Key::Char(letter), modifiers: Modifiers::Control }
    }

    /// Whether the press is the character `letter`, whatever is held down
    /// with it.
    pub open spec fn is_char(self, letter: char) -> bool {
        self.code == Key::Char(letter)
    }

    /// Whether the press is the character `letter` with control alone.
    pub open spec fn is_control(self, letter: char) -> bool {
        self.code == Key::Char(letter) && self.modifiers == Modifiers::Control
    }

    /// Whether the press confirms a choice: enter or the space bar.
    pub open spec fn confirms(self) -> bool {
        self.code == Key::Enter || self.code == Key::Char(' ')
    }

    /// Whether the press is the character `letter`, whatever is held down
    /// with it.
    pub fn typed(&self, letter: char) -> (yes: bool)
        ensures
            yes == self.is_char(letter),
    {
        match self.code {
            Key::Char(c) => c == letter,
            _ => false,
        }
    }

    /// Whether the press is the character `letter` with control alone.
    pub fn typed_with_control(&self, letter: char) -> (yes: bool)
        ensures
            yes == self.is_control(letter),
    {
        self.typed(letter) && self.modifiers == Modifiers::Control
    }

    /// Whether the press confirms a choice: enter or the space bar.
    pub fn is_confirm(&self) -> (yes: bool)
        ensures
            yes == self.confirms(),
    {
        self.code == Key::Enter || self.typed(' ')
    }
}

} // verus!
