//! Keyboard input as the session sees it.

use vstd::prelude::*;

verus! {

/// The key that was pressed.
#[derive(Debug, Clone, Copy, PartialEq, Eq)]
pub enum KeyCode {
    Esc,
    Enter,
    Tab,
    Backspace,
    Up,
    Down,
    Char(char),
    /// Any key the session has no use for.
    Other,
}

/// One key press: the key, and whether Control was held.
#[derive(Debug, Clone, Copy, PartialEq, Eq)]
pub struct KeyEvent {
    pub code: KeyCode,
    pub ctrl: bool,
}

impl KeyEvent {
    /// Arrow up, or Control with `p`.
    pub open spec fn is_up(self) -> bool {
        self.code == KeyCode::Up || (self.code == KeyCode::Char('p') && self.ctrl)
    }

    /// Arrow down, or Control with `n`.
    pub open spec fn is_down(self) -> bool {
        self.code == KeyCode::Down || (self.code == KeyCode::Char('n') && self.ctrl)
    }

    /// The character this press types into a text box, if it types one: any
    /// character key but `+` and the two Control chords that navigate.
    pub open spec fn typed(self) -> Option<char> {
        match self.code {
            KeyCode::Char(c) => if self.is_up() || self.is_down() || c == '+' {
                None
            } else {
                Some(c)
            },
            _ => None,
        }
    }

    /// A press of `code` without Control.
    pub fn plain(code: KeyCode) -> (key: KeyEvent)
        ensures
            key == (KeyEvent { code, ctrl: false }),
    {
        KeyEvent { code, ctrl: false }
    }

    /// A press of the character `c` with Control held.
    pub fn control(c: char) -> (key: KeyEvent)
        ensures
            key == (KeyEvent { code: KeyCode::Char(c), ctrl: true }),
    {
        KeyEvent { code: KeyCode::Char(c), ctrl: true }
    }

    /// Whether this press moves a cursor up.
    pub fn moves_up(&self) -> (b: bool)
        ensures
            b == self.is_up(),
    {
        match self.code {
            KeyCode::Up => true,
            KeyCode::Char(c) => c == 'p' && self.ctrl,
            _ => false,
        }
    }

    /// Whether this press moves a cursor down.
    pub fn moves_down(&self) -> (b: bool)
        ensures
            b == self.is_down(),
    {
        match self.code {
            KeyCode::Down => true,
            KeyCode::Char(c) => c == 'n' && self.ctrl,
            _ => false,
        }
    }

    /// The character this press types into a text box, if any.
    pub fn typed_char(&self) -> (c: Option<char>)
        ensures
            c == self.typed(),
    {
        match self.code {
            KeyCode::Char(c) => {
                if (self.ctrl && (c == 'p' || c == 'n')) || c == '+' {
                    None
                } else {
                    Some(c)
                }
            },
            _ => None,
        }
    }
}

} // verus!
