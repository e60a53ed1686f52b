//! Decoded keyboard input, as far as the game tells keys apart.

use vstd::prelude::*;
use crate::dir::Dir;

verus! {

/// A key that is reported by name rather than as a character. Every named
/// key that the game does not react to is `Other`.
#[derive(Debug, Copy, Clone, PartialEq, Eq, Structural)]
pub enum KeyCode {
    ArrowUp,
    ArrowDown,
    ArrowLeft,
    ArrowRight,
    S,
    O,
    I,
    Other,
}

/// One decoded key press: a named key or a character.
#[derive(Debug, Copy, Clone, PartialEq, Eq, Structural)]
pub enum Key {
    RawKey(KeyCode),
    Unicode(char),
}

impl Key {
    /// The direction that the key asks for: the arrow keys, and `w`, `a`, `s`,
    /// `d` as characters.
    pub open spec fn spec_direction(self) -> Option<Dir> {
        match self {
            Key::RawKey(KeyCode::ArrowUp) => Some(Dir::N),
            Key::RawKey(KeyCode::ArrowDown) => Some(Dir::S),
            Key::RawKey(KeyCode::ArrowLeft) => Some(Dir::W),
            Key::RawKey(KeyCode::ArrowRight) => Some(Dir::E),
            Key::RawKey(_) => None,
            Key::Unicode(c) => if c == 'w' {
                Some(Dir::N)
            } else if c == 'a' {
                Some(Dir::W)
            } else if c == 's' {
                Some(Dir::S)
            } else if c == 'd' {
                Some(Dir::E)
            } else {
                None
            },
        }
    }

    /// Whether the key starts a new run once the old one is over.
    pub open spec fn is_restart(self) -> bool {
        self == Key::RawKey(KeyCode::S) || self == Key::Unicode('s')
    }

    /// Whether the key ends the run on the spot.
    pub open spec fn is_force_over(self) -> bool {
        self == Key::RawKey(KeyCode::O) || self == Key::Unicode('o')
    }

    /// Whether the key drops food on the fixed square kept for that purpose.
    pub open spec fn is_force_food(self) -> bool {
        self == Key::RawKey(KeyCode::I) || self == Key::Unicode('i')
    }

    /// The direction that the key asks for, if it asks for one.
    pub fn direction(&self) -> (dir: Option<Dir>)
        ensures
            dir == self.spec_direction(),
    {
        match *self {
            Key::RawKey(k) => match k {
                KeyCode::ArrowUp => Some(Dir::N),
                KeyCode::ArrowDown => Some(Dir::S),
                KeyCode::ArrowLeft => Some(Dir::W),
                KeyCode::ArrowRight => Some(Dir::E),
                _ => None,
            },
            Key::Unicode(c) => match c {
                'w' => Some(Dir::N),
                'a' => Some(Dir::W),
                's' => Some(Dir::S),
                'd' => Some(Dir::E),
                _ => None,
            },
        }
    }
}

} // verus!
