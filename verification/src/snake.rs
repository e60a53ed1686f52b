//! The head: the one square of the snake that the game tracks.

use vstd::prelude::*;
use crate::dir::Dir;
use crate::position::Position;
use crate::position::Spot;

verus! {

/// The model of a [`Snake`]: where the head is, which way it faces and
/// whether its mouth is drawn open.
pub struct Head {
    pub at: Spot,
    pub dir: Dir,
    pub open: bool,
}

impl Head {
    /// The glyph that shows the head: the direction's own glyph while the
    /// mouth is open, else a bar along the axis of travel.
    pub open spec fn icon(self) -> char {
        if self.open {
            self.dir.spec_icon()
        } else {
            match self.dir {
                Dir::N | Dir::S => '|',
                Dir::E | Dir::W => '-',
            }
        }
    }

    /// The head after one game step's blink: only the mouth changes.
    pub open spec fn blink(self) -> Head {
        Head { open: !self.open, ..self }
    }
}

/// The head of the snake. There is no list of body segments.
#[derive(Debug, Copy, Clone, Eq, PartialEq)]
pub struct Snake<const WIDTH: usize, const HEIGHT: usize> {
    pos: Position<WIDTH, HEIGHT>,
    dir: Dir,
    open: bool,
}

impl<const WIDTH: usize, const HEIGHT: usize> View for Snake<WIDTH, HEIGHT> {
    type V = Head;

    closed spec fn view(&self) -> Head {
        Head { at: self.pos@, dir: self.dir, open: self.open }
    }
}

impl<const WIDTH: usize, const HEIGHT: usize> Snake<WIDTH, HEIGHT> {
    /// A head at `pos` with its mouth open, facing the way that the map
    /// glyph `icon` stands for.
    pub fn new(pos: Position<WIDTH, HEIGHT>, icon: char) -> (snake: Self)
        requires
            Dir::spec_from_icon(icon) is Some,
        ensures
            snake@ == (Head { at: pos@, dir: Dir::spec_from_icon(icon)->0, open: true }),
    {
        Snake { pos, dir: Dir::from_icon(icon), open: true }
    }

    /// Toggles the mouth, once per game step.
    pub fn tick(&mut self)
        ensures
            final(self)@ == old(self)@.blink(),
    {
        self.open = !self.open;
    }

    pub fn icon(&self) -> (c: char)
        ensures
            c == self@.icon(),
    {
        if self.open {
            self.dir.icon()
        } else {
            match self.dir {
                Dir::N | Dir::S => '|',
                Dir::E | Dir::W => '-',
            }
        }
    }

    pub fn position(&self) -> (p: Position<WIDTH, HEIGHT>)
        ensures
            p@ == self@.at,
    {
        self.pos
    }

    /// Puts the head on `pos`, facing `dir`. The mouth stays as it is.
    pub fn advance(&mut self, pos: Position<WIDTH, HEIGHT>, dir: Dir)
        ensures
            final(self)@ == (Head { at: pos@, dir, open: old(self)@.open }),
    {
        self.pos = pos;
        self.dir = dir;
    }
}

} // verus!
