//! Four-way compass direction.

use vstd::prelude::*;

verus! {

/// A compass direction on the grid. North is towards row 0, West towards
/// column 0.
#[derive(Debug, Copy, Clone, PartialEq, Eq, Structural)]
pub enum Dir {
    N,
    S,
    E,
    W,
}

impl Dir {
    /// The direction that undoes a step in this one.
    pub open spec fn opposite(self) -> Dir {
        match self {
            Dir::N => Dir::S,
            Dir::S => Dir::N,
            Dir::E => Dir::W,
            Dir::W => Dir::E,
        }
    }

    /// The direction a quarter turn counter-clockwise from this one.
    pub open spec fn spec_left(self) -> Dir {
        match self {
            Dir::N => Dir::W,
            Dir::S => Dir::E,
            Dir::E => Dir::N,
            Dir::W => Dir::S,
        }
    }

    /// The direction a quarter turn clockwise from this one.
    pub open spec fn spec_right(self) -> Dir {
        match self {
            Dir::N => Dir::E,
            Dir::S => Dir::W,
            Dir::E => Dir::S,
            Dir::W => Dir::N,
        }
    }

    /// The glyph that shows a head facing this way with its mouth open. The
    /// glyph points against the direction of travel.
    pub open spec fn spec_icon(self) -> char {
        match self {
            Dir::N => 'v',
            Dir::S => '^',
            Dir::E => '<',
            Dir::W => '>',
        }
    }

    /// The direction whose open-mouth glyph is `icon`, if there is one.
    pub open spec fn spec_from_icon(icon: char) -> Option<Dir> {
        if icon == 'v' {
            Some(Dir::N)
        } else if icon == '^' {
            Some(Dir::S)
        } else if icon == '<' {
            Some(Dir::E)
        } else if icon == '>' {
            Some(Dir::W)
        } else {
            None
        }
    }

    pub fn icon(&self) -> (c: char)
        ensures
            c == self.spec_icon(),
    {
        match self {
            Dir::N => 'v',
            Dir::S => '^',
            Dir::E => '<',
            Dir::W => '>',
        }
    }

    pub fn left(&self) -> (d: Dir)
        ensures
            d == self.spec_left(),
    {
        match self {
            Dir::N => Dir::W,
            Dir::S => Dir::E,
            Dir::E => Dir::N,
            Dir::W => Dir::S,
        }
    }

    pub fn right(&self) -> (d: Dir)
        ensures
            d == self.spec_right(),
    {
        match self {
            Dir::N => Dir::E,
            Dir::S => Dir::W,
            Dir::E => Dir::S,
            Dir::W => Dir::N,
        }
    }

    /// Reads a head glyph back into the direction it stands for. Only the
    /// four head glyphs can be read: any other glyph in a map is a fault of
    /// the map, and no caller may pass one.
    pub fn from_icon(icon: char) -> (d: Dir)
        requires
            Dir::spec_from_icon(icon) is Some,
        ensures
            Some(d) == Dir::spec_from_icon(icon),
    {
        match icon {
            '^' => Dir::S,
            'v' => Dir::N,
            '>' => Dir::W,
            // of the head glyphs only `<` is left
            _ => Dir::E,
        }
    }
}

} // verus!
