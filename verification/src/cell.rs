//! What a board square can hold, and whether the run is still going.

use vstd::prelude::*;
use crate::dir::Dir;

verus! {

/// Whether `glyph` may stand in a map: a cell glyph or a head glyph. Any
/// other glyph in a map is a fault of the map.
pub open spec fn map_glyph(glyph: char) -> bool {
    Cell::spec_from_glyph(glyph) is Some || Dir::spec_from_icon(glyph) is Some
}

/// The content of one board square. The head is not a cell content: it is
/// tracked apart from the board.
#[derive(Debug, Copy, Clone, PartialEq, Eq, Structural)]
pub enum Cell {
    Food,
    Empty,
    Wall,
    /// Reserved: a map may place it, play never does.
    Body,
}

impl Cell {
    /// The content that a map glyph stands for, if the glyph stands for one.
    pub open spec fn spec_from_glyph(glyph: char) -> Option<Cell> {
        if glyph == '#' {
            Some(Cell::Wall)
        } else if glyph == '*' {
            Some(Cell::Food)
        } else if glyph == ' ' {
            Some(Cell::Empty)
        } else if glyph == 'o' {
            Some(Cell::Body)
        } else {
            None
        }
    }

    /// Whether stepping onto this content ends the run.
    pub open spec fn is_fatal(self) -> bool {
        self == Cell::Wall || self == Cell::Body
    }

    /// Reads a map glyph: `#` is a wall, `*` food, a blank an empty square and
    /// `o` a body segment. A head glyph stands for no content and reads as
    /// `None`. No caller may pass a glyph that cannot stand in a map.
    pub fn from_glyph(glyph: char) -> (cell: Option<Cell>)
        requires
            map_glyph(glyph),
        ensures
            cell == Cell::spec_from_glyph(glyph),
    {
        match glyph {
            '#' => Some(Cell::Wall),
            '*' => Some(Cell::Food),
            ' ' => Some(Cell::Empty),
            'o' => Some(Cell::Body),
            _ => None,
        }
    }
}

/// Whether the run is in progress or has ended. A win and a loss both end in
/// `Over`; the score tells them apart.
#[derive(Debug, Copy, Clone, PartialEq, Eq, Structural)]
pub enum Status {
    Normal,
    Over,
}

} // verus!
