//! What each square of the board looks like: the decisions of drawing,
//! without the drawing.

use vstd::prelude::*;
use crate::cell::{Cell, Status};
use crate::food::WIN_SCORE;
use crate::game::SnakeGame;
use crate::model::GameView;
use crate::position::{Position, Spot};

verus! {

/// The number of screen rows above the board.
pub const HEADER_SPACE: usize = 2;

/// The colours that the board is drawn in.
#[derive(Debug, Copy, Clone, PartialEq, Eq, Structural)]
pub enum Paint {
    Black,
    Blue,
    Green,
    White,
}

/// How the run ended, for one that is over.
#[derive(Debug, Copy, Clone, PartialEq, Eq, Structural)]
pub enum Outcome {
    Won,
    Lost,
}

/// The glyph and colour of a square that holds `cell` and is not under the
/// head.
pub open spec fn cell_look(cell: Cell) -> (char, Paint) {
    match cell {
        Cell::Food => ('.', Paint::White),
        Cell::Empty => (' ', Paint::Black),
        Cell::Wall => ('#', Paint::Blue),
        Cell::Body => ('o', Paint::Green),
    }
}

/// The glyph and colour of the square at `at`, which holds `cell`. The head
/// covers its square: it is drawn green, as its own glyph during a run and
/// as `*` once the run is over.
pub open spec fn look(game: GameView, at: Spot, cell: Cell) -> (char, Paint) {
    if at == game.head.at {
        (
            if game.status == Status::Over {
                '*'
            } else {
                game.head.icon()
            },
            Paint::Green,
        )
    } else {
        cell_look(cell)
    }
}

/// How a run with this score ended: it was won once the score had reached
/// the winning score, else it was lost.
pub open spec fn outcome_of(score: int) -> Outcome {
    if score >= WIN_SCORE {
        Outcome::Won
    } else {
        Outcome::Lost
    }
}

/// The glyph and foreground colour to draw at `p`, where the board holds
/// `cell`.
pub fn get_icon_color<const WIDTH: usize, const HEIGHT: usize>(
    game: &SnakeGame<WIDTH, HEIGHT>,
    p: Position<WIDTH, HEIGHT>,
    cell: &Cell,
) -> (shown: (char, Paint))
    ensures
        shown == look(game@, p@, *cell),
{
    if p == game.snake_at() {
        (
            match game.status() {
                Status::Over => '*',
                _ => game.snake_icon(),
            },
            Paint::Green,
        )
    } else {
        match cell {
            Cell::Food => ('.', Paint::White),
            Cell::Empty => (' ', Paint::Black),
            Cell::Wall => ('#', Paint::Blue),
            Cell::Body => ('o', Paint::Green),
        }
    }
}

/// Tells a win from a loss for a run that is over. Both end in the same
/// status; only the score sets them apart.
pub fn outcome<const WIDTH: usize, const HEIGHT: usize>(game: &SnakeGame<WIDTH, HEIGHT>) -> (how:
    Outcome)
    ensures
        how == outcome_of(game@.score),
{
    if game.score() >= WIN_SCORE {
        Outcome::Won
    } else {
        Outcome::Lost
    }
}

} // verus!
