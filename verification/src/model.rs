//! The game as a mathematical state, and its transitions as functions from
//! state to state.

use vstd::prelude::*;
use crate::board::Grid;
use crate::cell::{Cell, Status};
use crate::dir::Dir;
use crate::food::{food_spot, WIN_SCORE};
use crate::key::Key;
use crate::position::Spot;
use crate::snake::Head;
use crate::start::{start_glyph, START_COLS, START_ROWS};

verus! {

/// The number that the countdown restarts from: the timer ticks that pass
/// without a game step between two game steps.
pub const UPDATE_FREQUENCY: usize = 3;

/// The row of the square on which the food key drops food.
pub const FOOD_KEY_ROW: usize = 15;

/// The column of the square on which the food key drops food.
pub const FOOD_KEY_COL: usize = 40;

/// The square on which the food key drops food.
pub open spec fn food_key_spot() -> Spot {
    Spot { row: FOOD_KEY_ROW as int, col: FOOD_KEY_COL as int }
}

/// The head as the start map places it.
pub open spec fn start_head() -> Head {
    Head { at: Spot { row: 10, col: 40 }, dir: Dir::E, open: true }
}

/// Whether the start map has a cell glyph in row `row`, column `col`.
pub open spec fn start_covers(row: int, col: int) -> bool {
    &&& 0 <= row < START_ROWS
    &&& 0 <= col < START_COLS
    &&& Cell::spec_from_glyph(start_glyph(row, col)) is Some
}

/// The state from which a new game is made: a board full of food, not yet
/// laid out.
pub open spec fn blank(width: int, height: int) -> GameView {
    GameView {
        grid: Grid::build(width, height, |r: int, c: int| Cell::Food),
        head: start_head(),
        status: Status::Normal,
        score: 0,
        countdown: UPDATE_FREQUENCY as int,
        pending: None,
    }
}

/// The content of the square in row `row`, column `col` once the start map
/// has been laid over a square that held `prior`. A square under a cell glyph
/// takes that glyph's content. A square under the head glyph, or outside the
/// map, keeps what it held.
pub open spec fn start_cell(row: int, col: int, prior: Cell) -> Cell {
    if 0 <= row < START_ROWS && 0 <= col < START_COLS {
        match Cell::spec_from_glyph(start_glyph(row, col)) {
            Some(cell) => cell,
            None => prior,
        }
    } else {
        prior
    }
}

/// The countdown after one timer tick, where it restarts from `reload`: a
/// countdown that has run out starts again, any other goes down by one.
pub open spec fn countdown_next(countdown: int, reload: int) -> int {
    if countdown == 0 {
        reload
    } else {
        countdown - 1
    }
}

/// The whole state of a game.
pub struct GameView {
    pub grid: Grid,
    pub head: Head,
    pub status: Status,
    /// The food eaten in this run.
    pub score: int,
    /// The timer ticks still to pass before the next game step.
    pub countdown: int,
    /// The direction asked for since the last game step, if any.
    pub pending: Option<Dir>,
}

impl GameView {
    /// What holds of every game on a board of `width` columns and `height`
    /// rows: the board covers the start map and fits the coordinates of a
    /// position, the head is on the board, the score never passes the winning
    /// score, and a run at the winning score is over with nothing pending.
    pub open spec fn wf(self, width: int, height: int) -> bool {
        &&& START_COLS <= width <= i16::MAX
        &&& START_ROWS <= height <= i16::MAX
        &&& self.grid.has_shape(width, height)
        &&& self.head.at.in_grid(width, height)
        &&& 0 <= self.score <= WIN_SCORE
        &&& self.score == WIN_SCORE ==> self.status == Status::Over && self.pending is None
        &&& 0 <= self.countdown <= UPDATE_FREQUENCY
    }

    /// The number of columns of the board.
    pub open spec fn width(self) -> int {
        self.grid.rows[0].len() as int
    }

    /// The number of rows of the board.
    pub open spec fn height(self) -> int {
        self.grid.rows.len() as int
    }

    /// The grid after the start map has been laid over it.
    pub open spec fn start_grid(self) -> Grid {
        Grid::build(
            self.width(),
            self.height(),
            |r: int, c: int| start_cell(r, c, self.grid.rows[r][c]),
        )
    }

    /// The state after a restart: the start map laid over the board, the head
    /// where the map places it, a new run with no score and nothing pending.
    /// The countdown runs on.
    pub open spec fn restarted(self) -> GameView {
        GameView {
            grid: self.start_grid(),
            head: start_head(),
            status: Status::Normal,
            score: 0,
            countdown: self.countdown,
            pending: None,
        }
    }

    /// The state of a new game on a board of `width` columns and `height`
    /// rows: a board full of food with the start map laid over it.
    pub open spec fn fresh(width: int, height: int) -> GameView {
        GameView {
            grid: Grid::build(width, height, |r: int, c: int| start_cell(r, c, Cell::Food)),
            head: start_head(),
            status: Status::Normal,
            score: 0,
            countdown: UPDATE_FREQUENCY as int,
            pending: None,
        }
    }

    /// The state after the head has gone to the square `to`, facing `dir`.
    /// Food on that square is eaten: the score goes up by one, the square is
    /// emptied, new food is placed where the score says, and the run is over
    /// once the score reaches the winning score.
    pub open spec fn entered(self, to: Spot, dir: Dir) -> GameView {
        let head = Head { at: to, dir, open: self.head.open };
        if self.grid.cell(to) == Cell::Food {
            let score = self.score + 1;
            GameView {
                grid: self.grid.put(to, Cell::Empty).put(food_spot(self.score, score), Cell::Food),
                head,
                status: if score >= WIN_SCORE {
                    Status::Over
                } else {
                    self.status
                },
                score,
                ..self
            }
        } else {
            GameView { head, ..self }
        }
    }

    /// The state after the pending direction has been acted on. With nothing
    /// pending, or with the square ahead off the board, nothing changes. Else
    /// the head goes to the square ahead unless a wall is there, and the run
    /// is over if that square then holds a wall or a body segment.
    pub open spec fn resolved(self) -> GameView {
        match self.pending {
            None => self,
            Some(dir) => {
                let to = self.head.at.step(dir);
                if !to.in_grid(self.width(), self.height()) {
                    self
                } else {
                    let after = if self.grid.cell(to) != Cell::Wall {
                        self.entered(to, dir)
                    } else {
                        self
                    };
                    if after.grid.cell(to).is_fatal() {
                        GameView { status: Status::Over, ..after }
                    } else {
                        after
                    }
                }
            },
        }
    }

    /// The state after one game step: the pending direction is acted on and
    /// cleared, and the head blinks.
    pub open spec fn stepped(self) -> GameView {
        let after = self.resolved();
        GameView { pending: None, head: after.head.blink(), ..after }
    }

    /// Whether a timer tick in this state is a game step.
    pub open spec fn due(self) -> bool {
        self.countdown == 0
    }

    /// The state after the countdown has seen one timer tick.
    pub open spec fn counted(self) -> GameView {
        GameView { countdown: countdown_next(self.countdown, UPDATE_FREQUENCY as int), ..self }
    }

    /// The state after one timer tick: the countdown moves on, and where it
    /// had run out a game step follows.
    pub open spec fn ticked(self) -> GameView {
        if self.due() {
            self.counted().stepped()
        } else {
            self.counted()
        }
    }

    /// The state after a key press. Once the run is over only the restart
    /// key does anything. During a run the force-over key ends it, the food
    /// key drops food on its square, a direction key replaces the pending
    /// direction, and any other key does nothing.
    pub open spec fn keyed(self, key: Key) -> GameView {
        match self.status {
            Status::Over => if key.is_restart() {
                self.restarted()
            } else {
                self
            },
            Status::Normal => if key.is_force_over() {
                GameView { status: Status::Over, ..self }
            } else if key.is_force_food() {
                GameView { grid: self.grid.put(food_key_spot(), Cell::Food), ..self }
            } else {
                match key.spec_direction() {
                    Some(dir) => GameView { pending: Some(dir), ..self },
                    None => self,
                }
            },
        }
    }
}

} // verus!
