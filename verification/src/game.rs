//! The game itself: the board, the head, and the state machine that timer
//! ticks and key presses drive.

use vstd::prelude::*;
use crate::board::{Board, Grid};
use crate::cell::{map_glyph, Cell, Status};
use crate::dir::Dir;
use crate::food::{lemma_food_mix_fits, lemma_food_spot_range, next_food, WIN_SCORE};
use crate::key::{Key, KeyCode};
use crate::model::{start_cell, start_head, GameView, FOOD_KEY_COL, FOOD_KEY_ROW, UPDATE_FREQUENCY};
use crate::position::{Position, RowColIter, Spot};
use crate::snake::{Head, Snake};
use crate::start::{
    start_char, start_glyph, start_text, START_COLS, START_INDENT, START_ROWS, START_STRIDE,
};
use crate::text::{blank, line_end, trim_back, trim_front, LINE_BREAK};

verus! {

/// A game on a board of `WIDTH` columns and `HEIGHT` rows.
#[derive(Debug, Copy, Clone, Eq, PartialEq)]
pub struct SnakeGame<const WIDTH: usize, const HEIGHT: usize> {
    board: Board<WIDTH, HEIGHT>,
    snake: Snake<WIDTH, HEIGHT>,
    status: Status,
    food_eaten: u32,
    countdown: usize,
    last_key: Option<Dir>,
}

impl<const WIDTH: usize, const HEIGHT: usize> View for SnakeGame<WIDTH, HEIGHT> {
    type V = GameView;

    closed spec fn view(&self) -> GameView {
        GameView {
            grid: self.board@,
            head: self.snake@,
            status: self.status,
            score: self.food_eaten as int,
            countdown: self.countdown as int,
            pending: self.last_key,
        }
    }
}

/// One timer tick: counts it, and makes a game step where one is due.
/// Tells whether a step was made, which is when the board is worth drawing
/// again.
pub fn tick<const WIDTH: usize, const HEIGHT: usize>(game: &mut SnakeGame<WIDTH, HEIGHT>) -> (stepped:
    bool)
    requires
        old(game).wf(),
    ensures
        stepped == old(game)@.due(),
        final(game)@ == old(game)@.ticked(),
        final(game).wf(),
{
    if game.countdown_complete() {
        game.update();
        true
    } else {
        false
    }
}

impl<const WIDTH: usize, const HEIGHT: usize> SnakeGame<WIDTH, HEIGHT> {
    /// Whether the game is in a state that play can reach.
    pub open spec fn wf(&self) -> bool {
        self@.wf(WIDTH as int, HEIGHT as int)
    }

    /// A new game: a board full of food with the start map laid over it, the
    /// head where the map marks it, and a full countdown.
    pub fn new() -> (game: Self)
        requires
            START_COLS <= WIDTH <= i16::MAX,
            START_ROWS <= HEIGHT <= i16::MAX,
        ensures
            game@ == GameView::fresh(WIDTH as int, HEIGHT as int),
            game.wf(),
    {
        let mut game = SnakeGame {
            board: Board::filled(Cell::Food),
            snake: Snake::new(Position::new(0, 0), '>'),
            food_eaten: 0,
            countdown: UPDATE_FREQUENCY,
            last_key: None,
            status: Status::Normal,
        };
        proof {
            game.board.lemma_shape();
        }
        game.reset();
        proof {
            game@.grid.lemma_same(
                GameView::fresh(WIDTH as int, HEIGHT as int).grid,
                WIDTH as int,
                HEIGHT as int,
            );
        }
        game
    }

    /// The food eaten in this run.
    pub fn score(&self) -> (score: u32)
        ensures
            score == self@.score,
    {
        self.food_eaten
    }

    pub fn status(&self) -> (status: Status)
        ensures
            status == self@.status,
    {
        self.status
    }

    /// The content of the square at `p`. The square under the head holds
    /// what the board holds there, not the head.
    pub fn cell(&self, p: Position<WIDTH, HEIGHT>) -> (cell: Cell)
        requires
            p@.in_grid(WIDTH as int, HEIGHT as int),
        ensures
            cell == self@.grid.cell(p@),
    {
        let (row, col) = p.row_col();
        self.board.get(row, col)
    }

    /// A walk over every position of the board, row by row. Each call starts
    /// a walk of its own.
    pub fn cell_pos_iter(&self) -> (it: RowColIter<WIDTH, HEIGHT>)
        requires
            self.wf(),
        ensures
            it@ == (Spot { row: 0, col: 0 }),
            it.wf(),
    {
        RowColIter::new()
    }

    /// Where the head is.
    pub fn snake_at(&self) -> (p: Position<WIDTH, HEIGHT>)
        ensures
            p@ == self@.head.at,
    {
        self.snake.position()
    }

    /// The glyph that shows the head.
    pub fn snake_icon(&self) -> (c: char)
        ensures
            c == self@.head.icon(),
    {
        self.snake.icon()
    }

    /// The contents of the three squares ahead of, to the left of and to
    /// the right of `p` for one who faces `dir`.
    pub fn ahead_left_right(&self, p: Position<WIDTH, HEIGHT>, dir: Dir) -> (around: (
        Cell,
        Cell,
        Cell,
    ))
        requires
            p@.step(dir).in_grid(WIDTH as int, HEIGHT as int),
            p@.step(dir.spec_left()).in_grid(WIDTH as int, HEIGHT as int),
            p@.step(dir.spec_right()).in_grid(WIDTH as int, HEIGHT as int),
            WIDTH <= i16::MAX,
            HEIGHT <= i16::MAX,
        ensures
            around.0 == self@.grid.cell(p@.step(dir)),
            around.1 == self@.grid.cell(p@.step(dir.spec_left())),
            around.2 == self@.grid.cell(p@.step(dir.spec_right())),
    {
        let ahead = self.cell(p.neighbor(dir));
        let left = self.cell(p.neighbor(dir.left()));
        let right = self.cell(p.neighbor(dir.right()));
        (ahead, left, right)
    }

    /// Puts the head on the square `neighbor`, facing `dir`, and eats food
    /// that lies there. The pending direction is left as it is: the game
    /// step that makes the move clears it afterwards.
    pub fn move_to(&mut self, neighbor: Position<WIDTH, HEIGHT>, dir: Dir)
        requires
            old(self).wf(),
            old(self)@.score < WIN_SCORE,
            neighbor@.in_grid(WIDTH as int, HEIGHT as int),
        ensures
            final(self)@ == old(self)@.entered(neighbor@, dir),
            final(self)@.grid.has_shape(WIDTH as int, HEIGHT as int),
            final(self)@.score < WIN_SCORE || final(self)@.pending is None ==> final(self).wf(),
    {
        self.snake.advance(neighbor, dir);
        let (row, col) = neighbor.row_col();
        proof {
            self.board.lemma_shape();
        }
        match self.board.get(row, col) {
            Cell::Food => {
                let before: u32 = self.score();
                proof {
                    lemma_food_mix_fits(before as int);
                    lemma_food_spot_range(before as int, before + 1);
                }
                self.food_eaten += 1;
                if self.food_eaten >= WIN_SCORE {
                    self.status = Status::Over;
                }
                self.board.set(row, col, Cell::Empty);
                let (food_row, food_col) = next_food(before, self.score());
                self.board.set(food_row, food_col, Cell::Food);
                proof {
                    self.board.lemma_shape();
                }
            },
            _ => {},
        }
    }

    /// Acts on the pending direction, if there is one and the square ahead
    /// is on the board.
    fn resolve_move(&mut self)
        requires
            old(self).wf(),
        ensures
            final(self)@ == old(self)@.resolved(),
            final(self)@.grid.has_shape(WIDTH as int, HEIGHT as int),
    {
        proof {
            self.board.lemma_shape();
        }
        if let Some(dir) = self.last_key {
            let neighbor = self.snake.position().neighbor(dir);
            if neighbor.is_legal() {
                let (row, col) = neighbor.row_col();
                if self.board.get(row, col) != Cell::Wall {
                    self.move_to(neighbor, dir);
                }
                let ahead = self.board.get(row, col);
                if ahead == Cell::Wall || ahead == Cell::Body {
                    self.status = Status::Over;
                }
            }
        }
    }

    /// One game step: acts on the pending direction and clears it, and lets
    /// the head blink.
    pub fn update(&mut self)
        requires
            old(self).wf(),
        ensures
            final(self)@ == old(self)@.stepped(),
            final(self).wf(),
    {
        self.resolve_move();
        self.last_key = None;
        self.snake.tick();
    }

    /// Counts one timer tick and tells whether a game step is due on it.
    /// When the countdown has run out it starts again and the answer is
    /// `true`; else it goes down by one.
    pub fn countdown_complete(&mut self) -> (due: bool)
        requires
            old(self).wf(),
        ensures
            due == old(self)@.due(),
            final(self)@ == old(self)@.counted(),
            final(self).wf(),
    {
        if self.countdown == 0 {
            self.countdown = UPDATE_FREQUENCY;
            true
        } else {
            self.countdown -= 1;
            false
        }
    }

    /// Takes one key press.
    pub fn key(&mut self, key: Key)
        requires
            old(self).wf(),
        ensures
            final(self)@ == old(self)@.keyed(key),
            final(self).wf(),
    {
        proof {
            self.board.lemma_shape();
        }
        match self.status {
            Status::Over => {
                match key {
                    Key::RawKey(KeyCode::S) | Key::Unicode('s') => self.reset(),
                    _ => {},
                }
            },
            Status::Normal => {
                match key {
                    Key::RawKey(KeyCode::O) | Key::Unicode('o') => {
                        self.status = Status::Over;
                    },
                    Key::RawKey(KeyCode::I) | Key::Unicode('i') => {
                        self.board.set(FOOD_KEY_ROW, FOOD_KEY_COL, Cell::Food);
                        proof {
                            self.board.lemma_shape();
                        }
                    },
                    _ => {
                        let dir = key.direction();
                        if dir.is_some() {
                            self.last_key = dir;
                        }
                    },
                }
            },
        }
    }

    /// Takes one glyph of a map into the game: a cell glyph sets the square
    /// in row `row`, column `col`; a head glyph leaves the square alone and
    /// puts the head there, mouth open.
    fn translate_icon(&mut self, row: usize, col: usize, icon: char)
        requires
            row < HEIGHT,
            col < WIDTH,
            HEIGHT <= i16::MAX,
            WIDTH <= i16::MAX,
            map_glyph(icon),
        ensures
            final(self)@ == match Cell::spec_from_glyph(icon) {
                Some(cell) => GameView {
                    grid: old(self)@.grid.put(Spot { row: row as int, col: col as int }, cell),
                    ..old(self)@
                },
                None => GameView {
                    head: Head {
                        at: Spot { row: row as int, col: col as int },
                        dir: Dir::spec_from_icon(icon)->0,
                        open: true,
                    },
                    ..old(self)@
                },
            },
    {
        match Cell::from_glyph(icon) {
            Some(cell) => self.board.set(row, col, cell),
            None => {
                self.snake = Snake::new(Position::new(row as i16, col as i16), icon);
            },
        }
    }

    /// Whether the squares of `grid` that come before row `row`, column
    /// `col` in reading order show the start map laid over `before`, and the
    /// others are as in `before`.
    spec fn laid_upto(grid: Grid, before: Grid, row: int, col: int) -> bool {
        &&& grid.has_shape(WIDTH as int, HEIGHT as int)
        &&& forall|r: int, c: int|
            0 <= r < HEIGHT && 0 <= c < WIDTH ==> #[trigger] grid.rows[r][c] == if r < row || (r
                == row && c < col) {
                start_cell(r, c, before.rows[r][c])
            } else {
                before.rows[r][c]
            }
    }

    /// Starts a new run: lays the start map over the board, puts the head
    /// where the map marks it, and clears the score and the pending
    /// direction. The countdown runs on.
    pub fn reset(&mut self)
        requires
            old(self).wf(),
        ensures
            final(self)@ == old(self)@.restarted(),
            final(self).wf(),
    {
        let ghost before = self@;
        let text = start_text();
        let mut row: usize = 0;
        let mut from: usize = 0;
        proof {
            self.board.lemma_shape();
        }
        while from < text.len()
            invariant
                before.wf(WIDTH as int, HEIGHT as int),
                text@.len() == (START_ROWS - 1) * START_STRIDE + START_COLS,
                forall|i: int| 0 <= i < text@.len() ==> #[trigger] text@[i] == start_char(i) as u8,
                row <= START_ROWS,
                row < START_ROWS ==> from == if row == 0 {
                    0
                } else {
                    row * START_STRIDE - START_INDENT
                },
                row == START_ROWS ==> from == text@.len(),
                Self::laid_upto(self@.grid, before.grid, row as int, 0),
                self@.head == if row > start_head().at.row {
                    start_head()
                } else {
                    before.head
                },
                self@ == (GameView { grid: self@.grid, head: self@.head, ..before }),
            decreases text@.len() - from,
        {
            let end = line_end(text, from);
            let ghost glyphs = row * START_STRIDE;
            assert(end == glyphs + START_COLS) by {
                assert forall|k: int| from <= k < glyphs + START_COLS implies text@[k]
                    != LINE_BREAK by {
                    assert(text@[k] == start_char(k) as u8);
                }
                if row < START_ROWS - 1 {
                    assert(text@[glyphs + START_COLS] == start_char(glyphs + START_COLS) as u8);
                }
            }
            let first = trim_front(text, from, end);
            assert(first == glyphs) by {
                assert(text@[glyphs] == start_char(glyphs) as u8);
                assert forall|k: int| from <= k < glyphs implies blank(text@[k]) by {
                    assert(text@[k] == start_char(k) as u8);
                }
            }
            let last = trim_back(text, first, end);
            assert(last == end) by {
                assert(text@[end - 1] == start_char(end - 1) as u8);
            }
            let mut col: usize = 0;
            while first + col < last
                invariant
                    before.wf(WIDTH as int, HEIGHT as int),
                        text@.len() == (START_ROWS - 1) * START_STRIDE + START_COLS,
                    forall|i: int|
                        0 <= i < text@.len() ==> #[trigger] text@[i] == start_char(i) as u8,
                    row < START_ROWS,
                    first == row * START_STRIDE,
                    last == first + START_COLS,
                    col <= START_COLS,
                    Self::laid_upto(self@.grid, before.grid, row as int, col as int),
                    self@.head == if row > start_head().at.row || (row == start_head().at.row
                        && col > start_head().at.col) {
                        start_head()
                    } else {
                        before.head
                    },
                    self@ == (GameView { grid: self@.grid, head: self@.head, ..before }),
                decreases last - first - col,
            {
                let glyph = text[first + col] as char;
                assert(glyph == start_glyph(row as int, col as int)) by {
                    assert(text@[first + col] == start_char(first + col) as u8);
                }
                self.translate_icon(row, col, glyph);
                assert(Self::laid_upto(self@.grid, before.grid, row as int, col + 1));
                col += 1;
            }
            from = if end < text.len() {
                end + 1
            } else {
                end
            };
            row += 1;
        }
        self.status = Status::Normal;
        self.food_eaten = 0;
        self.last_key = None;
        proof {
            self@.grid.lemma_same(before.start_grid(), WIDTH as int, HEIGHT as int);
        }
    }
}

} // verus!
