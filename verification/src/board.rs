//! The board: a fixed grid of cells.

use vstd::prelude::*;
use crate::cell::Cell;
use crate::position::Spot;

verus! {

/// The model of a [`Board`]: its rows from the top, each row from the left.
pub struct Grid {
    pub rows: Seq<Seq<Cell>>,
}

impl Grid {
    /// Whether the grid has `height` rows of `width` cells each.
    pub open spec fn has_shape(self, width: int, height: int) -> bool {
        &&& self.rows.len() == height
        &&& forall|r: int| 0 <= r < height ==> (#[trigger] self.rows[r]).len() == width
    }

    /// The content of the square at `at`.
    pub open spec fn cell(self, at: Spot) -> Cell {
        self.rows[at.row][at.col]
    }

    /// The grid with `cell` on the square at `at` and every other square as
    /// it was.
    pub open spec fn put(self, at: Spot, cell: Cell) -> Grid {
        Grid { rows: self.rows.update(at.row, self.rows[at.row].update(at.col, cell)) }
    }

    /// The grid of the given shape whose square at row `r`, column `c` holds
    /// `f(r, c)`.
    pub open spec fn build(width: int, height: int, f: spec_fn(int, int) -> Cell) -> Grid {
        Grid { rows: Seq::new(height as nat, |r: int| Seq::new(width as nat, |c: int| f(r, c))) }
    }

    /// Whether the two grids, read as `height` rows of `width` cells, agree
    /// on every square but those at `a` and `b`.
    pub open spec fn same_but(self, other: Grid, a: Spot, b: Spot, width: int, height: int) -> bool {
        forall|r: int, c: int|
            0 <= r < height && 0 <= c < width && (Spot { row: r, col: c }) != a && (Spot {
                row: r,
                col: c,
            }) != b ==> #[trigger] self.rows[r][c] == other.rows[r][c]
    }

    /// Two grids of one shape that agree on every square are the same grid.
    pub proof fn lemma_same(self, other: Grid, width: int, height: int)
        requires
            self.has_shape(width, height),
            other.has_shape(width, height),
            forall|r: int, c: int|
                0 <= r < height && 0 <= c < width ==> self.rows[r][c] == other.rows[r][c],
        ensures
            self == other,
    {
        assert forall|r: int| 0 <= r < height implies self.rows[r] == other.rows[r] by {
            assert(self.rows[r] =~= other.rows[r]);
        }
        assert(self.rows =~= other.rows);
    }
}

/// A grid of `HEIGHT` rows of `WIDTH` cells.
#[derive(Debug, Copy, Clone, Eq, PartialEq)]
pub struct Board<const WIDTH: usize, const HEIGHT: usize> {
    cells: [[Cell; WIDTH]; HEIGHT],
}

impl<const WIDTH: usize, const HEIGHT: usize> View for Board<WIDTH, HEIGHT> {
    type V = Grid;

    closed spec fn view(&self) -> Grid {
        Grid { rows: Seq::new(HEIGHT as nat, |r: int| self.cells@[r]@) }
    }
}

impl<const WIDTH: usize, const HEIGHT: usize> Board<WIDTH, HEIGHT> {
    /// Every board has the shape that its type names.
    pub proof fn lemma_shape(&self)
        ensures
            self@.has_shape(WIDTH as int, HEIGHT as int),
    {
    }

    /// A board with `cell` on every square.
    pub fn filled(cell: Cell) -> (board: Self)
        ensures
            board@ == Grid::build(WIDTH as int, HEIGHT as int, |r: int, c: int| cell),
    {
        let board = Board { cells: [[cell; WIDTH]; HEIGHT] };
        proof {
            board@.lemma_same(
                Grid::build(WIDTH as int, HEIGHT as int, |r: int, c: int| cell),
                WIDTH as int,
                HEIGHT as int,
            );
        }
        board
    }

    /// The content of the square in row `row`, column `col`.
    pub fn get(&self, row: usize, col: usize) -> (cell: Cell)
        requires
            row < HEIGHT,
            col < WIDTH,
        ensures
            cell == self@.cell(Spot { row: row as int, col: col as int }),
    {
        self.cells[row][col]
    }

    /// Puts `cell` on the square in row `row`, column `col`.
    pub fn set(&mut self, row: usize, col: usize, cell: Cell)
        requires
            row < HEIGHT,
            col < WIDTH,
        ensures
            final(self)@ == old(self)@.put(Spot { row: row as int, col: col as int }, cell),
    {
        self.cells[row][col] = cell;
        proof {
            self@.lemma_same(
                old(self)@.put(Spot { row: row as int, col: col as int }, cell),
                WIDTH as int,
                HEIGHT as int,
            );
        }
    }
}

} // verus!
