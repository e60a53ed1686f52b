//! Grid coordinates over a fixed `WIDTH` x `HEIGHT` board.

use vstd::prelude::*;
use vstd::std_specs::cmp::PartialEqSpecImpl;
use vstd::std_specs::ops::SubSpecImpl;
use crate::dir::Dir;

verus! {

/// A coordinate pair as mathematical integers: the model of a [`Position`].
pub struct Spot {
    pub row: int,
    pub col: int,
}

impl Spot {
    /// Whether the spot lies on a grid of `height` rows and `width` columns.
    pub open spec fn in_grid(self, width: int, height: int) -> bool {
        0 <= self.row < height && 0 <= self.col < width
    }

    /// The adjacent spot in direction `d`, wherever that falls.
    pub open spec fn step(self, d: Dir) -> Spot {
        match d {
            Dir::N => Spot { row: self.row - 1, col: self.col },
            Dir::S => Spot { row: self.row + 1, col: self.col },
            Dir::E => Spot { row: self.row, col: self.col + 1 },
            Dir::W => Spot { row: self.row, col: self.col - 1 },
        }
    }

    /// The component-wise difference `self - rhs`.
    pub open spec fn minus(self, rhs: Spot) -> Spot {
        Spot { row: self.row - rhs.row, col: self.col - rhs.col }
    }

    /// Whether both coordinates fit the machine representation of a
    /// [`Position`].
    pub open spec fn representable(self) -> bool {
        i16::MIN <= self.row <= i16::MAX && i16::MIN <= self.col <= i16::MAX
    }

    /// The index of the spot when a grid of `width` columns is read row by
    /// row.
    pub open spec fn rank(self, width: int) -> int {
        self.row * width + self.col
    }
}

/// A coordinate pair meant for a board of `WIDTH` columns and `HEIGHT` rows.
/// A value is not clamped: it may lie off the board, and [`Position::is_legal`]
/// tells whether it does.
#[derive(Debug, Copy, Clone, Eq)]
pub struct Position<const WIDTH: usize, const HEIGHT: usize> {
    col: i16,
    row: i16,
}

impl<const WIDTH: usize, const HEIGHT: usize> View for Position<WIDTH, HEIGHT> {
    type V = Spot;

    closed spec fn view(&self) -> Spot {
        Spot { row: self.row as int, col: self.col as int }
    }
}

impl<const WIDTH: usize, const HEIGHT: usize> Position<WIDTH, HEIGHT> {
    /// Positions are determined by their coordinates, and every position has
    /// representable coordinates.
    pub proof fn lemma_view(self)
        ensures
            self@.representable(),
            forall|other: Self| #[trigger] other@ == self@ ==> other == self,
    {
    }

    pub fn new(row: i16, col: i16) -> (p: Self)
        ensures
            p@ == (Spot { row: row as int, col: col as int }),
    {
        Position { col, row }
    }

    /// Whether the position lies on the board.
    pub fn is_legal(&self) -> (legal: bool)
        ensures
            legal == self@.in_grid(WIDTH as int, HEIGHT as int),
    {
        0 <= self.col && (self.col as usize) < WIDTH && 0 <= self.row && (self.row as usize)
            < HEIGHT
    }

    /// The coordinates as indices, row first. A negative coordinate wraps
    /// around the top of `usize`, so the pair indexes the board only for a
    /// legal position.
    pub fn row_col(&self) -> (rc: (usize, usize))
        ensures
            rc.0 as int == if self@.row >= 0 {
                self@.row
            } else {
                self@.row + usize::MAX + 1
            },
            rc.1 as int == if self@.col >= 0 {
                self@.col
            } else {
                self@.col + usize::MAX + 1
            },
    {
        (index_of(self.row), index_of(self.col))
    }

    /// The adjacent position in direction `d`. The result is not clamped to
    /// the board.
    pub fn neighbor(&self, d: Dir) -> (p: Self)
        requires
            self@.step(d).representable(),
        ensures
            p@ == self@.step(d),
    {
        match d {
            Dir::N => Position { row: self.row - 1, col: self.col },
            Dir::S => Position { row: self.row + 1, col: self.col },
            Dir::E => Position { row: self.row, col: self.col + 1 },
            Dir::W => Position { row: self.row, col: self.col - 1 },
        }
    }
}

/// A walk over every position of the board, row by row from the top and
/// each row from the left.
#[derive(Debug, Copy, Clone)]
pub struct RowColIter<const WIDTH: usize, const HEIGHT: usize> {
    row: usize,
    col: usize,
}

impl<const WIDTH: usize, const HEIGHT: usize> View for RowColIter<WIDTH, HEIGHT> {
    type V = Spot;

    /// The spot that the walk yields next; row `HEIGHT` once it is done.
    closed spec fn view(&self) -> Spot {
        Spot { row: self.row as int, col: self.col as int }
    }
}

impl<const WIDTH: usize, const HEIGHT: usize> RowColIter<WIDTH, HEIGHT> {
    /// The spot that follows `at` when a grid of `WIDTH` columns is read row
    /// by row.
    pub open spec fn after(at: Spot) -> Spot {
        if at.col + 1 == WIDTH {
            Spot { row: at.row + 1, col: 0 }
        } else {
            Spot { row: at.row, col: at.col + 1 }
        }
    }

    /// Whether the walk is at a spot of the board or done, on a board whose
    /// coordinates fit a position.
    pub open spec fn wf(&self) -> bool {
        &&& WIDTH <= i16::MAX
        &&& HEIGHT <= i16::MAX
        &&& 0 <= self@.row <= HEIGHT
        &&& self@.row < HEIGHT ==> 0 <= self@.col < WIDTH
        &&& self@.row == HEIGHT ==> self@.col == 0
    }

    /// Whether every position has been yielded.
    pub open spec fn done(&self) -> bool {
        self@.row >= HEIGHT
    }

    /// A walk that has yielded nothing yet.
    pub fn new() -> (it: Self)
        requires
            0 < WIDTH <= i16::MAX,
            HEIGHT <= i16::MAX,
        ensures
            it@ == (Spot { row: 0, col: 0 }),
            it.wf(),
    {
        RowColIter { row: 0, col: 0 }
    }

    /// Yields the next position and moves on, or yields `None` once every
    /// position has been yielded.
    pub fn next(&mut self) -> (p: Option<Position<WIDTH, HEIGHT>>)
        requires
            old(self).wf(),
        ensures
            final(self).wf(),
            old(self).done() ==> p is None && final(self)@ == old(self)@,
            !old(self).done() ==> p is Some && p->0@ == old(self)@ && final(self)@ == Self::after(
                old(self)@,
            ),
    {
        if self.row < HEIGHT {
            let result = Some(Position { row: self.row as i16, col: self.col as i16 });
            self.col += 1;
            if self.col == WIDTH {
                self.col = 0;
                self.row += 1;
            }
            result
        } else {
            None
        }
    }
}

/// The value of `x as usize`: `x` itself where it is not negative, else `x`
/// counted down from one past the top of `usize`.
fn index_of(x: i16) -> (u: usize)
    ensures
        u as int == if x >= 0 {
            x as int
        } else {
            x + usize::MAX + 1
        },
{
    if x >= 0 {
        x as usize
    } else {
        let below: usize = (-(x + 1)) as usize;
        usize::MAX - below
    }
}

impl<const WIDTH: usize, const HEIGHT: usize> PartialEq for Position<WIDTH, HEIGHT> {
    fn eq(&self, other: &Self) -> (same: bool) {
        self.row == other.row && self.col == other.col
    }
}

impl<const WIDTH: usize, const HEIGHT: usize> PartialEqSpecImpl for Position<WIDTH, HEIGHT> {
    open spec fn obeys_eq_spec() -> bool {
        true
    }

    open spec fn eq_spec(&self, other: &Self) -> bool {
        self@ == other@
    }
}

impl<const WIDTH: usize, const HEIGHT: usize> core::ops::Sub for Position<WIDTH, HEIGHT> {
    type Output = Position<WIDTH, HEIGHT>;

    /// The component-wise difference of two positions.
    fn sub(self, rhs: Self) -> (delta: Self::Output)
        ensures
            delta@ == self@.minus(rhs@),
    {
        Position { col: self.col - rhs.col, row: self.row - rhs.row }
    }
}

impl<const WIDTH: usize, const HEIGHT: usize> SubSpecImpl for Position<WIDTH, HEIGHT> {
    open spec fn obeys_sub_spec() -> bool {
        true
    }

    open spec fn sub_req(self, rhs: Self) -> bool {
        self@.minus(rhs@).representable()
    }

    closed spec fn sub_spec(self, rhs: Self) -> Self {
        Position { col: (self.col - rhs.col) as i16, row: (self.row - rhs.row) as i16 }
    }
}

} // verus!
