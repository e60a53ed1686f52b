//! Where the next food appears.
//!
//! The game has no source of randomness. The square for the next food is
//! computed from the score alone, so a run can be replayed exactly; the
//! arithmetic only has to look irregular to a player.

use vstd::prelude::*;
use crate::position::Spot;

verus! {

/// The score at which the run is won.
pub const WIN_SCORE: u32 = 30;

/// The product from which both coordinates of the next food are taken.
pub open spec fn food_mix(score_before: int, score_after: int) -> int {
    (score_before + 5 + 333) * score_after
}

/// The square that receives food after a bite that took the score from
/// `score_before` to `score_after`. The moduli 80 and 20 are fixed: they do
/// not follow the size of the board.
pub open spec fn food_spot(score_before: int, score_after: int) -> Spot {
    let mix = food_mix(score_before, score_after);
    let col = 80 - mix % 80;
    Spot { row: 20 - mix % 20, col: if col == 80 { col - 33 } else { col } }
}

/// The next food always falls in rows 1 to 20 and columns 1 to 79.
pub proof fn lemma_food_spot_range(score_before: int, score_after: int)
    requires
        0 <= score_before,
        0 <= score_after,
    ensures
        1 <= food_spot(score_before, score_after).row <= 20,
        1 <= food_spot(score_before, score_after).col <= 79,
{
}

/// While the score stays below the winning score, the product fits 32 bits.
pub proof fn lemma_food_mix_fits(score_before: int)
    requires
        0 <= score_before < WIN_SCORE,
    ensures
        0 <= food_mix(score_before, score_before + 1) <= 11010,
{
    assert(0 <= (score_before + 338) * (score_before + 1) <= 367 * 30) by (nonlinear_arith)
        requires
            0 <= score_before < 30,
    ;
}

/// Computes the square for the next food as `(row, col)`.
pub fn next_food(score_before: u32, score_after: u32) -> (rc: (usize, usize))
    requires
        score_before + 5 + 333 <= u32::MAX,
        food_mix(score_before as int, score_after as int) <= u32::MAX,
    ensures
        rc.0 as int == food_spot(score_before as int, score_after as int).row,
        rc.1 as int == food_spot(score_before as int, score_after as int).col,
{
    let change: u32 = score_before + 5 + 333;
    let mix: u32 = change * score_after;
    let mut col: u32 = 80 - mix % 80;
    if col == 80 {
        col -= 33;
    }
    let row: u32 = 20 - mix % 20;
    (row as usize, col as usize)
}

} // verus!
