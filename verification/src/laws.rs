//! What holds of the game in general, proved from the model.

use vstd::prelude::*;
use vstd::arithmetic::div_mod::{lemma_fundamental_div_mod, lemma_fundamental_div_mod_converse};
use crate::cell::{Cell, Status};
use crate::dir::Dir;
use crate::food::{food_spot, lemma_food_spot_range, WIN_SCORE};
use crate::key::Key;
use crate::model::{blank, countdown_next, start_covers, start_head, GameView, UPDATE_FREQUENCY};
use crate::position::{Position, RowColIter, Spot};
use crate::start::{start_glyph, START_COLS, START_ROWS};

verus! {

/// Two quarter turns to the left, or two to the right, face the opposite
/// way.
pub proof fn law_half_turn(d: Dir)
    ensures
        d.spec_left().spec_left() == d.opposite(),
        d.spec_right().spec_right() == d.opposite(),
        d.spec_left().spec_right() == d,
        d.spec_right().spec_left() == d,
        d.opposite().opposite() == d,
{
}

/// Reading a direction's glyph gives the direction back.
pub proof fn law_icon_round_trip(d: Dir)
    ensures
        Dir::spec_from_icon(d.spec_icon()) == Some(d),
{
}

/// A step and then a step the opposite way lead back: for a position `p` on
/// the board whose neighbor `q` in direction `d` is on the board too, the
/// neighbor `r` of `q` in the opposite direction is `p`.
pub proof fn law_neighbor_round_trip<const WIDTH: usize, const HEIGHT: usize>(
    p: Position<WIDTH, HEIGHT>,
    q: Position<WIDTH, HEIGHT>,
    r: Position<WIDTH, HEIGHT>,
    d: Dir,
)
    requires
        p@.in_grid(WIDTH as int, HEIGHT as int),
        q@ == p@.step(d),
        q@.in_grid(WIDTH as int, HEIGHT as int),
        r@ == q@.step(d.opposite()),
    ensures
        p@.step(d).step(d.opposite()) == p@,
        r == p,
{
    p.lemma_view();
}

/// The spot with index `k` when a grid of `width` columns is read row by row
/// from the top, each row from the left.
pub open spec fn spot_in_order(k: int, width: int) -> Spot {
    Spot { row: k / width, col: k % width }
}

/// A walk over the board goes through the squares in reading order and
/// reaches each square once: it starts on the spot with index 0, it goes
/// from the spot with index `k` to the one with index `k + 1`, and the spot
/// with index `k` is on the board exactly for the `WIDTH * HEIGHT` indices
/// below that product.
pub proof fn law_walk_order<const WIDTH: usize, const HEIGHT: usize>(k: int)
    requires
        0 < WIDTH,
        0 <= k,
    ensures
        spot_in_order(0, WIDTH as int) == (Spot { row: 0, col: 0 }),
        RowColIter::<WIDTH, HEIGHT>::after(spot_in_order(k, WIDTH as int)) == spot_in_order(
            k + 1,
            WIDTH as int,
        ),
        spot_in_order(k, WIDTH as int).in_grid(WIDTH as int, HEIGHT as int) <==> k < WIDTH
            * HEIGHT,
        spot_in_order(k, WIDTH as int).rank(WIDTH as int) == k,
{
    let w = WIDTH as int;
    let h = HEIGHT as int;
    lemma_fundamental_div_mod_converse(0, w, 0, 0);
    lemma_fundamental_div_mod(k, w);
    let q = k / w;
    let rest = k % w;
    assert(0 <= rest < w) by {
        vstd::arithmetic::div_mod::lemma_mod_bound(k, w);
    }
    assert(q >= 0) by (nonlinear_arith)
        requires
            k == w * q + rest,
            0 <= rest < w,
            0 <= k,
    ;
    if rest + 1 == w {
        assert(k + 1 == (q + 1) * w + 0) by (nonlinear_arith)
            requires
                k == w * q + rest,
                rest + 1 == w,
        ;
        lemma_fundamental_div_mod_converse(k + 1, w, q + 1, 0);
    } else {
        assert(k + 1 == q * w + (rest + 1)) by (nonlinear_arith)
            requires
                k == w * q + rest,
        ;
        lemma_fundamental_div_mod_converse(k + 1, w, q, rest + 1);
    }
    assert(q < h <==> k < w * h) by (nonlinear_arith)
        requires
            k == w * q + rest,
            0 <= rest < w,
    ;
    assert(q * w + rest == k) by (nonlinear_arith)
        requires
            k == w * q + rest,
    ;
}

/// The countdown after `calls` timer ticks, where it restarts from `reload`.
pub open spec fn countdown_after(countdown: int, reload: int, calls: nat) -> int
    decreases calls,
{
    if calls == 0 {
        countdown
    } else {
        countdown_next(countdown_after(countdown, reload, (calls - 1) as nat), reload)
    }
}

/// Whether the tick that follows `calls` earlier ticks is a game step.
pub open spec fn due_after(countdown: int, reload: int, calls: nat) -> bool {
    countdown_after(countdown, reload, calls) == 0
}

/// The countdown runs in a cycle of `reload + 1` ticks: after `calls` ticks
/// it stands at `countdown - calls`, taken modulo `reload + 1`.
pub proof fn law_countdown_cycle(countdown: int, reload: int, calls: nat)
    requires
        0 <= countdown <= reload,
    ensures
        countdown_after(countdown, reload, calls) == (countdown - calls) % (reload + 1),
        0 <= countdown_after(countdown, reload, calls) <= reload,
    decreases calls,
{
    let m = reload + 1;
    if calls == 0 {
        lemma_fundamental_div_mod_converse(countdown, m, 0, countdown);
    } else {
        let before = (calls - 1) as nat;
        law_countdown_cycle(countdown, reload, before);
        let x = countdown - before;
        lemma_fundamental_div_mod(x, m);
        let q = x / m;
        let rest = x % m;
        assert(x == m * q + rest);
        if rest == 0 {
            assert(x - 1 == (q - 1) * m + reload) by (nonlinear_arith)
                requires
                    x == m * q,
                    m == reload + 1,
            ;
            lemma_fundamental_div_mod_converse(x - 1, m, q - 1, reload);
        } else {
            assert(x - 1 == q * m + (rest - 1)) by (nonlinear_arith)
                requires
                    x == m * q + rest,
            ;
            lemma_fundamental_div_mod_converse(x - 1, m, q, rest - 1);
        }
    }
}

/// Of any `reload + 1` ticks in a row, exactly one is a game step: there is
/// one among the ticks that follow `first` earlier ticks, and no second.
pub proof fn law_countdown_once_per_cycle(countdown: int, reload: int, first: nat)
    requires
        0 <= countdown <= reload,
    ensures
        exists|calls: nat|
            first <= calls < first + reload + 1 && #[trigger] due_after(countdown, reload, calls),
        forall|a: nat, b: nat|
            first <= a < first + reload + 1 && first <= b < first + reload + 1
                && #[trigger] due_after(countdown, reload, a) && #[trigger] due_after(
                countdown,
                reload,
                b,
            ) ==> a == b,
{
    let m = reload + 1;
    let x = countdown - first;
    lemma_fundamental_div_mod(x, m);
    let q = x / m;
    let rest = x % m;
    let hit = (first + rest) as nat;
    law_countdown_cycle(countdown, reload, hit);
    assert(countdown - hit == q * m + 0) by (nonlinear_arith)
        requires
            countdown - first == m * q + rest,
            hit == first + rest,
    ;
    lemma_fundamental_div_mod_converse(countdown - hit, m, q, 0);
    assert(due_after(countdown, reload, hit));
    assert forall|a: nat, b: nat|
        first <= a < first + reload + 1 && first <= b < first + reload + 1 && #[trigger] due_after(
            countdown,
            reload,
            a,
        ) && #[trigger] due_after(countdown, reload, b) implies a == b by {
        law_countdown_cycle(countdown, reload, a);
        law_countdown_cycle(countdown, reload, b);
        lemma_fundamental_div_mod(countdown - a, m);
        lemma_fundamental_div_mod(countdown - b, m);
        let qa = (countdown - a) / m;
        let qb = (countdown - b) / m;
        assert(b - a == m * (qa - qb)) by (nonlinear_arith)
            requires
                countdown - a == m * qa,
                countdown - b == m * qb,
        ;
        assert(qa == qb) by (nonlinear_arith)
            requires
                b - a == m * (qa - qb),
                -m < b - a < m,
                m > 0,
        ;
    }
}

/// From a full countdown, as a new game has it, the ticks that are game
/// steps are every `reload + 1`-th one: the tick after `calls` earlier ticks
/// is a game step exactly when `calls + 1` is a multiple of `reload + 1`.
pub proof fn law_countdown_from_full(reload: int, calls: nat)
    requires
        0 <= reload,
    ensures
        due_after(reload, reload, calls) <==> (calls as int + 1) % (reload + 1) == 0,
{
    let m = reload + 1;
    law_countdown_cycle(reload, reload, calls);
    lemma_fundamental_div_mod(reload - calls, m);
    let next = calls as int + 1;
    lemma_fundamental_div_mod(next, m);
    let q = (reload - calls) / m;
    let p = next / m;
    if (reload - calls) % m == 0 {
        assert(next == (1 - q) * m + 0) by (nonlinear_arith)
            requires
                reload - calls == m * q,
                m == reload + 1,
                next == calls + 1,
        ;
        lemma_fundamental_div_mod_converse(next, m, 1 - q, 0);
    }
    if next % m == 0 {
        assert(reload - calls == (1 - p) * m + 0) by (nonlinear_arith)
            requires
                next == m * p,
                m == reload + 1,
                next == calls + 1,
        ;
        lemma_fundamental_div_mod_converse(reload - calls, m, 1 - p, 0);
    }
}

/// A timer tick moves the countdown of a game as [`countdown_next`] says,
/// whether or not a game step comes with it, and it is a game step exactly
/// when the countdown had run out.
pub proof fn law_tick_counts(game: GameView)
    ensures
        game.ticked().countdown == countdown_next(game.countdown, UPDATE_FREQUENCY as int),
        game.counted().countdown == countdown_next(game.countdown, UPDATE_FREQUENCY as int),
        game.due() <==> due_after(game.countdown, UPDATE_FREQUENCY as int, 0),
{
}

/// The start map marks the head with a glyph of its own: the one square
/// of the map without a cell glyph is the square of the head, and its glyph
/// reads as the way the head faces.
pub proof fn law_start_head()
    ensures
        start_head().at.in_grid(START_COLS as int, START_ROWS as int),
        !start_covers(start_head().at.row, start_head().at.col),
        Dir::spec_from_icon(start_glyph(start_head().at.row, start_head().at.col)) == Some(
            start_head().dir,
        ),
        forall|r: int, c: int|
            0 <= r < START_ROWS && 0 <= c < START_COLS && !#[trigger] start_covers(r, c) ==> r
                == start_head().at.row && c == start_head().at.col,
{
}

/// After a restart the run is in progress with no score and nothing
/// pending, the head stands where the start map marks it, and the board
/// shows the start map square for square: each square under a cell glyph
/// holds that glyph's content, and every other square holds what it held.
pub proof fn law_restart(game: GameView, width: int, height: int)
    requires
        game.wf(width, height),
    ensures
        game.restarted().wf(width, height),
        game.restarted().status == Status::Normal,
        game.restarted().score == 0,
        game.restarted().pending is None,
        game.restarted().head == start_head(),
        game.restarted().countdown == game.countdown,
        forall|r: int, c: int|
            0 <= r < height && 0 <= c < width && start_covers(r, c)
                ==> #[trigger] game.restarted().grid.rows[r][c] == Cell::spec_from_glyph(
                start_glyph(r, c),
            )->0,
        forall|r: int, c: int|
            0 <= r < height && 0 <= c < width && !start_covers(r, c)
                ==> #[trigger] game.restarted().grid.rows[r][c] == game.grid.rows[r][c],
{
}

/// A new game is a restart of a board full of food with a full countdown.
pub proof fn law_new_game(width: int, height: int)
    requires
        START_COLS <= width <= i16::MAX,
        START_ROWS <= height <= i16::MAX,
    ensures
        GameView::fresh(width, height).wf(width, height),
        GameView::fresh(width, height) == blank(width, height).restarted(),
{
    blank(width, height).restarted().grid.lemma_same(
        GameView::fresh(width, height).grid,
        width,
        height,
    );
}

/// No timer tick and no key leads out of the states that play can reach:
/// the board keeps its shape, the head stays on the board, and the score
/// stays within the winning score.
pub proof fn law_play_stays_well_formed(game: GameView, width: int, height: int, key: Key)
    requires
        game.wf(width, height),
    ensures
        game.stepped().wf(width, height),
        game.counted().wf(width, height),
        game.ticked().wf(width, height),
        game.keyed(key).wf(width, height),
{
    lemma_food_spot_range(game.score, game.score + 1);
}

/// A step into a wall: where a direction is pending and the square ahead
/// is on the board and holds a wall, the game step leaves the head where it
/// is, ends the run and clears the pending direction. The board, the score
/// and the way the head faces stay as they are.
pub proof fn law_wall_ends_run(game: GameView, width: int, height: int, dir: Dir)
    requires
        game.wf(width, height),
        game.pending == Some(dir),
        game.head.at.step(dir).in_grid(width, height),
        game.grid.cell(game.head.at.step(dir)) == Cell::Wall,
    ensures
        game.stepped().head.at == game.head.at,
        game.stepped().head.dir == game.head.dir,
        game.stepped().status == Status::Over,
        game.stepped().pending is None,
        game.stepped().grid == game.grid,
        game.stepped().score == game.score,
{
}

/// A step onto food: where a direction is pending and the square ahead is
/// on the board and holds food, the game step puts the head there, raises
/// the score by exactly one, empties that square, places food on the square
/// that the formula names and on no other, and ends the run exactly when the
/// new score has reached the winning score. The emptied square holds food
/// again only where the formula names that very square.
pub proof fn law_food_scores(game: GameView, width: int, height: int, dir: Dir)
    requires
        game.wf(width, height),
        game.pending == Some(dir),
        game.head.at.step(dir).in_grid(width, height),
        game.grid.cell(game.head.at.step(dir)) == Cell::Food,
    ensures
        game.stepped().wf(width, height),
        game.stepped().head.at == game.head.at.step(dir),
        game.stepped().head.dir == dir,
        game.stepped().score == game.score + 1,
        game.stepped().pending is None,
        game.stepped().status == if game.score + 1 >= WIN_SCORE {
            Status::Over
        } else {
            game.status
        },
        food_spot(game.score, game.score + 1).in_grid(width, height),
        game.stepped().grid.cell(food_spot(game.score, game.score + 1)) == Cell::Food,
        food_spot(game.score, game.score + 1) != game.head.at.step(dir)
            ==> game.stepped().grid.cell(game.head.at.step(dir)) == Cell::Empty,
        game.stepped().grid.same_but(
            game.grid,
            game.head.at.step(dir),
            food_spot(game.score, game.score + 1),
            width,
            height,
        ),
{
    lemma_food_spot_range(game.score, game.score + 1);
}

/// Once the run is over, no key but the restart key changes anything, and
/// the restart key restarts the game.
pub proof fn law_over_ignores_keys(game: GameView, key: Key)
    requires
        game.status == Status::Over,
    ensures
        !key.is_restart() ==> game.keyed(key) == game,
        key.is_restart() ==> game.keyed(key) == game.restarted(),
{
}

} // verus!
