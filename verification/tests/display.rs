use baremetal_snake::cell::Cell;
use baremetal_snake::display::{get_icon_color, outcome, Outcome, Paint, HEADER_SPACE};
use baremetal_snake::game::SnakeGame;
use baremetal_snake::key::{Key, KeyCode};
use baremetal_snake::position::Position;

type Game = SnakeGame<80, 23>;

#[test]
fn header_takes_two_rows() {
    assert_eq!(HEADER_SPACE, 2);
}

#[test]
fn cells_have_their_own_glyph_and_colour() {
    let game = Game::new();
    let p = Position::new(3, 3);
    assert_eq!(get_icon_color(&game, p, &Cell::Food), ('.', Paint::White));
    assert_eq!(get_icon_color(&game, p, &Cell::Empty), (' ', Paint::Black));
    assert_eq!(get_icon_color(&game, p, &Cell::Wall), ('#', Paint::Blue));
    assert_eq!(get_icon_color(&game, p, &Cell::Body), ('o', Paint::Green));
}

#[test]
fn head_covers_its_square() {
    let mut game = Game::new();
    let head = game.snake_at();
    let under = game.cell(head);
    assert_eq!(under, Cell::Food);
    assert_eq!(get_icon_color(&game, head, &under), ('<', Paint::Green));
    game.update();
    assert_eq!(get_icon_color(&game, head, &under), ('-', Paint::Green));
}

#[test]
fn head_is_a_star_once_the_run_is_over() {
    let mut game = Game::new();
    game.key(Key::Unicode('o'));
    let head = game.snake_at();
    assert_eq!(get_icon_color(&game, head, &game.cell(head)), ('*', Paint::Green));
    let wall = Position::new(0, 0);
    assert_eq!(get_icon_color(&game, wall, &game.cell(wall)), ('#', Paint::Blue));
}

#[test]
fn outcome_is_lost_below_thirty() {
    let mut game = Game::new();
    game.key(Key::Unicode('o'));
    assert_eq!(outcome(&game), Outcome::Lost);
}

#[test]
fn outcome_is_won_at_thirty() {
    let mut game = Game::new();
    for _ in 0..4 {
        game.key(Key::RawKey(KeyCode::ArrowDown));
        game.update();
    }
    for _ in 0..30 {
        game.key(Key::Unicode('i'));
        game.key(Key::RawKey(KeyCode::ArrowDown));
        game.update();
        game.key(Key::RawKey(KeyCode::ArrowUp));
        game.update();
    }
    assert_eq!(game.score(), 30);
    assert_eq!(outcome(&game), Outcome::Won);
}
