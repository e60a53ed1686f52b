use baremetal_snake::game::{tick, SnakeGame};
use baremetal_snake::key::{Key, KeyCode};
use baremetal_snake::model::UPDATE_FREQUENCY;
use baremetal_snake::position::Position;

#[test]
fn countdown_restarts_from_three() {
    assert_eq!(UPDATE_FREQUENCY, 3);
}

#[test]
fn countdown_fires_on_every_fourth_tick_from_new() {
    let mut game: SnakeGame<80, 23> = SnakeGame::new();
    let mut fired = Vec::new();
    for _ in 0..12 {
        fired.push(game.countdown_complete());
    }
    assert_eq!(
        fired,
        vec![false, false, false, true, false, false, false, true, false, false, false, true]
    );
}

#[test]
fn countdown_fires_once_in_every_window_of_four() {
    let mut game: SnakeGame<80, 23> = SnakeGame::new();
    let mut fired = Vec::new();
    for _ in 0..40 {
        fired.push(game.countdown_complete());
    }
    for window in fired.windows(UPDATE_FREQUENCY + 1) {
        assert_eq!(window.iter().filter(|due| **due).count(), 1);
    }
}

#[test]
fn countdown_does_not_touch_the_game() {
    let mut game: SnakeGame<80, 23> = SnakeGame::new();
    game.key(Key::RawKey(KeyCode::ArrowRight));
    for _ in 0..8 {
        game.countdown_complete();
    }
    assert_eq!(game.snake_at(), Position::new(10, 40));
    assert_eq!(game.score(), 0);
}

#[test]
fn tick_steps_only_when_the_countdown_has_run_out() {
    let mut game: SnakeGame<80, 23> = SnakeGame::new();
    game.key(Key::RawKey(KeyCode::ArrowLeft));
    assert!(!tick(&mut game));
    assert!(!tick(&mut game));
    assert!(!tick(&mut game));
    assert_eq!(game.snake_at(), Position::new(10, 40));
    assert!(tick(&mut game));
    assert_eq!(game.snake_at(), Position::new(10, 39));
    assert!(!tick(&mut game));
    assert_eq!(game.snake_at(), Position::new(10, 39));
}

#[test]
fn restart_leaves_the_countdown_running() {
    let mut game: SnakeGame<80, 23> = SnakeGame::new();
    assert!(!tick(&mut game));
    assert!(!tick(&mut game));
    game.key(Key::Unicode('o'));
    game.key(Key::Unicode('s'));
    assert!(!tick(&mut game));
    assert!(tick(&mut game));
}
