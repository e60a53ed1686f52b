use baremetal_snake::dir::Dir;
use baremetal_snake::position::{Position, RowColIter};

#[test]
fn legal_exactly_inside_the_grid() {
    let legal = |row: i16, col: i16| Position::<80, 23>::new(row, col).is_legal();
    assert!(legal(0, 0));
    assert!(legal(22, 79));
    assert!(legal(0, 79));
    assert!(legal(22, 0));
    assert!(!legal(23, 0));
    assert!(!legal(0, 80));
    assert!(!legal(-1, 0));
    assert!(!legal(0, -1));
    assert!(!legal(i16::MAX, i16::MAX));
    assert!(!legal(i16::MIN, i16::MIN));
}

#[test]
fn legality_follows_the_board_size() {
    assert!(Position::<3, 2>::new(1, 2).is_legal());
    assert!(!Position::<3, 2>::new(2, 2).is_legal());
    assert!(!Position::<3, 2>::new(1, 3).is_legal());
    assert!(!Position::<0, 0>::new(0, 0).is_legal());
    assert!(Position::<40000, 40000>::new(i16::MAX, i16::MAX).is_legal());
}

#[test]
fn row_col_gives_row_first() {
    assert_eq!(Position::<80, 23>::new(10, 40).row_col(), (10, 40));
    assert_eq!(Position::<80, 23>::new(0, 79).row_col(), (0, 79));
    assert_eq!(Position::<80, 23>::new(22, 0).row_col(), (22, 0));
}

#[test]
fn row_col_wraps_negative_coordinates() {
    assert_eq!(Position::<80, 23>::new(-1, 5).row_col(), (usize::MAX, 5));
    assert_eq!(Position::<80, 23>::new(5, -2).row_col(), (5, usize::MAX - 1));
    assert_eq!(
        Position::<80, 23>::new(i16::MIN, 0).row_col(),
        (usize::MAX - 32767, 0)
    );
}

#[test]
fn neighbor_moves_one_square() {
    let p: Position<80, 23> = Position::new(10, 40);
    assert_eq!(p.neighbor(Dir::N), Position::new(9, 40));
    assert_eq!(p.neighbor(Dir::S), Position::new(11, 40));
    assert_eq!(p.neighbor(Dir::E), Position::new(10, 41));
    assert_eq!(p.neighbor(Dir::W), Position::new(10, 39));
}

#[test]
fn neighbor_is_not_clamped() {
    let corner: Position<80, 23> = Position::new(0, 0);
    assert_eq!(corner.neighbor(Dir::N), Position::new(-1, 0));
    assert_eq!(corner.neighbor(Dir::W), Position::new(0, -1));
    assert!(!corner.neighbor(Dir::N).is_legal());
    assert!(!corner.neighbor(Dir::W).is_legal());
    let far: Position<80, 23> = Position::new(22, 79);
    assert_eq!(far.neighbor(Dir::S), Position::new(23, 79));
    assert_eq!(far.neighbor(Dir::E), Position::new(22, 80));
    assert!(!far.neighbor(Dir::S).is_legal());
    assert!(!far.neighbor(Dir::E).is_legal());
}

#[test]
fn subtraction_gives_signed_delta() {
    let a: Position<80, 23> = Position::new(5, 7);
    let b: Position<80, 23> = Position::new(2, 9);
    assert_eq!(a - b, Position::new(3, -2));
    assert_eq!(b - a, Position::new(-3, 2));
    assert_eq!(a - a, Position::new(0, 0));
}

#[test]
fn positions_compare_by_coordinates() {
    assert_eq!(Position::<80, 23>::new(1, 2), Position::new(1, 2));
    assert_ne!(Position::<80, 23>::new(1, 2), Position::new(2, 1));
    assert_ne!(Position::<80, 23>::new(1, 2), Position::new(1, 3));
}

#[test]
fn walk_yields_every_position_in_row_major_order() {
    let mut walk: RowColIter<3, 2> = RowColIter::new();
    let mut seen = Vec::new();
    while let Some(p) = walk.next() {
        seen.push(p.row_col());
    }
    assert_eq!(seen, vec![(0, 0), (0, 1), (0, 2), (1, 0), (1, 1), (1, 2)]);
    assert_eq!(walk.next(), None);
    assert_eq!(walk.next(), None);
}

#[test]
fn walk_over_full_board_has_width_times_height_positions() {
    let mut walk: RowColIter<80, 23> = RowColIter::new();
    let mut count = 0usize;
    while let Some(p) = walk.next() {
        assert!(p.is_legal());
        assert_eq!(p.row_col(), (count / 80, count % 80));
        count += 1;
    }
    assert_eq!(count, 80 * 23);
}

#[test]
fn walk_over_board_without_rows_is_empty() {
    let mut walk: RowColIter<5, 0> = RowColIter::new();
    assert_eq!(walk.next(), None);
}
