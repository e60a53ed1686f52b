use baremetal_snake::dir::Dir;
use baremetal_snake::position::Position;

const ALL: [Dir; 4] = [Dir::N, Dir::S, Dir::E, Dir::W];

#[test]
fn icons_point_against_travel() {
    assert_eq!(Dir::N.icon(), 'v');
    assert_eq!(Dir::S.icon(), '^');
    assert_eq!(Dir::E.icon(), '<');
    assert_eq!(Dir::W.icon(), '>');
}

#[test]
fn left_turns_counter_clockwise() {
    assert_eq!(Dir::N.left(), Dir::W);
    assert_eq!(Dir::W.left(), Dir::S);
    assert_eq!(Dir::S.left(), Dir::E);
    assert_eq!(Dir::E.left(), Dir::N);
}

#[test]
fn right_turns_clockwise() {
    assert_eq!(Dir::N.right(), Dir::E);
    assert_eq!(Dir::E.right(), Dir::S);
    assert_eq!(Dir::S.right(), Dir::W);
    assert_eq!(Dir::W.right(), Dir::N);
}

#[test]
fn left_and_right_undo_each_other() {
    for d in ALL {
        assert_eq!(d.left().right(), d);
        assert_eq!(d.right().left(), d);
        assert_eq!(d.left().left(), d.right().right());
        assert_eq!(d.left().left().left().left(), d);
    }
}

#[test]
fn from_icon_reads_every_icon_back() {
    for d in ALL {
        assert_eq!(Dir::from_icon(d.icon()), d);
    }
    assert_eq!(Dir::from_icon('<'), Dir::E);
    assert_eq!(Dir::from_icon('>'), Dir::W);
    assert_eq!(Dir::from_icon('^'), Dir::S);
    assert_eq!(Dir::from_icon('v'), Dir::N);
}

#[test]
fn neighbor_then_opposite_neighbor_returns() {
    for row in [0i16, 1, 11, 21, 22] {
        for col in [0i16, 1, 40, 78, 79] {
            let p: Position<80, 23> = Position::new(row, col);
            assert!(p.is_legal());
            for d in ALL {
                let q = p.neighbor(d);
                if q.is_legal() {
                    let opposite = d.left().left();
                    assert_eq!(q.neighbor(opposite), p);
                }
            }
        }
    }
}
