use baremetal_snake::food::{next_food, WIN_SCORE};

#[test]
fn winning_score_is_thirty() {
    assert_eq!(WIN_SCORE, 30);
}

#[test]
fn first_food_after_first_bite() {
    // (0 + 5 + 333) * 1 = 338; 338 % 80 = 18, 338 % 20 = 18
    assert_eq!(next_food(0, 1), (2, 62));
}

#[test]
fn second_food() {
    // (1 + 5 + 333) * 2 = 678; 678 % 80 = 38, 678 % 20 = 18
    assert_eq!(next_food(1, 2), (2, 42));
}

#[test]
fn column_eighty_is_moved_to_forty_seven() {
    // (14 + 5 + 333) * 15 = 5280 = 66 * 80, so the column comes out as 80
    assert_eq!(next_food(14, 15), (20, 47));
}

#[test]
fn row_twenty_when_product_is_a_multiple_of_twenty() {
    // (2 + 5 + 333) * 3 = 1020 = 51 * 20; 1020 % 80 = 60
    assert_eq!(next_food(2, 3), (20, 20));
}

#[test]
fn food_table_for_a_whole_run() {
    let expected: [(usize, usize); 30] = [
        (2, 62),
        (2, 42),
        (20, 20),
        (16, 76),
        (10, 50),
        (2, 22),
        (12, 72),
        (20, 40),
        (6, 6),
        (10, 50),
        (12, 12),
        (12, 52),
        (10, 10),
        (6, 46),
        (20, 47),
        (12, 32),
        (2, 62),
        (10, 10),
        (16, 36),
        (20, 60),
        (2, 2),
        (2, 22),
        (20, 40),
        (16, 56),
        (10, 70),
        (2, 2),
        (12, 12),
        (20, 20),
        (6, 26),
        (10, 30),
    ];
    for before in 0..30u32 {
        assert_eq!(next_food(before, before + 1), expected[before as usize]);
    }
}

#[test]
fn food_stays_inside_the_wall_ring_for_a_whole_run() {
    for before in 0..30u32 {
        let (row, col) = next_food(before, before + 1);
        assert!((1..=20).contains(&row));
        assert!((1..=78).contains(&col));
    }
}

#[test]
fn food_with_zero_score_after_lands_on_row_twenty() {
    // the product is 0: the column comes out as 80 and is moved
    assert_eq!(next_food(7, 0), (20, 47));
}
