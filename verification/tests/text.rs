use baremetal_snake::start::{start_text, START_COLS, START_INDENT, START_ROWS, START_STRIDE};
use baremetal_snake::text::{is_blank, line_end, trim_back, trim_front, LINE_BREAK};

#[test]
fn blanks_are_space_and_the_five_control_bytes() {
    for b in 0..=255u8 {
        assert_eq!(is_blank(b), b == b' ' || (9..=13).contains(&b), "byte {b}");
    }
}

#[test]
fn line_end_finds_the_first_break() {
    let text = b"ab\ncd\n\nef";
    assert_eq!(line_end(text, 0), 2);
    assert_eq!(line_end(text, 1), 2);
    assert_eq!(line_end(text, 2), 2);
    assert_eq!(line_end(text, 3), 5);
    assert_eq!(line_end(text, 6), 6);
    assert_eq!(line_end(text, 7), 9);
    assert_eq!(line_end(text, 9), 9);
}

#[test]
fn line_end_of_empty_text_is_zero() {
    assert_eq!(line_end(b"", 0), 0);
}

#[test]
fn trim_front_skips_leading_blanks() {
    let text = b"  \t# #  ";
    assert_eq!(trim_front(text, 0, text.len()), 3);
    assert_eq!(trim_front(text, 3, text.len()), 3);
    assert_eq!(trim_front(text, 4, text.len()), 5);
    assert_eq!(trim_front(text, 6, text.len()), 8);
    assert_eq!(trim_front(text, 0, 2), 2);
}

#[test]
fn trim_back_skips_trailing_blanks() {
    let text = b"  \t# #  ";
    assert_eq!(trim_back(text, 0, text.len()), 6);
    assert_eq!(trim_back(text, 0, 6), 6);
    assert_eq!(trim_back(text, 0, 5), 4);
    assert_eq!(trim_back(text, 0, 3), 0);
    assert_eq!(trim_back(text, 6, text.len()), 6);
}

#[test]
fn start_text_has_one_row_per_line() {
    let text = start_text();
    assert_eq!(START_STRIDE, START_COLS + 1 + START_INDENT);
    assert_eq!(text.len(), (START_ROWS - 1) * START_STRIDE + START_COLS);
    let mut from = 0;
    let mut rows = 0;
    while from < text.len() {
        let end = line_end(text, from);
        let first = trim_front(text, from, end);
        let last = trim_back(text, first, end);
        assert_eq!(first, rows * START_STRIDE);
        assert_eq!(last - first, START_COLS);
        assert_eq!(text[first], b'#');
        assert_eq!(text[last - 1], b'#');
        if end < text.len() {
            assert_eq!(text[end], LINE_BREAK);
        }
        from = if end < text.len() { end + 1 } else { end };
        rows += 1;
    }
    assert_eq!(rows, START_ROWS);
}

#[test]
fn start_text_marks_one_head_and_one_food() {
    let text = start_text();
    assert_eq!(text.iter().filter(|b| **b == b'<').count(), 1);
    assert_eq!(text.iter().filter(|b| **b == b'*').count(), 1);
    assert_eq!(text[10 * START_STRIDE + 40], b'<');
    assert_eq!(text[16 * START_STRIDE + 19], b'*');
}
