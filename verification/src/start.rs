//! The map that every run starts from.

use vstd::prelude::*;
use vstd::string::is_ascii;
use vstd::string::is_ascii_spec_bytes;
use vstd::string::StringSliceAdditionalSpecFns;

verus! {

/// The number of rows of the start map.
pub const START_ROWS: usize = 23;

/// The number of columns of the start map.
pub const START_COLS: usize = 80;

/// The number of blanks that the start text has in front of every row but
/// the first.
pub const START_INDENT: usize = 5;

/// The distance in the start text from the start of one row to the start of
/// the next: the row, the line break and the indentation.
pub const START_STRIDE: usize = 86;

/// The start map as text, one row per line. `#` is a wall, `*` food, a blank
/// an empty square, and the one head glyph marks where the snake starts and
/// which way it faces. Blanks before the first and after the last glyph of a
/// line are layout, not squares.
pub const START: &'static str =
    "################################################################################
     #                                                                              #
     #                                                                              #
     #                                                                              #
     #                                                                              #
     #                                                                              #
     #                                                                              #
     #                                                                              #
     #                                                                              #
     #                                                                              #
     #                                       <                                      #
     #                                                                              #
     #                                                                              #
     #                                                                              #
     #                                                                              #
     #                                                                              #
     #                  *                                                           #
     #                                                                              #
     #                                                                              #
     #                                                                              #
     #                                                                              #
     #                                                                              #
     ################################################################################";

/// The glyph in row `row`, column `col` of the start map: a ring of walls,
/// one head, one food, blanks everywhere else.
pub open spec fn start_glyph(row: int, col: int) -> char {
    if row == 0 || row == START_ROWS - 1 || col == 0 || col == START_COLS - 1 {
        '#'
    } else if row == 10 && col == 40 {
        '<'
    } else if row == 16 && col == 19 {
        '*'
    } else {
        ' '
    }
}

/// The character at index `i` of the start text.
pub open spec fn start_char(i: int) -> char {
    let row = i / (START_STRIDE as int);
    let col = i % (START_STRIDE as int);
    if col < START_COLS {
        start_glyph(row, col)
    } else if col == START_COLS {
        '\n'
    } else {
        ' '
    }
}

/// The start text holds the start map row by row, each row but the first
/// behind a line break and the indentation.
pub proof fn lemma_start_text()
    ensures
        START_STRIDE == START_COLS + 1 + START_INDENT,
        START@.len() == (START_ROWS - 1) * START_STRIDE + START_COLS,
        forall|i: int| 0 <= i < START@.len() ==> #[trigger] START@[i] == start_char(i),
{
    reveal_strlit(
        "################################################################################
     #                                                                              #
     #                                                                              #
     #                                                                              #
     #                                                                              #
     #                                                                              #
     #                                                                              #
     #                                                                              #
     #                                                                              #
     #                                                                              #
     #                                       <                                      #
     #                                                                              #
     #                                                                              #
     #                                                                              #
     #                                                                              #
     #                                                                              #
     #                  *                                                           #
     #                                                                              #
     #                                                                              #
     #                                                                              #
     #                                                                              #
     #                                                                              #
     ################################################################################",
    );
}

/// The start text as bytes. Every character of it is ASCII, so each byte is
/// one character.
pub fn start_text() -> (text: &'static [u8])
    ensures
        text@.len() == (START_ROWS - 1) * START_STRIDE + START_COLS,
        forall|i: int| 0 <= i < text@.len() ==> #[trigger] text@[i] == start_char(i) as u8,
{
    proof {
        lemma_start_text();
        assert(is_ascii(START)) by {
            assert forall|i: int| 0 <= i < START@.len() implies '\0' <= #[trigger] START@[i]
                <= '\u{7f}' by {
                assert(START@[i] == start_char(i));
            }
        }
        is_ascii_spec_bytes(START);
    }
    START.as_bytes()
}

} // verus!
