//! Scanning a map text: finding where a line ends, and where the layout
//! blanks around its glyphs end.

use vstd::prelude::*;

verus! {

/// The byte that ends a line.
pub const LINE_BREAK: u8 = 10;

/// Whether a byte is white space: a blank, or one of tab, line feed,
/// vertical tab, form feed and carriage return.
pub open spec fn blank(b: u8) -> bool {
    b == 32 || 9 <= b <= 13
}

/// Whether no byte of `text` from `from` up to `to` ends a line.
pub open spec fn unbroken(text: Seq<u8>, from: int, to: int) -> bool {
    forall|k: int| from <= k < to ==> #[trigger] text[k] != LINE_BREAK
}

/// Whether every byte of `text` from `from` up to `to` is white space.
pub open spec fn all_blank(text: Seq<u8>, from: int, to: int) -> bool {
    forall|k: int| from <= k < to ==> blank(#[trigger] text[k])
}

pub fn is_blank(b: u8) -> (r: bool)
    ensures
        r == blank(b),
{
    b == 32 || (9 <= b && b <= 13)
}

/// The end of the line that starts at `from`: the index of the first line
/// break at or after `from`, or the length of the text where none follows.
pub fn line_end(text: &[u8], from: usize) -> (end: usize)
    requires
        from <= text@.len(),
    ensures
        from <= end <= text@.len(),
        unbroken(text@, from as int, end as int),
        end < text@.len() ==> text@[end as int] == LINE_BREAK,
{
    let mut end: usize = from;
    while end < text.len() && text[end] != LINE_BREAK
        invariant
            from <= end <= text@.len(),
            unbroken(text@, from as int, end as int),
        decreases text@.len() - end,
    {
        end += 1;
    }
    end
}

/// The first index from `from` up to `to` whose byte is not white space, or
/// `to` where there is none.
pub fn trim_front(text: &[u8], from: usize, to: usize) -> (first: usize)
    requires
        from <= to <= text@.len(),
    ensures
        from <= first <= to,
        all_blank(text@, from as int, first as int),
        first < to ==> !blank(text@[first as int]),
{
    let mut first: usize = from;
    while first < to && is_blank(text[first])
        invariant
            from <= first <= to <= text@.len(),
            all_blank(text@, from as int, first as int),
        decreases to - first,
    {
        first += 1;
    }
    first
}

/// One past the last index from `from` up to `to` whose byte is not white
/// space, or `from` where there is none.
pub fn trim_back(text: &[u8], from: usize, to: usize) -> (last: usize)
    requires
        from <= to <= text@.len(),
    ensures
        from <= last <= to,
        all_blank(text@, last as int, to as int),
        from < last ==> !blank(text@[last - 1]),
{
    let mut last: usize = to;
    while from < last && is_blank(text[last - 1])
        invariant
            from <= last <= to <= text@.len(),
            all_blank(text@, last as int, to as int),
        decreases last - from,
    {
        last -= 1;
    }
    last
}

} // verus!
