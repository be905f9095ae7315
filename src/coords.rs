//! Translation between (row, column) positions and linear character offsets.
//!
//! Offsets count characters. Rows count line ends, which are `"\n"`, `"\r\n"`
//! and a lone `"\r"`. Columns count UTF-16 code units from the start of the
//! line, as editor positions do.
use vstd::prelude::*;

verus! {

/// The number of UTF-16 code units that encode `c`.
pub open spec fn utf16_len(c: char) -> int {
    if (c as u32) >= 0x10000 {
        2
    } else {
        1
    }
}

/// The character at `i` ends a line: a line feed, or a carriage return that
/// no line feed follows.
pub open spec fn ends_line(t: Seq<char>, i: int) -> bool {
    t[i] == '\n' || (t[i] == '\r' && !(i + 1 < t.len() && t[i + 1] == '\n'))
}

/// Number of line ends among the first `o` characters of `t`.
pub open spec fn newlines_before(t: Seq<char>, o: int) -> nat
    decreases o,
{
    if o <= 0 {
        0
    } else if ends_line(t, o - 1) {
        newlines_before(t, o - 1) + 1
    } else {
        newlines_before(t, o - 1)
    }
}

/// Offset at which the line holding offset `o` starts.
pub open spec fn line_start(t: Seq<char>, o: int) -> int
    decreases o,
{
    if o <= 0 {
        0
    } else if ends_line(t, o - 1) {
        o
    } else {
        line_start(t, o - 1)
    }
}

/// The UTF-16 code units of the characters from offset `a` up to offset `b`.
pub open spec fn units(t: Seq<char>, a: int, b: int) -> int
    decreases b - a,
{
    if b <= a {
        0
    } else {
        units(t, a, b - 1) + utf16_len(t[b - 1])
    }
}

/// The zero-based (row, column) of offset `o` in `t`.
pub open spec fn row_col(t: Seq<char>, o: int) -> (int, int) {
    (newlines_before(t, o) as int, units(t, line_start(t, o), o))
}

/// Offsets run from the start of the text up to and including its end.
pub open spec fn offset_in_range(t: Seq<char>, o: int) -> bool {
    0 <= o <= t.len()
}

/// Offset `o` lies in `t` and its column fits a machine word.
pub open spec fn offset_has_position(t: Seq<char>, o: int) -> bool {
    offset_in_range(t, o) && row_col(t, o).1 <= usize::MAX
}

/// Some offset of `t` sits at (`row`, `col`).
pub open spec fn position_in_range(t: Seq<char>, row: int, col: int) -> bool {
    exists|o: int| offset_in_range(t, o) && #[trigger] row_col(t, o) == (row, col)
}

proof fn lemma_line_start_bounds(t: Seq<char>, o: int)
    requires
        0 <= o <= t.len(),
    ensures
        0 <= line_start(t, o) <= o,
        newlines_before(t, o) <= o,
    decreases o,
{
    if o > 0 {
        lemma_line_start_bounds(t, o - 1);
    }
}

/// Between `a` and `b` either a line ends, so the row grows, or none does,
/// so both lie on one line.
proof fn lemma_rows_grow(t: Seq<char>, a: int, b: int)
    requires
        0 <= a <= b <= t.len(),
    ensures
        newlines_before(t, a) <= newlines_before(t, b),
        newlines_before(t, a) == newlines_before(t, b) ==> line_start(t, a) == line_start(t, b),
    decreases b - a,
{
    if a < b {
        lemma_rows_grow(t, a, b - 1);
    }
}

/// Code units add up over adjacent stretches, and each character has one at least.
proof fn lemma_units_split(t: Seq<char>, s: int, a: int, b: int)
    requires
        s <= a <= b,
    ensures
        units(t, s, b) == units(t, s, a) + units(t, a, b),
        units(t, a, b) >= b - a,
    decreases b - a,
{
    if a < b {
        lemma_units_split(t, s, a, b - 1);
    }
}

/// Distinct offsets have distinct positions.
pub proof fn lemma_row_col_injective(t: Seq<char>, a: int, b: int)
    requires
        offset_in_range(t, a),
        offset_in_range(t, b),
        row_col(t, a) == row_col(t, b),
    ensures
        a == b,
{
    if a < b {
        lemma_rows_grow(t, a, b);
        lemma_line_start_bounds(t, a);
        lemma_units_split(t, line_start(t, a), a, b);
    } else if b < a {
        lemma_rows_grow(t, b, a);
        lemma_line_start_bounds(t, b);
        lemma_units_split(t, line_start(t, b), b, a);
    }
}

/// Offsets and positions that lie in the text correspond one to one: the
/// position of an in-range offset is in range, and no other offset sits there.
pub proof fn lemma_round_trip(t: Seq<char>, o: int)
    requires
        offset_in_range(t, o),
    ensures
        position_in_range(t, row_col(t, o).0, row_col(t, o).1),
        forall|p: int|
            offset_in_range(t, p) && #[trigger] row_col(t, p) == row_col(t, o) ==> p == o,
{
    assert(row_col(t, o) == (row_col(t, o).0, row_col(t, o).1));
    assert forall|p: int| offset_in_range(t, p) && #[trigger] row_col(t, p) == row_col(t, o) implies p
        == o by {
        lemma_row_col_injective(t, p, o);
    }
}

fn utf16_units(c: char) -> (r: usize)
    ensures
        r == utf16_len(c),
{
    if (c as u32) >= 0x10000 {
        2
    } else {
        1
    }
}

fn ends_line_at(text: &Vec<char>, i: usize) -> (r: bool)
    requires
        i < text.len(),
    ensures
        r == ends_line(text@, i as int),
{
    text[i] == '\n' || (text[i] == '\r' && !(i + 1 < text.len() && text[i + 1] == '\n'))
}

/// The (row, column) of `offset` in `text`; `None` past the end of the text,
/// or where the column does not fit a machine word.
pub fn offset_to_row_col(text: &Vec<char>, offset: usize) -> (r: Option<(usize, usize)>)
    ensures
        match r {
            Some((row, col)) => offset_in_range(text@, offset as int) && row_col(text@, offset as int)
                == (row as int, col as int),
            None => !offset_has_position(text@, offset as int),
        },
{
    if offset > text.len() {
        return None;
    }
    let mut i: usize = 0;
    let mut row: usize = 0;
    let ghost mut start: int = 0;
    let mut col: usize = 0;
    let mut wide = false;
    while i < offset
        invariant
            i <= offset <= text.len(),
            row as int == newlines_before(text@, i as int),
            start == line_start(text@, i as int),
            wide ==> units(text@, start, i as int) > usize::MAX,
            !wide ==> col as int == units(text@, start, i as int),
        decreases offset - i,
    {
        proof {
            lemma_line_start_bounds(text@, i as int);
        }
        if ends_line_at(text, i) {
            row = row + 1;
            proof {
                start = i + 1;
            }
            col = 0;
            wide = false;
        } else if !wide {
            match col.checked_add(utf16_units(text[i])) {
                Some(c) => {
                    col = c;
                },
                None => {
                    wide = true;
                },
            }
        }
        i = i + 1;
    }
    if wide {
        return None;
    }
    Some((row, col))
}

/// The offset of (`row`, `col`) in `text`, or `None` where no offset sits there.
pub fn row_col_to_offset(text: &Vec<char>, row: usize, col: usize) -> (r: Option<usize>)
    ensures
        match r {
            Some(o) => offset_in_range(text@, o as int) && row_col(text@, o as int) == (
                row as int,
                col as int,
            ),
            None => !position_in_range(text@, row as int, col as int),
        },
{
    let mut i: usize = 0;
    let mut cur_row: usize = 0;
    let ghost mut start: int = 0;
    let mut cur_col: usize = 0;
    let mut wide = false;
    loop
        invariant
            i <= text.len(),
            cur_row as int == newlines_before(text@, i as int),
            start == line_start(text@, i as int),
            wide ==> units(text@, start, i as int) > usize::MAX,
            !wide ==> cur_col as int == units(text@, start, i as int),
            forall|o: int| 0 <= o < i ==> #[trigger] row_col(text@, o) != (row as int, col as int),
        decreases text.len() - i,
    {
        proof {
            lemma_line_start_bounds(text@, i as int);
        }
        if cur_row == row && !wide && cur_col == col {
            return Some(i);
        }
        if i == text.len() {
            assert forall|o: int| offset_in_range(text@, o) implies #[trigger] row_col(text@, o)
                != (row as int, col as int) by {}
            return None;
        }
        if ends_line_at(text, i) {
            cur_row = cur_row + 1;
            proof {
                start = i + 1;
            }
            cur_col = 0;
            wide = false;
        } else if !wide {
            match cur_col.checked_add(utf16_units(text[i])) {
                Some(c) => {
                    cur_col = c;
                },
                None => {
                    wide = true;
                },
            }
        }
        i = i + 1;
    }
}

} // verus!
