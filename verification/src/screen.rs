//! The console as a mathematical value, and what each operation does to it.

use crate::buffer::{well_shaped, Rows, ScreenChar, BUFFER_HEIGHT, BUFFER_WIDTH};
use crate::color::ColorCode;
use vstd::prelude::*;

verus! {

/// The byte that ends a line.
pub const NEWLINE: u8 = 0x0a;

/// The glyph of an empty cell.
pub const SPACE: u8 = 0x20;

/// The glyph shown in place of a byte that the display cannot show.
pub const PLACEHOLDER: u8 = 0xfe;

/// Whether the display can show `byte` as it is.
pub open spec fn printable(byte: u8) -> bool {
    0x20 <= byte <= 0x7e
}

/// The glyph that is placed for `byte`.
pub open spec fn glyph_for(byte: u8) -> u8 {
    if printable(byte) {
        byte
    } else {
        PLACEHOLDER
    }
}

/// An empty cell in the given colours.
pub open spec fn blank(color: ColorCode) -> ScreenChar {
    ScreenChar { ascii_character: SPACE, color_code: color }
}

/// A row of empty cells in the given colours.
pub open spec fn blank_row(color: ColorCode) -> Seq<ScreenChar> {
    Seq::new(BUFFER_WIDTH as nat, |c: int| blank(color))
}

/// `count` newline bytes.
pub open spec fn newlines(count: nat) -> Seq<u8> {
    Seq::new(count, |i: int| NEWLINE)
}

/// What a writer is: the rows on the display, the column that the next
/// glyph goes to, and the colours it writes in.
pub struct Screen {
    pub rows: Rows,
    pub column: nat,
    pub color: ColorCode,
}

impl Screen {
    /// The rows have the grid's shape and the cursor is at most one past
    /// the last column.
    pub open spec fn wf(self) -> bool {
        &&& well_shaped(self.rows)
        &&& self.column <= BUFFER_WIDTH
    }

    /// Row `row` emptied, in the current colours.
    pub open spec fn clear_row(self, row: int) -> Screen {
        Screen {
            rows: self.rows.update(row, blank_row(self.color)),
            column: self.column,
            color: self.color,
        }
    }

    /// Every row moved up by one, the top row lost, the bottom row empty,
    /// the cursor at the left.
    pub open spec fn new_line(self) -> Screen {
        Screen {
            rows: self.rows.subrange(1, BUFFER_HEIGHT as int).push(blank_row(self.color)),
            column: 0,
            color: self.color,
        }
    }

    /// `glyph` put at the cursor in the bottom row, and the cursor moved
    /// on by one.
    pub open spec fn place(self, glyph: u8) -> Screen
        recommends
            self.column < BUFFER_WIDTH,
    {
        Screen {
            rows: self.rows.update(
                BUFFER_HEIGHT - 1,
                self.rows[BUFFER_HEIGHT - 1].update(
                    self.column as int,
                    ScreenChar { ascii_character: glyph, color_code: self.color },
                ),
            ),
            column: self.column + 1,
            color: self.color,
        }
    }

    /// The screen after one byte was written.
    pub open spec fn put(self, byte: u8) -> Screen {
        if byte == NEWLINE {
            self.new_line()
        } else if self.column >= BUFFER_WIDTH {
            self.new_line().place(glyph_for(byte))
        } else {
            self.place(glyph_for(byte))
        }
    }

    /// The screen after `bytes` were written, first to last.
    pub open spec fn put_all(self, bytes: Seq<u8>) -> Screen
        decreases bytes.len(),
    {
        if bytes.len() == 0 {
            self
        } else {
            self.put_all(bytes.drop_last()).put(bytes.last())
        }
    }
}

/// Printable bytes are placed as they are; every other byte but the newline
/// is placed as the placeholder glyph, which differs from the byte unless
/// the byte is the placeholder's own code. Either way the glyph lands in
/// the bottom row at the cursor, after a wrap if the row was full.
pub proof fn law_substitution(s: Screen, byte: u8)
    requires
        s.wf(),
        byte != NEWLINE,
    ensures
        printable(byte) ==> glyph_for(byte) == byte,
        !printable(byte) ==> glyph_for(byte) == PLACEHOLDER,
        !printable(byte) && byte != PLACEHOLDER ==> glyph_for(byte) != byte,
        s.column < BUFFER_WIDTH ==> s.put(byte).rows[BUFFER_HEIGHT - 1][s.column as int]
            == (ScreenChar { ascii_character: glyph_for(byte), color_code: s.color }),
        s.column == BUFFER_WIDTH ==> s.put(byte).rows[BUFFER_HEIGHT - 1][0] == (ScreenChar {
            ascii_character: glyph_for(byte),
            color_code: s.color,
        }),
        s.put(byte).column == (if s.column < BUFFER_WIDTH {
            s.column + 1
        } else {
            1
        }),
        s.put(byte).wf(),
{
    lemma_put_wf(s, byte);
}

/// Writing a byte keeps the screen well formed.
pub proof fn lemma_put_wf(s: Screen, byte: u8)
    requires
        s.wf(),
    ensures
        s.put(byte).wf(),
        s.put(byte).color == s.color,
{
    let n = s.new_line();
    assert(n.wf());
}

/// After a newline each row holds what the row below it held, the bottom
/// row is empty, and the cursor is at the left: the former top row is gone
/// and nothing else has changed.
pub proof fn law_scroll(s: Screen)
    requires
        s.wf(),
    ensures
        s.put(NEWLINE) == s.new_line(),
        s.new_line().wf(),
        forall|r: int| 0 <= r < BUFFER_HEIGHT - 1 ==> #[trigger] s.new_line().rows[r] == s.rows[r + 1],
        s.new_line().rows[BUFFER_HEIGHT - 1] == blank_row(s.color),
        s.new_line().column == 0,
        s.new_line().color == s.color,
{
}

/// The bottom row after the first `count` of `bytes` were written from the
/// left edge.
pub open spec fn filled_row(s: Screen, bytes: Seq<u8>, count: int) -> Seq<ScreenChar> {
    Seq::new(
        BUFFER_WIDTH as nat,
        |c: int|
            if c < count {
                ScreenChar { ascii_character: glyph_for(bytes[c]), color_code: s.color }
            } else {
                s.rows[BUFFER_HEIGHT - 1][c]
            },
    )
}

/// Writing bytes without a newline from the left edge, at most a row of
/// them, puts their glyphs in the bottom row in order and moves nothing
/// else.
pub proof fn lemma_fill(s: Screen, bytes: Seq<u8>, count: int)
    requires
        s.wf(),
        s.column == 0,
        0 <= count <= bytes.len(),
        count <= BUFFER_WIDTH,
        forall|i: int| 0 <= i < bytes.len() ==> #[trigger] bytes[i] != NEWLINE,
    ensures
        s.put_all(bytes.take(count)) == (Screen {
            rows: s.rows.update(BUFFER_HEIGHT - 1, filled_row(s, bytes, count)),
            column: count as nat,
            color: s.color,
        }),
    decreases count,
{
    let prefix = bytes.take(count);
    if count == 0 {
        assert(s.rows.update(BUFFER_HEIGHT - 1, filled_row(s, bytes, 0)) =~~= s.rows);
    } else {
        lemma_fill(s, bytes, count - 1);
        assert(prefix.drop_last() =~= bytes.take(count - 1));
        assert(prefix.last() == bytes[count - 1]);
        let before = s.put_all(bytes.take(count - 1));
        assert(before.put(bytes[count - 1]).rows =~~= s.rows.update(
            BUFFER_HEIGHT - 1,
            filled_row(s, bytes, count),
        ));
    }
}

/// A row's worth of printable bytes written from the left edge fills the
/// bottom row in order, changes no other row and leaves the cursor one past
/// the last column. The next printable byte then scrolls once and lands at
/// the left of the new bottom row.
pub proof fn law_full_row(s: Screen, bytes: Seq<u8>, next: u8)
    requires
        s.wf(),
        s.column == 0,
        bytes.len() == BUFFER_WIDTH,
        forall|i: int| 0 <= i < bytes.len() ==> printable(#[trigger] bytes[i]),
        printable(next),
    ensures
        s.put_all(bytes).column == BUFFER_WIDTH,
        s.put_all(bytes).color == s.color,
        s.put_all(bytes).rows.len() == BUFFER_HEIGHT,
        s.put_all(bytes).rows[BUFFER_HEIGHT - 1].len() == BUFFER_WIDTH,
        forall|c: int|
            0 <= c < BUFFER_WIDTH ==> #[trigger] s.put_all(bytes).rows[BUFFER_HEIGHT - 1][c] == (
            ScreenChar { ascii_character: bytes[c], color_code: s.color }),
        forall|r: int|
            0 <= r < BUFFER_HEIGHT - 1 ==> #[trigger] s.put_all(bytes).rows[r] == s.rows[r],
        s.put_all(bytes).put(next) == s.put_all(bytes).new_line().place(next),
        s.put_all(bytes).put(next).column == 1,
        s.put_all(bytes).put(next).rows[BUFFER_HEIGHT - 1] == blank_row(s.color).update(
            0,
            ScreenChar { ascii_character: next, color_code: s.color },
        ),
        forall|r: int|
            0 <= r < BUFFER_HEIGHT - 1 ==> #[trigger] s.put_all(bytes).put(next).rows[r]
                == s.put_all(bytes).rows[r + 1],
{
    lemma_fill(s, bytes, BUFFER_WIDTH as int);
    assert(bytes.take(BUFFER_WIDTH as int) =~= bytes);
}

/// What `count` newlines in a row do: the rows move up by `count`, and the
/// `count` rows at the bottom are empty.
pub proof fn lemma_newlines(s: Screen, count: nat)
    requires
        s.wf(),
        count <= BUFFER_HEIGHT,
    ensures
        s.put_all(newlines(count)).wf(),
        s.put_all(newlines(count)).color == s.color,
        count > 0 ==> s.put_all(newlines(count)).column == 0,
        forall|r: int|
            0 <= r < BUFFER_HEIGHT - count ==> #[trigger] s.put_all(newlines(count)).rows[r]
                == s.rows[r + count],
        forall|r: int|
            BUFFER_HEIGHT - count <= r < BUFFER_HEIGHT ==> #[trigger] s.put_all(
                newlines(count),
            ).rows[r] == blank_row(s.color),
    decreases count,
{
    if count > 0 {
        let less = (count - 1) as nat;
        lemma_newlines(s, less);
        assert(newlines(count).drop_last() =~= newlines(less));
        assert(newlines(count).last() == NEWLINE);
        let before = s.put_all(newlines(less));
        let after = before.new_line();
        assert(s.put_all(newlines(count)) == after);
        assert forall|r: int| 0 <= r < BUFFER_HEIGHT - count implies #[trigger] after.rows[r]
            == s.rows[r + count] by {
            assert(after.rows[r] == before.rows[r + 1]);
        }
        assert forall|r: int| BUFFER_HEIGHT - count <= r < BUFFER_HEIGHT implies #[trigger] after.rows[r]
            == blank_row(s.color) by {
            if r < BUFFER_HEIGHT - 1 {
                assert(after.rows[r] == before.rows[r + 1]);
            }
        }
    }
}

/// After as many newlines as the grid has rows, with nothing written in
/// between, every row is empty; and one newline more leaves it so.
pub proof fn law_newlines_blank(s: Screen)
    requires
        s.wf(),
    ensures
        forall|r: int|
            0 <= r < BUFFER_HEIGHT ==> #[trigger] s.put_all(newlines(BUFFER_HEIGHT as nat)).rows[r]
                == blank_row(s.color),
        s.put_all(newlines(BUFFER_HEIGHT as nat)).column == 0,
        s.put_all(newlines(BUFFER_HEIGHT as nat)).put(NEWLINE) == s.put_all(
            newlines(BUFFER_HEIGHT as nat),
        ),
{
    lemma_newlines(s, BUFFER_HEIGHT as nat);
    let all = s.put_all(newlines(BUFFER_HEIGHT as nat));
    assert(all.new_line().rows =~= all.rows);
}

/// Writing `first` and then `second` is writing the two joined.
pub proof fn lemma_put_all_concat(s: Screen, first: Seq<u8>, second: Seq<u8>)
    ensures
        s.put_all(first + second) == s.put_all(first).put_all(second),
    decreases second.len(),
{
    if second.len() == 0 {
        assert(first + second =~= first);
    } else {
        lemma_put_all_concat(s, first, second.drop_last());
        assert((first + second).drop_last() =~= first + second.drop_last());
        assert((first + second).last() == second.last());
    }
}

/// On a full bottom row, bytes without a newline are written as they are
/// after a newline.
pub proof fn lemma_wrap_first(s: Screen, bytes: Seq<u8>)
    requires
        s.wf(),
        s.column == BUFFER_WIDTH,
        bytes.len() > 0,
        forall|i: int| 0 <= i < bytes.len() ==> #[trigger] bytes[i] != NEWLINE,
    ensures
        s.put_all(bytes) == s.new_line().put_all(bytes),
    decreases bytes.len(),
{
    let rest = bytes.drop_last();
    if rest.len() == 0 {
        assert(s.put_all(rest) == s);
        assert(s.new_line().put_all(rest) == s.new_line());
        assert(bytes.last() != NEWLINE);
    } else {
        lemma_wrap_first(s, rest);
    }
}

/// The number of cells in `rows` rows of the grid.
pub open spec fn cells_in(rows: nat) -> nat {
    rows * (BUFFER_WIDTH as nat)
}

/// `count` placeholder bytes.
pub open spec fn pattern(count: nat) -> Seq<u8> {
    Seq::new(count, |i: int| PLACEHOLDER)
}

/// A row of placeholder glyphs in the given colours.
pub open spec fn pattern_row(color: ColorCode) -> Seq<ScreenChar> {
    Seq::new(
        BUFFER_WIDTH as nat,
        |c: int| ScreenChar { ascii_character: PLACEHOLDER, color_code: color },
    )
}

/// `count` rows' worth of placeholder bytes, written from the left edge,
/// leave the `count` rows at the bottom full of the placeholder glyph and
/// the cursor one past the last column.
pub proof fn lemma_pattern_rows(s: Screen, count: nat)
    requires
        s.wf(),
        s.column == 0,
        1 <= count <= BUFFER_HEIGHT,
    ensures
        s.put_all(pattern(cells_in(count))).wf(),
        s.put_all(pattern(cells_in(count))).color == s.color,
        s.put_all(pattern(cells_in(count))).column == BUFFER_WIDTH,
        forall|r: int|
            BUFFER_HEIGHT - count <= r < BUFFER_HEIGHT ==> #[trigger] s.put_all(
                pattern(cells_in(count)),
            ).rows[r] == pattern_row(s.color),
    decreases count,
{
    let row = pattern(BUFFER_WIDTH as nat);
    assert(row.take(BUFFER_WIDTH as int) =~= row);
    if count == 1 {
        lemma_fill(s, row, BUFFER_WIDTH as int);
        assert(filled_row(s, row, BUFFER_WIDTH as int) =~= pattern_row(s.color));
    } else {
        let less = (count - 1) as nat;
        lemma_pattern_rows(s, less);
        let before = s.put_all(pattern(cells_in(less)));
        assert(pattern(cells_in(count)) =~= pattern(cells_in(less)) + row);
        lemma_put_all_concat(s, pattern(cells_in(less)), row);
        lemma_wrap_first(before, row);
        let moved = before.new_line();
        lemma_fill(moved, row, BUFFER_WIDTH as int);
        assert(filled_row(moved, row, BUFFER_WIDTH as int) =~= pattern_row(s.color));
        let after = s.put_all(pattern(cells_in(count)));
        assert forall|r: int| BUFFER_HEIGHT - count <= r < BUFFER_HEIGHT implies #[trigger] after.rows[r]
            == pattern_row(s.color) by {
            if r < BUFFER_HEIGHT - 1 {
                assert(after.rows[r] == moved.rows[r]);
                assert(moved.rows[r] == before.rows[r + 1]);
            }
        }
    }
}

/// One placeholder byte for each cell of the grid, written from the left
/// edge, leaves every cell showing the placeholder glyph in the current
/// colours, and the cursor one past the last column.
pub proof fn law_pattern(s: Screen)
    requires
        s.wf(),
        s.column == 0,
    ensures
        forall|r: int|
            0 <= r < BUFFER_HEIGHT ==> #[trigger] s.put_all(
                pattern(cells_in(BUFFER_HEIGHT as nat)),
            ).rows[r] == pattern_row(s.color),
        s.put_all(pattern(cells_in(BUFFER_HEIGHT as nat))).column == BUFFER_WIDTH,
        s.put_all(pattern(cells_in(BUFFER_HEIGHT as nat))).color == s.color,
        s.put_all(pattern(cells_in(BUFFER_HEIGHT as nat))).wf(),
{
    lemma_pattern_rows(s, BUFFER_HEIGHT as nat);
}

/// Bytes without a newline, no more than fit in the rest of the bottom row,
/// move the cursor on by their number; the colours stay.
pub proof fn lemma_advance(s: Screen, bytes: Seq<u8>)
    requires
        s.wf(),
        s.column + bytes.len() <= BUFFER_WIDTH,
        forall|i: int| 0 <= i < bytes.len() ==> #[trigger] bytes[i] != NEWLINE,
    ensures
        s.put_all(bytes).wf(),
        s.put_all(bytes).column == s.column + bytes.len(),
        s.put_all(bytes).color == s.color,
    decreases bytes.len(),
{
    if bytes.len() > 0 {
        lemma_advance(s, bytes.drop_last());
        lemma_put_wf(s.put_all(bytes.drop_last()), bytes.last());
    }
}

/// The screen after one placeholder byte was written for each cell of the
/// grid.
pub open spec fn after_pattern(s: Screen) -> Screen {
    s.put_all(pattern(cells_in(BUFFER_HEIGHT as nat)))
}

/// Where the cursor stands after the pattern was written from `column`: one
/// past the last column if it started at the left edge, else where it
/// started.
pub open spec fn pattern_end(column: nat) -> nat {
    if column == 0 {
        BUFFER_WIDTH as nat
    } else {
        column
    }
}

/// A row with the placeholder glyph in the columns before `end` and empty
/// cells from there on.
pub open spec fn pattern_bottom(color: ColorCode, end: nat) -> Seq<ScreenChar> {
    Seq::new(
        BUFFER_WIDTH as nat,
        |c: int|
            if c < end {
                ScreenChar { ascii_character: PLACEHOLDER, color_code: color }
            } else {
                blank(color)
            },
    )
}

/// One placeholder byte for each cell of the grid, written from any column
/// onto any screen, leaves nothing of the old screen: every row but the
/// bottom one is full of the placeholder glyph, the bottom row holds it up
/// to the cursor and is empty from there on, and the cursor stands where
/// it started, or one past the last column if it started at the left edge.
pub proof fn law_pattern_from_any_column(s: Screen)
    requires
        s.wf(),
    ensures
        after_pattern(s).wf(),
        after_pattern(s).color == s.color,
        after_pattern(s).column == pattern_end(s.column),
        forall|r: int|
            0 <= r < BUFFER_HEIGHT - 1 ==> #[trigger] after_pattern(s).rows[r] == pattern_row(
                s.color,
            ),
        after_pattern(s).rows[BUFFER_HEIGHT - 1] == pattern_bottom(
            s.color,
            pattern_end(s.column),
        ),
{
    if s.column == 0 {
        lemma_pattern_rows(s, BUFFER_HEIGHT as nat);
        assert(pattern_row(s.color) =~= pattern_bottom(s.color, BUFFER_WIDTH as nat));
    } else {
        let start = s.column;
        let head = pattern((BUFFER_WIDTH - start) as nat);
        let body = pattern(cells_in((BUFFER_HEIGHT - 1) as nat));
        let tail = pattern(start);
        assert(pattern(cells_in(BUFFER_HEIGHT as nat)) =~= (head + body) + tail);
        lemma_put_all_concat(s, head + body, tail);
        lemma_put_all_concat(s, head, body);
        lemma_advance(s, head);
        let filled = s.put_all(head);
        lemma_wrap_first(filled, body);
        lemma_pattern_rows(filled.new_line(), (BUFFER_HEIGHT - 1) as nat);
        let full = filled.put_all(body);
        lemma_wrap_first(full, tail);
        let moved = full.new_line();
        assert(tail.take(start as int) =~= tail);
        lemma_fill(moved, tail, start as int);
        assert(filled_row(moved, tail, start as int) =~= pattern_bottom(s.color, start));
        let after = after_pattern(s);
        assert(after == moved.put_all(tail));
        assert forall|r: int| 0 <= r < BUFFER_HEIGHT - 1 implies #[trigger] after.rows[r]
            == pattern_row(s.color) by {
            assert(after.rows[r] == moved.rows[r]);
            assert(moved.rows[r] == full.rows[r + 1]);
        }
    }
}

} // verus!
