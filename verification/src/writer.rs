//! The writer: bytes in, cells out, always into the bottom row.

use crate::buffer::{Buffer, ScreenChar, BUFFER_HEIGHT, BUFFER_WIDTH};
use crate::color::{Color, ColorCode};
use crate::screen::{
    blank_row, cells_in, glyph_for, law_pattern_from_any_column, pattern, pattern_bottom,
    pattern_end, pattern_row, Screen, NEWLINE, PLACEHOLDER, SPACE,
};
use vstd::prelude::*;
use vstd::string::StringSliceAdditionalSpecFns;

verus! {

/// The glyph that is placed for `byte`: the byte itself if the display can
/// show it, the placeholder if not.
pub fn glyph(byte: u8) -> (shown: u8)
    ensures
        shown == glyph_for(byte),
{
    if 0x20 <= byte && byte <= 0x7e {
        byte
    } else {
        PLACEHOLDER
    }
}

/// Writes to the bottom row of a grid and moves the rows up when that row
/// is full or a newline comes.
pub struct Writer {
    column_position: usize,
    color_code: ColorCode,
    buffer: Buffer,
}

impl Writer {
    #[verifier::type_invariant]
    spec fn cursor_in_row(self) -> bool {
        self.column_position <= BUFFER_WIDTH
    }

    /// The writer as a value.
    pub closed spec fn view(self) -> Screen {
        Screen {
            rows: self.buffer@,
            column: self.column_position as nat,
            color: self.color_code,
        }
    }

    /// A writer over `buffer` in the startup colours, red on black, with
    /// the cursor at the left.
    pub fn new(buffer: Buffer) -> (writer: Writer)
        ensures
            writer@ == (Screen {
                rows: buffer@,
                column: 0,
                color: ColorCode::encode(Color::Red, Color::Black),
            }),
            writer@.wf(),
    {
        Writer::with_color(ColorCode::new(Color::Red, Color::Black), buffer)
    }

    /// A writer over `buffer` in the colours `color_code`, with the cursor
    /// at the left.
    pub fn with_color(color_code: ColorCode, buffer: Buffer) -> (writer: Writer)
        ensures
            writer@ == (Screen { rows: buffer@, column: 0, color: color_code }),
            writer@.wf(),
    {
        Writer { column_position: 0, color_code, buffer }
    }

    /// The column that the next glyph goes to.
    pub fn column_position(&self) -> (column: usize)
        ensures
            column == self@.column,
            column <= BUFFER_WIDTH,
            self@.wf(),
    {
        proof {
            use_type_invariant(self);
        }
        self.column_position
    }

    /// The colours that the writer writes in.
    pub fn color_code(&self) -> (color: ColorCode)
        ensures
            color == self@.color,
    {
        self.color_code
    }

    /// The cell now shown at `(row, col)`.
    pub fn cell(&self, row: usize, col: usize) -> (cell: ScreenChar)
        requires
            row < BUFFER_HEIGHT,
            col < BUFFER_WIDTH,
        ensures
            cell == self@.rows[row as int][col as int],
    {
        self.buffer.read(row, col)
    }

    /// Writes every byte of `s`, first to last.
    pub fn write_string(&mut self, s: &str)
        ensures
            final(self)@ == old(self)@.put_all(s.spec_bytes()),
            final(self)@.wf(),
    {
        let bytes = s.as_bytes();
        let mut i: usize = 0;
        proof {
            use_type_invariant(&*self);
            assert(bytes@.take(0) =~= Seq::<u8>::empty());
        }
        while i < bytes.len()
            invariant
                i <= bytes.len(),
                bytes@ == s.spec_bytes(),
                self@ == old(self)@.put_all(bytes@.take(i as int)),
                self@.wf(),
            decreases bytes.len() - i,
        {
            proof {
                assert(bytes@.take(i + 1).drop_last() =~= bytes@.take(i as int));
                assert(bytes@.take(i + 1).last() == bytes@[i as int]);
            }
            self.write_byte(bytes[i]);
            i += 1;
        }
        proof {
            assert(bytes@.take(i as int) =~= bytes@);
        }
    }

    /// Writes one byte. A newline moves the rows up. Any other byte is
    /// placed at the cursor in the bottom row, after moving the rows up if
    /// that row is full; a byte that the display cannot show is placed as
    /// the placeholder glyph.
    pub fn write_byte(&mut self, ascii_character: u8)
        ensures
            final(self)@ == old(self)@.put(ascii_character),
            final(self)@.wf(),
    {
        if ascii_character == NEWLINE {
            self.new_line();
        } else {
            proof {
                use_type_invariant(&*self);
            }
            if self.column_position >= BUFFER_WIDTH {
                self.new_line();
            }
            let row: usize = BUFFER_HEIGHT - 1;
            let col: usize = self.column_position;
            let color_code = self.color_code;
            self.buffer.write(
                row,
                col,
                ScreenChar { ascii_character: glyph(ascii_character), color_code },
            );
            self.column_position += 1;
        }
    }

    /// Moves every row up by one, which loses the top row, empties the
    /// bottom row in the current colours and puts the cursor at the left.
    pub fn new_line(&mut self)
        ensures
            final(self)@ == old(self)@.new_line(),
            final(self)@.wf(),
    {
        proof {
            use_type_invariant(&*self);
        }
        let mut row: usize = 1;
        while row < BUFFER_HEIGHT
            invariant
                1 <= row <= BUFFER_HEIGHT,
                self.column_position <= BUFFER_WIDTH,
                self.color_code == old(self).color_code,
                forall|r: int, c: int|
                    0 <= r < BUFFER_HEIGHT && 0 <= c < BUFFER_WIDTH ==> #[trigger] self.buffer.cell(
                        r,
                        c,
                    ) == (if r < row - 1 {
                        old(self).buffer.cell(r + 1, c)
                    } else {
                        old(self).buffer.cell(r, c)
                    }),
            decreases BUFFER_HEIGHT - row,
        {
            let mut col: usize = 0;
            while col < BUFFER_WIDTH
                invariant
                    1 <= row < BUFFER_HEIGHT,
                    col <= BUFFER_WIDTH,
                    self.column_position <= BUFFER_WIDTH,
                    self.color_code == old(self).color_code,
                    forall|r: int, c: int|
                        0 <= r < BUFFER_HEIGHT && 0 <= c < BUFFER_WIDTH
                            ==> #[trigger] self.buffer.cell(r, c) == (if r < row - 1 || (r == row
                            - 1 && c < col) {
                            old(self).buffer.cell(r + 1, c)
                        } else {
                            old(self).buffer.cell(r, c)
                        }),
                decreases BUFFER_WIDTH - col,
            {
                let character = self.buffer.read(row, col);
                self.buffer.write(row - 1, col, character);
                col += 1;
            }
            row += 1;
        }
        let ghost shifted = self@;
        self.clear_row(BUFFER_HEIGHT - 1);
        self.column_position = 0;
        proof {
            assert(self@.rows == shifted.rows.update(
                BUFFER_HEIGHT - 1,
                blank_row(old(self)@.color),
            ));
            assert(self@.rows =~~= old(self)@.new_line().rows);
        }
    }

    /// Empties row `row`: every cell of it becomes a space in the current
    /// colours.
    pub fn clear_row(&mut self, row: usize)
        requires
            row < BUFFER_HEIGHT,
        ensures
            final(self)@ == old(self)@.clear_row(row as int),
            final(self)@.wf(),
    {
        proof {
            use_type_invariant(&*self);
        }
        let blank = ScreenChar { ascii_character: SPACE, color_code: self.color_code };
        let mut col: usize = 0;
        while col < BUFFER_WIDTH
            invariant
                row < BUFFER_HEIGHT,
                self.column_position <= BUFFER_WIDTH,
                col <= BUFFER_WIDTH,
                blank == crate::screen::blank(old(self).color_code),
                self.color_code == old(self).color_code,
                self.column_position == old(self).column_position,
                forall|r: int, c: int|
                    0 <= r < BUFFER_HEIGHT && 0 <= c < BUFFER_WIDTH ==> #[trigger] self.buffer.cell(
                        r,
                        c,
                    ) == (if r == row && c < col {
                        blank
                    } else {
                        old(self).buffer.cell(r, c)
                    }),
            decreases BUFFER_WIDTH - col,
        {
            self.buffer.write(row, col, blank);
            col += 1;
        }
        proof {
            assert(self@.rows =~~= old(self)@.clear_row(row as int).rows);
        }
    }
}

/// Fills the display with the placeholder glyph: one placeholder byte is
/// written for each cell of the grid, row by row. Nothing of the old
/// screen remains: every row but the bottom one is full of the glyph, and
/// the bottom row holds it up to the cursor, which ends where it started,
/// or one past the last column if it started at the left edge.
pub fn draw_pattern(writer: &mut Writer)
    ensures
        final(writer)@ == old(writer)@.put_all(pattern(cells_in(BUFFER_HEIGHT as nat))),
        final(writer)@.wf(),
        final(writer)@.color == old(writer)@.color,
        final(writer)@.column == pattern_end(old(writer)@.column),
        forall|r: int|
            0 <= r < BUFFER_HEIGHT - 1 ==> #[trigger] final(writer)@.rows[r] == pattern_row(
                old(writer)@.color,
            ),
        final(writer)@.rows[BUFFER_HEIGHT - 1] == pattern_bottom(
            old(writer)@.color,
            pattern_end(old(writer)@.column),
        ),
{
    proof {
        use_type_invariant(&*writer);
        assert(pattern(0) =~= Seq::<u8>::empty());
        law_pattern_from_any_column(writer@);
    }
    let mut row: usize = 0;
    while row < BUFFER_HEIGHT
        invariant
            row <= BUFFER_HEIGHT,
            writer@ == old(writer)@.put_all(pattern(cells_in(row as nat))),
            writer@.wf(),
        decreases BUFFER_HEIGHT - row,
    {
        let mut col: usize = 0;
        while col < BUFFER_WIDTH
            invariant
                row < BUFFER_HEIGHT,
                col <= BUFFER_WIDTH,
                writer@ == old(writer)@.put_all(pattern(cells_in(row as nat) + col as nat)),
                writer@.wf(),
            decreases BUFFER_WIDTH - col,
        {
            proof {
                let written = cells_in(row as nat) + col as nat;
                assert(pattern(written + 1).drop_last() =~= pattern(written));
                assert(pattern(written + 1).last() == PLACEHOLDER);
            }
            writer.write_byte(PLACEHOLDER);
            col += 1;
        }
        row += 1;
    }
}

/// `core::fmt::Error`, the error of a formatting operation.
#[verifier::external_type_specification]
#[verifier::external_body]
pub struct ExFmtError(core::fmt::Error);

impl core::fmt::Write for Writer {
    /// Writes every byte of `s`, as [`Writer::write_string`] does, and
    /// reports success: the writer itself never fails.
    fn write_str(&mut self, s: &str) -> (result: Result<(), core::fmt::Error>)
        ensures
            result.is_ok(),
            final(self)@ == old(self)@.put_all(s.spec_bytes()),
            final(self)@.wf(),
    {
        self.write_string(s);
        Ok(())
    }
}

} // verus!
