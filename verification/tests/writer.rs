use std::fmt::Write;
use vga_console::buffer::{Buffer, ScreenChar, BUFFER_HEIGHT, BUFFER_WIDTH};
use vga_console::color::{Color, ColorCode};
use vga_console::screen::{NEWLINE, PLACEHOLDER, SPACE};
use vga_console::writer::{draw_pattern, glyph, Writer};

const W: usize = BUFFER_WIDTH;
const H: usize = BUFFER_HEIGHT;

fn startup() -> ColorCode {
    ColorCode::new(Color::Red, Color::Black)
}

fn blank_writer() -> Writer {
    Writer::new(Buffer::new(ScreenChar { ascii_character: b' ', color_code: startup() }))
}

/// A writer over a grid in which every cell is different from its
/// neighbours, so that a moved row can be told from the others.
fn marked_writer(color: ColorCode) -> Writer {
    let mut buffer = Buffer::new(ScreenChar { ascii_character: 0, color_code: ColorCode(0) });
    for row in 0..H {
        for col in 0..W {
            buffer.write(row, col, mark(row, col));
        }
    }
    Writer::with_color(color, buffer)
}

fn mark(row: usize, col: usize) -> ScreenChar {
    ScreenChar { ascii_character: (row * 10 + col) as u8, color_code: ColorCode((row + 1) as u8) }
}

fn row_of(writer: &Writer, row: usize) -> Vec<ScreenChar> {
    (0..W).map(|col| writer.cell(row, col)).collect()
}

fn blank_row(color: ColorCode) -> Vec<ScreenChar> {
    vec![ScreenChar { ascii_character: b' ', color_code: color }; W]
}

fn marked_row(row: usize) -> Vec<ScreenChar> {
    (0..W).map(|col| mark(row, col)).collect()
}

#[test]
fn constants_have_their_codes() {
    assert_eq!(NEWLINE, b'\n');
    assert_eq!(SPACE, b' ');
    assert_eq!(PLACEHOLDER, 0xfe);
}

#[test]
fn new_writer_starts_at_the_left_in_red_on_black() {
    let writer = blank_writer();
    assert_eq!(writer.column_position(), 0);
    assert_eq!(writer.color_code(), ColorCode(0x04));
    let other = Writer::with_color(ColorCode(0x1e), Buffer::new(mark(0, 0)));
    assert_eq!(other.column_position(), 0);
    assert_eq!(other.color_code(), ColorCode(0x1e));
    assert_eq!(other.cell(7, 7), mark(0, 0));
}

#[test]
fn glyph_keeps_printable_bytes_and_replaces_the_others() {
    for byte in 0..=255u8 {
        let expected = if (0x20..=0x7e).contains(&byte) { byte } else { 0xfe };
        assert_eq!(glyph(byte), expected);
    }
}

#[test]
fn every_byte_but_newline_is_placed_as_its_glyph() {
    for byte in 0..=255u8 {
        if byte == b'\n' {
            continue;
        }
        let mut writer = blank_writer();
        writer.write_byte(b'a');
        writer.write_byte(byte);
        let expected = if (0x20..=0x7e).contains(&byte) { byte } else { 0xfe };
        assert_eq!(
            writer.cell(H - 1, 1),
            ScreenChar { ascii_character: expected, color_code: startup() }
        );
        assert_eq!(writer.column_position(), 2);
        assert_eq!(row_of(&writer, H - 2), blank_row(startup()));
    }
}

#[test]
fn newline_places_no_glyph() {
    let mut writer = marked_writer(ColorCode(0x2f));
    writer.write_byte(b'\n');
    assert_eq!(row_of(&writer, H - 1), blank_row(ColorCode(0x2f)));
    assert_eq!(writer.column_position(), 0);
}

#[test]
fn full_row_then_one_more_wraps_once() {
    let mut writer = marked_writer(ColorCode(0x0a));
    let text: Vec<u8> = (0..W).map(|i| b'!' + (i % 90) as u8).collect();
    for (i, byte) in text.iter().enumerate() {
        assert_eq!(writer.column_position(), i);
        writer.write_byte(*byte);
    }
    assert_eq!(writer.column_position(), W);
    let filled: Vec<ScreenChar> = text
        .iter()
        .map(|b| ScreenChar { ascii_character: *b, color_code: ColorCode(0x0a) })
        .collect();
    assert_eq!(row_of(&writer, H - 1), filled);
    for row in 0..H - 1 {
        assert_eq!(row_of(&writer, row), marked_row(row));
    }

    writer.write_byte(b'Z');
    assert_eq!(writer.column_position(), 1);
    assert_eq!(row_of(&writer, H - 2), filled);
    for row in 0..H - 2 {
        assert_eq!(row_of(&writer, row), marked_row(row + 1));
    }
    let mut bottom = blank_row(ColorCode(0x0a));
    bottom[0] = ScreenChar { ascii_character: b'Z', color_code: ColorCode(0x0a) };
    assert_eq!(row_of(&writer, H - 1), bottom);
}

#[test]
fn as_many_newlines_as_rows_blank_the_grid() {
    let mut writer = marked_writer(ColorCode(0x31));
    for _ in 0..H {
        writer.write_byte(b'\n');
    }
    for row in 0..H {
        assert_eq!(row_of(&writer, row), blank_row(ColorCode(0x31)));
    }
    assert_eq!(writer.column_position(), 0);
    writer.write_byte(b'\n');
    for row in 0..H {
        assert_eq!(row_of(&writer, row), blank_row(ColorCode(0x31)));
    }
}

#[test]
fn fewer_newlines_leave_the_upper_rows() {
    let mut writer = marked_writer(ColorCode(0x31));
    for _ in 0..3 {
        writer.write_byte(b'\n');
    }
    for row in 0..H - 3 {
        assert_eq!(row_of(&writer, row), marked_row(row + 3));
    }
    for row in H - 3..H {
        assert_eq!(row_of(&writer, row), blank_row(ColorCode(0x31)));
    }
}

#[test]
fn new_line_moves_every_row_up_by_one() {
    let mut writer = marked_writer(ColorCode(0x5c));
    writer.write_byte(b'q');
    let bottom_before = row_of(&writer, H - 1);
    writer.new_line();
    for row in 0..H - 2 {
        assert_eq!(row_of(&writer, row), marked_row(row + 1));
    }
    assert_eq!(row_of(&writer, H - 2), bottom_before);
    assert_eq!(row_of(&writer, H - 1), blank_row(ColorCode(0x5c)));
    assert_eq!(writer.column_position(), 0);
    assert_eq!(writer.color_code(), ColorCode(0x5c));
}

#[test]
fn clear_row_blanks_that_row_only() {
    for target in [0, 7, H - 1] {
        let mut writer = marked_writer(ColorCode(0x4e));
        writer.write_byte(b'x');
        writer.write_byte(b'y');
        let before: Vec<Vec<ScreenChar>> = (0..H).map(|r| row_of(&writer, r)).collect();
        writer.clear_row(target);
        for row in 0..H {
            if row == target {
                assert_eq!(row_of(&writer, row), blank_row(ColorCode(0x4e)));
            } else {
                assert_eq!(row_of(&writer, row), before[row]);
            }
        }
        assert_eq!(writer.column_position(), 2);
    }
}

#[test]
fn hi_newline_ends_one_row_up() {
    let mut writer = blank_writer();
    writer.write_string("HI");
    assert_eq!(writer.cell(H - 1, 0), ScreenChar { ascii_character: b'H', color_code: startup() });
    assert_eq!(writer.cell(H - 1, 1), ScreenChar { ascii_character: b'I', color_code: startup() });
    assert_eq!(writer.column_position(), 2);

    let mut writer = blank_writer();
    writer.write_string("HI\n");
    let mut expected = blank_row(startup());
    expected[0].ascii_character = b'H';
    expected[1].ascii_character = b'I';
    assert_eq!(row_of(&writer, H - 2), expected);
    assert_eq!(row_of(&writer, H - 1), blank_row(startup()));
    for row in 0..H - 2 {
        assert_eq!(row_of(&writer, row), blank_row(startup()));
    }
    assert_eq!(writer.column_position(), 0);
}

#[test]
fn control_byte_shows_as_placeholder() {
    let mut writer = blank_writer();
    writer.write_byte(b'o');
    writer.write_byte(b'k');
    writer.write_byte(0x01);
    assert_eq!(writer.cell(H - 1, 2), ScreenChar { ascii_character: 0xfe, color_code: startup() });
    assert_eq!(writer.column_position(), 3);
    assert_eq!(writer.cell(H - 1, 0).ascii_character, b'o');
    assert_eq!(writer.cell(H - 1, 1).ascii_character, b'k');
    assert_eq!(writer.cell(H - 1, 3).ascii_character, b' ');
}

#[test]
fn tab_and_carriage_return_show_as_placeholder() {
    let mut writer = blank_writer();
    writer.write_string("a\tb\rc");
    let glyphs: Vec<u8> = (0..5).map(|c| writer.cell(H - 1, c).ascii_character).collect();
    assert_eq!(glyphs, vec![b'a', 0xfe, b'b', 0xfe, b'c']);
    assert_eq!(writer.column_position(), 5);
}

#[test]
fn text_outside_ascii_degrades_byte_by_byte() {
    let mut writer = blank_writer();
    writer.write_string("ell\u{f6} ");
    let glyphs: Vec<u8> = (0..7).map(|c| writer.cell(H - 1, c).ascii_character).collect();
    assert_eq!(glyphs, vec![b'e', b'l', b'l', 0xfe, 0xfe, b' ', b' ']);
    assert_eq!(writer.column_position(), 6);
}

#[test]
fn empty_string_changes_nothing() {
    let mut writer = marked_writer(ColorCode(0x07));
    writer.write_string("");
    for row in 0..H {
        assert_eq!(row_of(&writer, row), marked_row(row));
    }
    assert_eq!(writer.column_position(), 0);
}

#[test]
fn long_string_wraps_at_the_right_edge() {
    let mut writer = blank_writer();
    let text: String = (0..W + 3).map(|i| (b'a' + (i % 26) as u8) as char).collect();
    writer.write_string(&text);
    assert_eq!(writer.column_position(), 3);
    for col in 0..W {
        assert_eq!(writer.cell(H - 2, col).ascii_character, b'a' + (col % 26) as u8);
    }
    for col in 0..3 {
        assert_eq!(writer.cell(H - 1, col).ascii_character, b'a' + ((W + col) % 26) as u8);
    }
    assert_eq!(writer.cell(H - 1, 3).ascii_character, b' ');
}

#[test]
fn write_str_writes_and_succeeds() {
    let mut writer = blank_writer();
    assert!(writer.write_str("ab\ncd").is_ok());
    assert_eq!(writer.cell(H - 2, 0).ascii_character, b'a');
    assert_eq!(writer.cell(H - 2, 1).ascii_character, b'b');
    assert_eq!(writer.cell(H - 1, 0).ascii_character, b'c');
    assert_eq!(writer.cell(H - 1, 1).ascii_character, b'd');
    assert_eq!(writer.column_position(), 2);
}

#[test]
fn formatted_text_goes_through_the_writer() {
    let mut writer = blank_writer();
    let text = format!("{} and {}", 4, "five");
    assert!(writer.write_str(&text).is_ok());
    let glyphs: Vec<u8> = (0..10).map(|c| writer.cell(H - 1, c).ascii_character).collect();
    assert_eq!(glyphs, b"4 and five".to_vec());
}

fn pattern_row(color: ColorCode) -> Vec<ScreenChar> {
    vec![ScreenChar { ascii_character: 0xfe, color_code: color }; W]
}

#[test]
fn pattern_from_the_left_edge_fills_every_cell() {
    let mut writer = blank_writer();
    draw_pattern(&mut writer);
    for row in 0..H {
        assert_eq!(row_of(&writer, row), pattern_row(startup()));
    }
    assert_eq!(writer.column_position(), W);
    assert_eq!(writer.color_code(), startup());
}

#[test]
fn pattern_is_as_many_placeholder_bytes_as_cells() {
    let mut drawn = marked_writer(ColorCode(0x1b));
    drawn.write_string("xyz");
    let mut written = marked_writer(ColorCode(0x1b));
    written.write_string("xyz");
    draw_pattern(&mut drawn);
    for _ in 0..W * H {
        written.write_byte(0xfe);
    }
    for row in 0..H {
        assert_eq!(row_of(&drawn, row), row_of(&written, row));
    }
    assert_eq!(drawn.column_position(), written.column_position());
}

#[test]
fn pattern_from_any_column_leaves_nothing_of_the_old_screen() {
    for start in 0..=W {
        let color = ColorCode(0x2e);
        let mut writer = marked_writer(color);
        for _ in 0..start {
            writer.write_byte(b'#');
        }
        assert_eq!(writer.column_position(), start);
        draw_pattern(&mut writer);
        let end = if start == 0 { W } else { start };
        for row in 0..H - 1 {
            assert_eq!(row_of(&writer, row), pattern_row(color));
        }
        let mut bottom = blank_row(color);
        for cell in bottom.iter_mut().take(end) {
            cell.ascii_character = 0xfe;
        }
        assert_eq!(row_of(&writer, H - 1), bottom);
        assert_eq!(writer.column_position(), end);
        assert_eq!(writer.color_code(), color);
    }
}
