use ros::vga_buffer::{Color, ColorCode, ScreenChar, Writer, BUFFER_HEIGHT, BUFFER_WIDTH};

const NORMAL: ColorCode = ColorCode(0x02);
const HIGHLIGHT: ColorCode = ColorCode(0x20);
const BLANK: ScreenChar = ScreenChar { ascii_character: 0, color_code: ColorCode(0x00) };
const MARKER: ScreenChar = ScreenChar { ascii_character: b'\n', color_code: ColorCode(0x00) };

fn plain(byte: u8) -> ScreenChar {
    ScreenChar { ascii_character: byte, color_code: NORMAL }
}

fn lit(byte: u8) -> ScreenChar {
    ScreenChar { ascii_character: byte, color_code: HIGHLIGHT }
}

fn highlighted_cells(writer: &Writer) -> Vec<(usize, usize)> {
    let mut found = Vec::new();
    for row in 0..BUFFER_HEIGHT {
        for col in 0..BUFFER_WIDTH {
            if writer.cell(row, col).color_code == HIGHLIGHT {
                found.push((row, col));
            }
        }
    }
    found
}

fn row_text(writer: &Writer, row: usize, len: usize) -> Vec<u8> {
    (0..len).map(|col| writer.cell(row, col).ascii_character).collect()
}

#[test]
fn grid_dimensions() {
    assert_eq!(BUFFER_HEIGHT, 25);
    assert_eq!(BUFFER_WIDTH, 80);
}

#[test]
fn color_code_packs_background_high_foreground_low() {
    assert_eq!(ColorCode::new(Color::Black, Color::Green), ColorCode(0x02));
    assert_eq!(ColorCode::new(Color::Green, Color::Black), ColorCode(0x20));
    assert_eq!(ColorCode::new(Color::Black, Color::Black), ColorCode(0x00));
    assert_eq!(ColorCode::new(Color::White, Color::Red), ColorCode(0xf4));
    assert_eq!(ColorCode::new(Color::Blue, Color::Yellow), ColorCode(0x1e));
    assert_eq!(ColorCode::new(Color::White, Color::White), ColorCode(0xff));
}

#[test]
fn color_numbers_follow_the_palette() {
    let palette = [
        Color::Black, Color::Blue, Color::Green, Color::Cyan, Color::Red, Color::Magenta,
        Color::Brown, Color::LightGray, Color::DarkGray, Color::LightBlue, Color::LightGreen,
        Color::LightCyan, Color::LightRed, Color::Pink, Color::Yellow, Color::White,
    ];
    for (i, color) in palette.iter().enumerate() {
        assert_eq!(color.code() as usize, i);
    }
}

#[test]
fn new_writer_is_blank_with_cursor_lit() {
    let writer = Writer::new();
    assert_eq!((writer.row(), writer.column()), (0, 0));
    for row in 0..BUFFER_HEIGHT {
        for col in 0..BUFFER_WIDTH {
            let expected = if (row, col) == (0, 0) { lit(0) } else { BLANK };
            assert_eq!(writer.cell(row, col), expected);
        }
    }
}

#[test]
fn write_places_character_and_moves_highlight() {
    let mut writer = Writer::new();
    writer.write(b'a');
    assert_eq!(writer.cell(0, 0), plain(b'a'));
    assert_eq!(writer.cell(0, 1), lit(0));
    assert_eq!((writer.row(), writer.column()), (0, 1));
    assert_eq!(highlighted_cells(&writer), vec![(0, 1)]);
}

#[test]
fn write_keeps_printable_range_and_replaces_the_rest() {
    let mut writer = Writer::new();
    for byte in [0x20u8, 0x7e, 0x1f, 0x7f, 0x00, 0x09, 0x80, 0xff, 0xfe] {
        writer.write(byte);
    }
    assert_eq!(row_text(&writer, 0, 9), vec![0x20, 0x7e, 0xfe, 0xfe, 0xfe, 0xfe, 0xfe, 0xfe, 0xfe]);
    assert_eq!((writer.row(), writer.column()), (0, 9));
}

#[test]
fn write_line_feed_is_new_line() {
    let mut a = Writer::new();
    let mut b = Writer::new();
    a.write_string("ab");
    b.write_string("ab");
    a.write(b'\n');
    b.new_line();
    for row in 0..BUFFER_HEIGHT {
        for col in 0..BUFFER_WIDTH {
            assert_eq!(a.cell(row, col), b.cell(row, col));
        }
    }
    assert_eq!((a.row(), a.column()), (b.row(), b.column()));
}

#[test]
fn new_line_leaves_marker_and_goes_to_next_row() {
    let mut writer = Writer::new();
    writer.write_string("hi");
    writer.new_line();
    assert_eq!(writer.cell(0, 2), MARKER);
    assert_eq!(writer.cell(1, 0), lit(0));
    assert_eq!((writer.row(), writer.column()), (1, 0));
    assert_eq!(highlighted_cells(&writer), vec![(1, 0)]);
}

#[test]
fn new_line_on_last_row_scrolls() {
    let mut writer = Writer::new();
    writer.write_string("top");
    for _ in 0..BUFFER_HEIGHT - 1 {
        writer.new_line();
    }
    assert_eq!((writer.row(), writer.column()), (24, 0));
    assert_eq!(row_text(&writer, 0, 3), b"top".to_vec());
    writer.write_string("last");
    writer.new_line();
    assert_eq!((writer.row(), writer.column()), (24, 0));
    assert_eq!(writer.cell(0, 0), MARKER);
    assert_eq!(row_text(&writer, 23, 4), b"last".to_vec());
    assert_eq!(writer.cell(23, 4), MARKER);
    for col in 0..BUFFER_WIDTH {
        let expected = if col == 0 { lit(0) } else { BLANK };
        assert_eq!(writer.cell(24, col), expected);
    }
    assert_eq!(highlighted_cells(&writer), vec![(24, 0)]);
}

#[test]
fn eighty_characters_wrap_before_the_eightieth() {
    let mut writer = Writer::new();
    let text: Vec<u8> = (0..80u8).map(|i| b'!' + i).collect();
    for &byte in &text {
        writer.write(byte);
    }
    assert_eq!(row_text(&writer, 0, 79), text[..79].to_vec());
    for col in 0..79 {
        assert_eq!(writer.cell(0, col), plain(text[col]));
    }
    assert_eq!(writer.cell(0, 79), MARKER);
    assert_eq!(writer.cell(1, 0), plain(text[79]));
    assert_eq!(writer.cell(1, 1), lit(0));
    assert_eq!((writer.row(), writer.column()), (1, 1));
    for col in 2..BUFFER_WIDTH {
        assert_eq!(writer.cell(1, col), BLANK);
    }
    for row in 2..BUFFER_HEIGHT {
        for col in 0..BUFFER_WIDTH {
            assert_eq!(writer.cell(row, col), BLANK);
        }
    }
}

#[test]
fn seventy_nine_characters_do_not_wrap() {
    let mut writer = Writer::new();
    for _ in 0..79 {
        writer.write(b'x');
    }
    assert_eq!((writer.row(), writer.column()), (0, 79));
    assert_eq!(writer.cell(0, 78), plain(b'x'));
    assert_eq!(writer.cell(0, 79), lit(0));
}

#[test]
fn eighty_characters_on_last_row_scroll_once() {
    let mut writer = Writer::new();
    writer.write_string("first");
    writer.new_line();
    writer.write_string("second");
    for _ in 0..BUFFER_HEIGHT - 2 {
        writer.new_line();
    }
    assert_eq!((writer.row(), writer.column()), (24, 0));
    for _ in 0..80 {
        writer.write(b'z');
    }
    assert_eq!((writer.row(), writer.column()), (24, 1));
    assert_eq!(row_text(&writer, 0, 6), b"second".to_vec());
    for col in 0..79 {
        assert_eq!(writer.cell(23, col), plain(b'z'));
    }
    assert_eq!(writer.cell(23, 79), MARKER);
    assert_eq!(writer.cell(24, 0), plain(b'z'));
    assert_eq!(writer.cell(24, 1), lit(0));
    assert_eq!(highlighted_cells(&writer), vec![(24, 1)]);
}

#[test]
fn a_screenful_of_line_feeds_evicts_the_top_row() {
    let mut writer = Writer::new();
    writer.write_string("EVICTED");
    for _ in 0..4 {
        writer.move_down();
    }
    writer.write_string("kept");
    for _ in 0..7 {
        writer.move_up();
    }
    assert_eq!((writer.row(), writer.column()), (0, 11));
    for _ in 0..BUFFER_HEIGHT {
        writer.write(b'\n');
    }
    assert_eq!((writer.row(), writer.column()), (24, 0));
    for row in 0..BUFFER_HEIGHT {
        for col in 0..BUFFER_WIDTH {
            let cell = writer.cell(row, col);
            let expected = if row == 24 {
                if col == 0 { lit(0) } else { BLANK }
            } else if col == 0 {
                MARKER
            } else if row == 3 && (7..11).contains(&col) {
                plain(b"kept"[col - 7])
            } else if row <= 3 && col == 11 {
                plain(0)
            } else if row <= 2 && col == 7 {
                plain(0)
            } else {
                BLANK
            };
            assert_eq!(cell, expected, "row {} col {}", row, col);
            assert!(!cell.ascii_character.is_ascii_uppercase());
        }
    }
}

#[test]
fn line_feeds_from_a_lower_row() {
    let mut writer = Writer::new();
    for _ in 0..10 {
        writer.move_down();
    }
    writer.write_string("ab");
    for _ in 0..20 {
        writer.new_line();
    }
    assert_eq!((writer.row(), writer.column()), (24, 0));
    assert_eq!(row_text(&writer, 4, 2), b"ab".to_vec());
    assert_eq!(writer.cell(4, 2), MARKER);
    for row in 5..24 {
        assert_eq!(writer.cell(row, 0), MARKER);
    }
    assert_eq!(writer.cell(24, 0), lit(0));
}

#[test]
fn write_string_types_each_byte() {
    let mut writer = Writer::new();
    writer.write_string("a\tb\nc");
    assert_eq!(row_text(&writer, 0, 3), vec![b'a', 0xfe, b'b']);
    assert_eq!(writer.cell(0, 3), MARKER);
    assert_eq!(writer.cell(1, 0), plain(b'c'));
    assert_eq!((writer.row(), writer.column()), (1, 1));
}

#[test]
fn write_string_shows_non_ascii_as_placeholders() {
    let mut writer = Writer::new();
    writer.write_string("é€😀!");
    assert_eq!(row_text(&writer, 0, 10), vec![0xfe, 0xfe, 0xfe, 0xfe, 0xfe, 0xfe, 0xfe, 0xfe, 0xfe, b'!']);
    assert_eq!((writer.row(), writer.column()), (0, 10));
}

#[test]
fn write_string_of_nothing_changes_nothing() {
    let mut writer = Writer::new();
    writer.write_string("");
    assert_eq!((writer.row(), writer.column()), (0, 0));
    assert_eq!(writer.cell(0, 0), lit(0));
}

#[test]
fn light_up_and_light_down_keep_the_character() {
    let mut writer = Writer::new();
    writer.write_string("abc");
    writer.light_up(0, 1);
    assert_eq!(writer.cell(0, 1), lit(b'b'));
    writer.light_down(0, 1);
    assert_eq!(writer.cell(0, 1), plain(b'b'));
    writer.light_down(5, 5);
    assert_eq!(writer.cell(5, 5), plain(0));
    writer.light_up(24, 79);
    assert_eq!(writer.cell(24, 79), lit(0));
    assert_eq!((writer.row(), writer.column()), (0, 3));
}

#[test]
fn vertical_moves_clamp_at_the_edges() {
    let mut writer = Writer::new();
    writer.write_string("ab");
    writer.move_up();
    assert_eq!((writer.row(), writer.column()), (0, 2));
    assert_eq!(writer.cell(0, 2), lit(0));
    writer.move_down();
    assert_eq!((writer.row(), writer.column()), (1, 2));
    assert_eq!(writer.cell(0, 2), plain(0));
    assert_eq!(writer.cell(1, 2), lit(0));
    for _ in 0..40 {
        writer.move_down();
    }
    assert_eq!((writer.row(), writer.column()), (24, 2));
    assert_eq!(highlighted_cells(&writer), vec![(24, 2)]);
    for _ in 0..40 {
        writer.move_up();
    }
    assert_eq!((writer.row(), writer.column()), (0, 2));
    assert_eq!(highlighted_cells(&writer), vec![(0, 2)]);
    assert_eq!(row_text(&writer, 0, 2), b"ab".to_vec());
}

#[test]
fn horizontal_moves_wrap_between_rows() {
    let mut writer = Writer::new();
    writer.move_down();
    writer.move_left();
    assert_eq!((writer.row(), writer.column()), (0, 79));
    assert_eq!(writer.cell(1, 0), plain(0));
    assert_eq!(writer.cell(0, 79), lit(0));
    writer.move_right();
    assert_eq!((writer.row(), writer.column()), (1, 0));
    writer.move_right();
    assert_eq!((writer.row(), writer.column()), (1, 1));
    writer.move_left();
    assert_eq!((writer.row(), writer.column()), (1, 0));
    assert_eq!(highlighted_cells(&writer), vec![(1, 0)]);
}

#[test]
fn move_left_in_first_cell_changes_nothing() {
    let mut writer = Writer::new();
    writer.move_left();
    assert_eq!((writer.row(), writer.column()), (0, 0));
    assert_eq!(writer.cell(0, 0), lit(0));
    writer.light_down(0, 0);
    writer.move_left();
    assert_eq!(writer.cell(0, 0), plain(0));
}

#[test]
fn move_right_in_last_cell_changes_nothing() {
    let mut writer = Writer::new();
    for _ in 0..24 {
        writer.move_down();
    }
    for _ in 0..79 {
        writer.move_right();
    }
    assert_eq!((writer.row(), writer.column()), (24, 79));
    writer.move_right();
    assert_eq!((writer.row(), writer.column()), (24, 79));
    assert_eq!(writer.cell(24, 79), lit(0));
    assert_eq!(highlighted_cells(&writer), vec![(24, 79)]);
}

#[test]
fn backspace_within_a_row() {
    let mut writer = Writer::new();
    writer.write_string("abc");
    writer.backspace();
    assert_eq!((writer.row(), writer.column()), (0, 2));
    assert_eq!(row_text(&writer, 0, 2), b"ab".to_vec());
    assert_eq!(writer.cell(0, 2), lit(0));
    assert_eq!(writer.cell(0, 3), plain(0));
    assert_eq!(highlighted_cells(&writer), vec![(0, 2)]);
}

#[test]
fn backspace_at_row_start_joins_the_line_above() {
    let mut writer = Writer::new();
    writer.write_string("ab\n");
    assert_eq!((writer.row(), writer.column()), (1, 0));
    writer.backspace();
    assert_eq!((writer.row(), writer.column()), (0, 2));
    assert_eq!(writer.cell(0, 2), lit(0));
    assert_eq!(writer.cell(0, 3), plain(0));
    assert_eq!(writer.cell(1, 0), plain(0));
    assert_eq!(row_text(&writer, 0, 2), b"ab".to_vec());
    assert_eq!(highlighted_cells(&writer), vec![(0, 2)]);
    writer.backspace();
    assert_eq!((writer.row(), writer.column()), (0, 1));
    assert_eq!(writer.cell(0, 1), lit(0));
    assert_eq!(writer.cell(0, 0), plain(b'a'));
}

#[test]
fn backspace_uses_the_last_marker_of_the_row() {
    let mut writer = Writer::new();
    writer.write_string("a\n");
    writer.move_up();
    for _ in 0..5 {
        writer.move_right();
    }
    writer.new_line();
    assert_eq!(writer.cell(0, 1), plain(b'\n'));
    assert_eq!(writer.cell(0, 5), MARKER);
    assert_eq!((writer.row(), writer.column()), (1, 0));
    writer.backspace();
    assert_eq!((writer.row(), writer.column()), (0, 5));
    assert_eq!(writer.cell(0, 5), lit(0));
    assert_eq!(writer.cell(0, 1), plain(b'\n'));
}

#[test]
fn backspace_passes_rows_without_a_marker() {
    let mut writer = Writer::new();
    writer.write_string("ab\n");
    writer.move_down();
    writer.move_down();
    assert_eq!((writer.row(), writer.column()), (3, 0));
    writer.backspace();
    assert_eq!((writer.row(), writer.column()), (0, 2));
    assert_eq!(writer.cell(0, 2), lit(0));
    assert_eq!(writer.cell(1, 0), plain(0));
    assert_eq!(writer.cell(2, 0), plain(0));
    assert_eq!(writer.cell(3, 0), plain(0));
    assert_eq!(highlighted_cells(&writer), vec![(0, 2)]);
}

#[test]
fn backspace_with_no_marker_above_ends_in_the_first_cell() {
    let mut writer = Writer::new();
    writer.write_string("ab");
    writer.move_down();
    writer.move_down();
    writer.move_left();
    writer.move_left();
    assert_eq!((writer.row(), writer.column()), (2, 0));
    writer.backspace();
    assert_eq!((writer.row(), writer.column()), (0, 0));
    assert_eq!(writer.cell(0, 0), lit(b'a'));
    assert_eq!(writer.cell(0, 1), plain(b'b'));
    assert_eq!(highlighted_cells(&writer), vec![(0, 0)]);
}

#[test]
fn backspace_in_the_first_cell_is_harmless() {
    let mut writer = Writer::new();
    for _ in 0..1000 {
        writer.backspace();
    }
    assert_eq!((writer.row(), writer.column()), (0, 0));
    for row in 0..BUFFER_HEIGHT {
        for col in 0..BUFFER_WIDTH {
            let expected = if (row, col) == (0, 0) { lit(0) } else { BLANK };
            assert_eq!(writer.cell(row, col), expected);
        }
    }
}

#[test]
fn backspace_after_marker_in_the_last_column() {
    let mut writer = Writer::new();
    for _ in 0..79 {
        writer.write(b'x');
    }
    writer.new_line();
    assert_eq!(writer.cell(0, 79), MARKER);
    assert_eq!((writer.row(), writer.column()), (1, 0));
    writer.backspace();
    assert_eq!((writer.row(), writer.column()), (0, 79));
    assert_eq!(writer.cell(0, 79), lit(0));
    assert_eq!(writer.cell(0, 78), plain(b'x'));
    assert_eq!(writer.cell(1, 0), plain(0));
    assert_eq!(highlighted_cells(&writer), vec![(0, 79)]);
}

#[test]
fn one_cell_is_highlighted_after_every_command() {
    let mut writer = Writer::new();
    let mut step = 0u32;
    for round in 0..400u32 {
        step = step.wrapping_mul(1103515245).wrapping_add(12345 + round);
        match (step >> 16) % 9 {
            0 => writer.write(b'a' + (round % 26) as u8),
            1 => writer.write(b'\n'),
            2 => writer.new_line(),
            3 => writer.backspace(),
            4 => writer.move_up(),
            5 => writer.move_down(),
            6 => writer.move_left(),
            7 => writer.move_right(),
            _ => writer.write_string("some text that runs on for a while, long enough to wrap"),
        }
        assert!(writer.row() < BUFFER_HEIGHT && writer.column() < BUFFER_WIDTH);
        assert_eq!(highlighted_cells(&writer), vec![(writer.row(), writer.column())]);
    }
}
