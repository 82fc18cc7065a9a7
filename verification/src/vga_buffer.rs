//! The text grid: 25 rows of 80 cells, a cursor, and the editing commands.
//!
//! The cursor is shown by the attribute of its cell, foreground and
//! background exchanged. What each command does to the grid is stated over
//! the model in [`crate::screen`].

use vstd::prelude::*;
use vstd::string::StringSliceAdditionalSpecFns;
use crate::screen::{
    blank,
    blank_row,
    highlight,
    in_grid,
    line_end,
    normal,
    Screen,
    LINE_FEED,
    PLACEHOLDER,
};
use crate::upkeep::{
    backspace_keeps_invariant,
    moves_keep_invariant,
    new_line_keeps_invariant,
    write_keeps_invariant,
};

verus! {

pub const BUFFER_HEIGHT: usize = 25;

pub const BUFFER_WIDTH: usize = 80;

#[derive(Debug, Clone, Copy, PartialEq, Eq)]
pub enum Color {
    Black,
    Blue,
    Green,
    Cyan,
    Red,
    Magenta,
    Brown,
    LightGray,
    DarkGray,
    LightBlue,
    LightGreen,
    LightCyan,
    LightRed,
    Pink,
    Yellow,
    White,
}

impl Color {
    /// The colour's number in the display's palette.
    pub open spec fn spec_code(self) -> u8 {
        match self {
            Color::Black => 0,
            Color::Blue => 1,
            Color::Green => 2,
            Color::Cyan => 3,
            Color::Red => 4,
            Color::Magenta => 5,
            Color::Brown => 6,
            Color::LightGray => 7,
            Color::DarkGray => 8,
            Color::LightBlue => 9,
            Color::LightGreen => 10,
            Color::LightCyan => 11,
            Color::LightRed => 12,
            Color::Pink => 13,
            Color::Yellow => 14,
            Color::White => 15,
        }
    }

    #[verifier::when_used_as_spec(spec_code)]
    pub fn code(self) -> (code: u8)
        ensures
            code == self.spec_code(),
            code < 16,
    {
        match self {
            Color::Black => 0,
            Color::Blue => 1,
            Color::Green => 2,
            Color::Cyan => 3,
            Color::Red => 4,
            Color::Magenta => 5,
            Color::Brown => 6,
            Color::LightGray => 7,
            Color::DarkGray => 8,
            Color::LightBlue => 9,
            Color::LightGreen => 10,
            Color::LightCyan => 11,
            Color::LightRed => 12,
            Color::Pink => 13,
            Color::Yellow => 14,
            Color::White => 15,
        }
    }
}

/// A cell's attribute byte: the background in the high four bits, the
/// foreground in the low four.
#[derive(Debug, Clone, Copy, PartialEq, Eq)]
pub struct ColorCode(pub u8);

impl ColorCode {
    pub open spec fn spec_new(background: Color, foreground: Color) -> ColorCode {
        ColorCode((16 * background.code() + foreground.code()) as u8)
    }

    #[verifier::when_used_as_spec(spec_new)]
    pub fn new(background: Color, foreground: Color) -> (color_code: ColorCode)
        ensures
            color_code == ColorCode::spec_new(background, foreground),
    {
        let high: u8 = background.code();
        let low: u8 = foreground.code();
        assert((high << 4 | low) == 16 * high + low) by (bit_vector)
            requires
                high < 16,
                low < 16,
        ;
        ColorCode(high << 4 | low)
    }
}

/// One cell of the grid.
#[derive(Debug, Clone, Copy, PartialEq, Eq)]
pub struct ScreenChar {
    pub ascii_character: u8,
    pub color_code: ColorCode,
}

struct Buffer {
    chars: [[ScreenChar; BUFFER_WIDTH]; BUFFER_HEIGHT],
}

pub struct Writer {
    column_position: usize,
    row_position: usize,
    color_code: ColorCode,
    buffer: Buffer,
}

impl View for Writer {
    type V = Screen;

    closed spec fn view(&self) -> Screen {
        Screen {
            row: self.row_position as int,
            col: self.column_position as int,
            color: self.color_code,
            cells: Seq::new(BUFFER_HEIGHT as nat, |r: int| self.buffer.chars@[r]@),
        }
    }
}

impl Writer {
    /// The cursor lies inside the grid.
    pub open spec fn wf(&self) -> bool {
        self@.wf()
    }

    /// An empty grid with the cursor, highlighted, in its first cell. Typed
    /// characters are green on black.
    pub fn new() -> (writer: Writer)
        ensures
            writer.wf(),
            writer@.marked(),
            writer@.row == 0,
            writer@.col == 0,
            writer@.color == normal(),
            forall|r: int, c: int|
                in_grid(r, c) ==> #[trigger] writer@.cells[r][c] == (if r == 0 && c == 0 {
                    ScreenChar { color_code: highlight(), ..blank() }
                } else {
                    blank()
                }),
    {
        let empty = ScreenChar {
            ascii_character: 0,
            color_code: ColorCode::new(Color::Black, Color::Black),
        };
        let mut writer = Writer {
            column_position: 0,
            row_position: 0,
            color_code: ColorCode::new(Color::Black, Color::Green),
            buffer: Buffer { chars: [[empty; BUFFER_WIDTH]; BUFFER_HEIGHT] },
        };
        writer.light_up(0, 0);
        writer
    }

    pub fn row(&self) -> (row: usize)
        ensures
            row == self@.row,
    {
        self.row_position
    }

    pub fn column(&self) -> (column: usize)
        ensures
            column == self@.col,
    {
        self.column_position
    }

    /// The cell at a position of the grid.
    pub fn cell(&self, row: usize, col: usize) -> (cell: ScreenChar)
        requires
            in_grid(row as int, col as int),
        ensures
            cell == self@.cells[row as int][col as int],
    {
        self.buffer.chars[row][col]
    }

    fn put(&mut self, row: usize, col: usize, cell: ScreenChar)
        requires
            in_grid(row as int, col as int),
        ensures
            final(self)@ == old(self)@.set(row as int, col as int, cell),
            final(self)@.sized(),
    {
        self.buffer.chars[row][col] = cell;
        assert(self@.cells =~~= old(self)@.set(row as int, col as int, cell).cells);
    }

    /// Takes the highlight off a cell; its character stays.
    pub fn light_down(&mut self, row: usize, col: usize)
        requires
            in_grid(row as int, col as int),
        ensures
            final(self)@ == old(self)@.light_down(row as int, col as int),
            final(self)@.sized(),
            old(self).wf() ==> final(self).wf(),
    {
        let cell = ScreenChar {
            ascii_character: self.buffer.chars[row][col].ascii_character,
            color_code: ColorCode::new(Color::Black, Color::Green),
        };
        self.put(row, col, cell);
    }

    /// Highlights a cell; its character stays.
    pub fn light_up(&mut self, row: usize, col: usize)
        requires
            in_grid(row as int, col as int),
        ensures
            final(self)@ == old(self)@.light_up(row as int, col as int),
            final(self)@.sized(),
            old(self).wf() ==> final(self).wf(),
    {
        let cell = ScreenChar {
            ascii_character: self.buffer.chars[row][col].ascii_character,
            color_code: ColorCode::new(Color::Green, Color::Black),
        };
        self.put(row, col, cell);
    }

    /// Blanks one row.
    fn clear_row(&mut self, row: usize)
        requires
            row < BUFFER_HEIGHT,
        ensures
            final(self)@ == (Screen {
                cells: old(self)@.cells.update(row as int, blank_row()),
                ..old(self)@
            }),
    {
        let empty = ScreenChar {
            ascii_character: 0,
            color_code: ColorCode::new(Color::Black, Color::Black),
        };
        for col in 0..BUFFER_WIDTH
            invariant
                row < BUFFER_HEIGHT,
                empty == blank(),
                self@.row == old(self)@.row,
                self@.col == old(self)@.col,
                self@.color == old(self)@.color,
                self@.cells.len() == BUFFER_HEIGHT,
                self@.cells[row as int].len() == BUFFER_WIDTH,
                forall|r: int| 0 <= r < BUFFER_HEIGHT && r != row ==> self@.cells[r] == old(self)@.cells[r],
                forall|c: int| 0 <= c < col ==> self@.cells[row as int][c] == blank(),
        {
            self.put(row, col, empty);
        }
        assert(self@.cells =~~= old(self)@.cells.update(row as int, blank_row()));
    }

    /// Moves every row up by one. The top row is lost and the bottom row
    /// comes out blank.
    fn scroll(&mut self)
        ensures
            final(self)@ == old(self)@.scrolled(),
    {
        for row in 0..BUFFER_HEIGHT - 1
            invariant
                self@.row == old(self)@.row,
                self@.col == old(self)@.col,
                self@.color == old(self)@.color,
                self@.cells.len() == BUFFER_HEIGHT,
                forall|r: int| 0 <= r < row ==> self@.cells[r] == old(self)@.cells[r + 1],
                forall|r: int| row <= r < BUFFER_HEIGHT ==> self@.cells[r] == old(self)@.cells[r],
        {
            let ghost before = self@;
            assert(before.cells[row + 1] == old(self)@.cells[row + 1]);
            self.buffer.chars[row] = self.buffer.chars[row + 1];
            assert(self@.cells =~= before.cells.update(row as int, before.cells[row + 1]));
        }
        self.clear_row(BUFFER_HEIGHT - 1);
        assert(self@.cells =~= old(self)@.scrolled().cells);
    }

    /// Ends the line at the cursor and puts the cursor at the start of the
    /// next row. On the last row the grid scrolls instead.
    pub fn new_line(&mut self)
        requires
            old(self).wf(),
        ensures
            final(self).wf(),
            final(self)@ == old(self)@.new_line(),
            old(self)@.marked() ==> final(self)@.marked(),
    {
        proof {
            new_line_keeps_invariant(self@);
        }
        let end = ScreenChar {
            ascii_character: LINE_FEED,
            color_code: ColorCode::new(Color::Black, Color::Black),
        };
        self.put(self.row_position, self.column_position, end);
        self.row_position = self.row_position + 1;
        self.column_position = 0;
        if self.row_position == BUFFER_HEIGHT {
            self.row_position = BUFFER_HEIGHT - 1;
            self.scroll();
        }
        self.light_up(self.row_position, self.column_position);
    }

    /// Types one byte at the cursor: printable ASCII as it is, a line feed as
    /// the end of the line, anything else as the placeholder glyph.
    pub fn write(&mut self, byte: u8)
        requires
            old(self).wf(),
        ensures
            final(self).wf(),
            final(self)@ == old(self)@.write(byte),
            old(self)@.marked() ==> final(self)@.marked(),
    {
        proof {
            write_keeps_invariant(self@, byte);
            new_line_keeps_invariant(self@);
        }
        match byte {
            LINE_FEED => self.new_line(),
            byte => {
                if self.column_position == BUFFER_WIDTH - 1 {
                    self.new_line();
                }
                let row = self.row_position;
                let col = self.column_position;
                let glyph = match byte {
                    0x20..=0x7e => byte,
                    _ => PLACEHOLDER,
                };
                let color_code = self.color_code;
                self.put(row, col, ScreenChar { ascii_character: glyph, color_code });
                self.column_position = self.column_position + 1;
                self.light_up(self.row_position, self.column_position);
            },
        }
    }

    /// Types a string, byte by byte of its UTF-8 form.
    pub fn write_string(&mut self, string: &str)
        requires
            old(self).wf(),
        ensures
            final(self).wf(),
            final(self)@ == old(self)@.write_all(string.spec_bytes()),
            old(self)@.marked() ==> final(self)@.marked(),
    {
        let bytes = string.as_bytes();
        let n = bytes.len();
        for i in 0..n
            invariant
                n == bytes@.len(),
                self.wf(),
                self@ == old(self)@.write_all(bytes@.take(i as int)),
                old(self)@.marked() ==> self@.marked(),
        {
            assert(bytes@.take(i + 1).drop_last() =~= bytes@.take(i as int));
            self.write(bytes[i]);
        }
        assert(bytes@.take(n as int) =~= bytes@);
    }

    pub fn move_up(&mut self)
        requires
            old(self).wf(),
        ensures
            final(self).wf(),
            final(self)@ == old(self)@.move_up(),
            old(self)@.marked() ==> final(self)@.marked(),
    {
        proof {
            moves_keep_invariant(self@);
        }
        if self.row_position > 0 {
            self.light_down(self.row_position, self.column_position);
            self.row_position = self.row_position - 1;
            self.light_up(self.row_position, self.column_position);
        }
    }

    pub fn move_down(&mut self)
        requires
            old(self).wf(),
        ensures
            final(self).wf(),
            final(self)@ == old(self)@.move_down(),
            old(self)@.marked() ==> final(self)@.marked(),
    {
        proof {
            moves_keep_invariant(self@);
        }
        if self.row_position < BUFFER_HEIGHT - 1 {
            self.light_down(self.row_position, self.column_position);
            self.row_position = self.row_position + 1;
            self.light_up(self.row_position, self.column_position);
        }
    }

    /// One cell forward, wrapping to the next row. From the last cell of the
    /// grid there is nowhere to go: nothing changes.
    pub fn move_right(&mut self)
        requires
            old(self).wf(),
        ensures
            final(self).wf(),
            final(self)@ == old(self)@.move_right(),
            old(self)@.marked() ==> final(self)@.marked(),
    {
        proof {
            moves_keep_invariant(self@);
        }
        if self.column_position < BUFFER_WIDTH - 1 {
            self.light_down(self.row_position, self.column_position);
            self.column_position = self.column_position + 1;
            self.light_up(self.row_position, self.column_position);
        } else if self.row_position < BUFFER_HEIGHT - 1 {
            self.light_down(self.row_position, self.column_position);
            self.row_position = self.row_position + 1;
            self.column_position = 0;
            self.light_up(self.row_position, self.column_position);
        }
    }

    /// One cell back, wrapping to the end of the row above. From the first
    /// cell of the grid there is nowhere to go: nothing changes.
    pub fn move_left(&mut self)
        requires
            old(self).wf(),
        ensures
            final(self).wf(),
            final(self)@ == old(self)@.move_left(),
            old(self)@.marked() ==> final(self)@.marked(),
    {
        proof {
            moves_keep_invariant(self@);
        }
        if self.column_position > 0 {
            self.light_down(self.row_position, self.column_position);
            self.column_position = self.column_position - 1;
            self.light_up(self.row_position, self.column_position);
        } else if self.row_position > 0 {
            self.light_down(self.row_position, self.column_position);
            self.row_position = self.row_position - 1;
            self.column_position = BUFFER_WIDTH - 1;
            self.light_up(self.row_position, self.column_position);
        }
    }

    /// One past the last line-feed marker of a row, 0 if it has none.
    fn line_end(&self, row: usize) -> (end: usize)
        requires
            row < BUFFER_HEIGHT,
        ensures
            end == line_end(self@.cells[row as int]),
            end <= BUFFER_WIDTH,
    {
        let ghost line = self@.cells[row as int];
        let mut col = BUFFER_WIDTH;
        assert(line.take(col as int) =~= line);
        while col > 0
            invariant
                row < BUFFER_HEIGHT,
                col <= BUFFER_WIDTH,
                line == self@.cells[row as int],
                line.len() == BUFFER_WIDTH,
                line_end(line) == line_end(line.take(col as int)),
            decreases col,
        {
            if self.buffer.chars[row][col - 1].ascii_character == LINE_FEED {
                return col;
            }
            assert(line.take(col as int).drop_last() =~= line.take(col - 1));
            col = col - 1;
        }
        col
    }

    /// Erases the character before the cursor. At the start of a row the
    /// cursor first climbs to the end of the text above, which is where the
    /// nearest line-feed marker stands; rows without one are passed over. In
    /// the first cell of the grid nothing is erased.
    pub fn backspace(&mut self)
        requires
            old(self).wf(),
        ensures
            final(self).wf(),
            final(self)@ == old(self)@.backspace(),
            old(self)@.marked() ==> final(self)@.marked(),
    {
        proof {
            backspace_keeps_invariant(self@);
        }
        let ghost mut pending = self@;
        self.light_down(self.row_position, self.column_position);
        while self.column_position == 0 && self.row_position > 0
            invariant
                self@.sized(),
                pending.sized(),
                0 <= pending.row < BUFFER_HEIGHT,
                0 <= pending.col <= BUFFER_WIDTH,
                self@ == pending.dimmed(),
                pending.backspace() == old(self)@.backspace(),
            decreases self.row_position,
        {
            self.row_position = self.row_position - 1;
            self.column_position = self.line_end(self.row_position);
            proof {
                pending = self@;
            }
            if self.column_position < BUFFER_WIDTH {
                self.light_down(self.row_position, self.column_position);
            }
        }
        if self.column_position > 0 {
            let empty = ScreenChar {
                ascii_character: 0,
                color_code: ColorCode::new(Color::Black, Color::Black),
            };
            self.put(self.row_position, self.column_position - 1, empty);
            self.column_position = self.column_position - 1;
        }
        self.light_up(self.row_position, self.column_position);
    }
}

} // verus!
