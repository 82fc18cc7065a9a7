//! The mathematical model of the text grid.
//!
//! A [`Screen`] is what a [`Writer`](crate::vga_buffer::Writer) stands for:
//! the cursor, the colour that typed characters get, and the cells, row by
//! row. Every editing command is a function from one `Screen` to the next,
//! and the executable commands are proved to compute exactly these.

use vstd::prelude::*;
use crate::vga_buffer::{Color, ColorCode, ScreenChar, BUFFER_HEIGHT, BUFFER_WIDTH};

verus! {

/// The byte that ends a line. Written into a cell, it records where the line
/// ended, so that erasing can find its way back.
pub const LINE_FEED: u8 = 0x0a;

/// The glyph that stands in for every byte that cannot be shown.
pub const PLACEHOLDER: u8 = 0xfe;

/// The attribute of a cell the cursor has left.
pub open spec fn normal() -> ColorCode {
    ColorCode::new(Color::Black, Color::Green)
}

/// The attribute of the cell under the cursor: `normal()` with foreground and
/// background exchanged.
pub open spec fn highlight() -> ColorCode {
    ColorCode::new(Color::Green, Color::Black)
}

/// An empty cell.
pub open spec fn blank() -> ScreenChar {
    ScreenChar { ascii_character: 0, color_code: ColorCode::new(Color::Black, Color::Black) }
}

/// The cell left behind where a line was ended.
pub open spec fn marker() -> ScreenChar {
    ScreenChar {
        ascii_character: LINE_FEED,
        color_code: ColorCode::new(Color::Black, Color::Black),
    }
}

pub open spec fn blank_row() -> Seq<ScreenChar> {
    Seq::new(BUFFER_WIDTH as nat, |c: int| blank())
}

pub open spec fn is_printable(byte: u8) -> bool {
    0x20 <= byte <= 0x7e
}

/// The glyph shown for a byte other than the line feed.
pub open spec fn glyph_of(byte: u8) -> u8 {
    if is_printable(byte) {
        byte
    } else {
        PLACEHOLDER
    }
}

pub open spec fn in_grid(r: int, c: int) -> bool {
    0 <= r < BUFFER_HEIGHT && 0 <= c < BUFFER_WIDTH
}

/// One past the last line-feed marker of a row, or 0 if the row holds none.
pub open spec fn line_end(line: Seq<ScreenChar>) -> int
    decreases line.len(),
{
    if line.len() == 0 {
        0
    } else if line.last().ascii_character == LINE_FEED {
        line.len() as int
    } else {
        line_end(line.drop_last())
    }
}

pub struct Screen {
    pub row: int,
    pub col: int,
    pub color: ColorCode,
    pub cells: Seq<Seq<ScreenChar>>,
}

impl Screen {
    /// The grid has its fixed dimensions.
    pub open spec fn sized(self) -> bool {
        &&& self.cells.len() == BUFFER_HEIGHT
        &&& forall|r: int| 0 <= r < BUFFER_HEIGHT ==> (#[trigger] self.cells[r]).len() == BUFFER_WIDTH
    }

    /// The grid has its dimensions and the cursor lies inside it.
    pub open spec fn wf(self) -> bool {
        &&& self.sized()
        &&& in_grid(self.row, self.col)
    }

    /// Exactly one cell is highlighted, the one under the cursor, and typing
    /// does not produce highlighted cells.
    pub open spec fn marked(self) -> bool {
        &&& self.wf()
        &&& self.color != highlight()
        &&& forall|r: int, c: int|
            in_grid(r, c) ==> ((#[trigger] self.cells[r][c]).color_code == highlight() <==> r
                == self.row && c == self.col)
    }

    pub open spec fn set(self, r: int, c: int, cell: ScreenChar) -> Screen {
        Screen { cells: self.cells.update(r, self.cells[r].update(c, cell)), ..self }
    }

    pub open spec fn move_to(self, r: int, c: int) -> Screen {
        Screen { row: r, col: c, ..self }
    }

    /// Stamps the normal attribute on a cell and keeps its character.
    pub open spec fn light_down(self, r: int, c: int) -> Screen {
        self.set(r, c, ScreenChar { color_code: normal(), ..self.cells[r][c] })
    }

    /// Stamps the highlight attribute on a cell and keeps its character.
    pub open spec fn light_up(self, r: int, c: int) -> Screen {
        self.set(r, c, ScreenChar { color_code: highlight(), ..self.cells[r][c] })
    }

    /// The rows moved up by one: the top row is gone, the bottom row is blank.
    pub open spec fn scrolled(self) -> Screen {
        Screen { cells: self.cells.drop_first().push(blank_row()), ..self }
    }

    /// Ends the line: a marker where the cursor was, the cursor at the start
    /// of the next row, and a scroll if there is no next row.
    pub open spec fn new_line(self) -> Screen {
        let ended = self.set(self.row, self.col, marker());
        let moved = if self.row + 1 < BUFFER_HEIGHT {
            ended.move_to(self.row + 1, 0)
        } else {
            ended.scrolled().move_to(BUFFER_HEIGHT - 1, 0)
        };
        moved.light_up(moved.row, 0)
    }

    /// Types one byte. In the last column the line is ended first, so that
    /// column never receives a character.
    pub open spec fn write(self, byte: u8) -> Screen {
        if byte == LINE_FEED {
            self.new_line()
        } else {
            let start = if self.col == BUFFER_WIDTH - 1 {
                self.new_line()
            } else {
                self
            };
            let typed = ScreenChar { ascii_character: glyph_of(byte), color_code: self.color };
            start.set(start.row, start.col, typed).move_to(start.row, start.col + 1).light_up(
                start.row,
                start.col + 1,
            )
        }
    }

    /// Types the bytes one after the other.
    pub open spec fn write_all(self, bytes: Seq<u8>) -> Screen
        decreases bytes.len(),
    {
        if bytes.len() == 0 {
            self
        } else {
            self.write_all(bytes.drop_last()).write(bytes.last())
        }
    }

    /// Carries the highlight from the cursor to another cell.
    pub open spec fn cursor_to(self, r: int, c: int) -> Screen {
        self.light_down(self.row, self.col).move_to(r, c).light_up(r, c)
    }

    pub open spec fn move_up(self) -> Screen {
        if self.row > 0 {
            self.cursor_to(self.row - 1, self.col)
        } else {
            self
        }
    }

    pub open spec fn move_down(self) -> Screen {
        if self.row < BUFFER_HEIGHT - 1 {
            self.cursor_to(self.row + 1, self.col)
        } else {
            self
        }
    }

    /// One cell forward, from the end of a row to the start of the next. In
    /// the last cell of the grid the cursor stays where it is.
    pub open spec fn move_right(self) -> Screen {
        if self.col < BUFFER_WIDTH - 1 {
            self.cursor_to(self.row, self.col + 1)
        } else if self.row < BUFFER_HEIGHT - 1 {
            self.cursor_to(self.row + 1, 0)
        } else {
            self
        }
    }

    /// One cell back, from the start of a row to the end of the one before.
    /// In the first cell of the grid the cursor stays where it is.
    pub open spec fn move_left(self) -> Screen {
        if self.col > 0 {
            self.cursor_to(self.row, self.col - 1)
        } else if self.row > 0 {
            self.cursor_to(self.row - 1, BUFFER_WIDTH - 1)
        } else {
            self
        }
    }

    /// The cursor's cell without its highlight. While erasing walks up, the
    /// cursor may stand one past the end of a row, where there is no cell.
    pub open spec fn dimmed(self) -> Screen {
        if self.col < BUFFER_WIDTH {
            self.light_down(self.row, self.col)
        } else {
            self
        }
    }

    /// Blanks the cell before the cursor and puts the cursor on it.
    pub open spec fn rub_out(self) -> Screen {
        self.set(self.row, self.col - 1, blank()).move_to(self.row, self.col - 1).light_up(
            self.row,
            self.col - 1,
        )
    }

    /// The cursor on the row above, just past what that row holds.
    pub open spec fn line_up(self) -> Screen {
        self.move_to(self.row - 1, line_end(self.cells[self.row - 1]))
    }

    /// Erases the character before the cursor. At the start of a row that is
    /// the end of the text above: the cursor goes up row by row until it finds
    /// a row that was ended by a line feed, and takes that marker away. In the
    /// first cell of the grid there is nothing to erase.
    pub open spec fn backspace(self) -> Screen
        decreases self.row,
    {
        let dimmed = self.dimmed();
        if self.col > 0 {
            dimmed.rub_out()
        } else if self.row > 0 {
            dimmed.line_up().backspace()
        } else {
            dimmed.light_up(0, 0)
        }
    }
}

} // verus!
