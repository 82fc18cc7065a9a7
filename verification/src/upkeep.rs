//! What every editing command keeps: the cursor inside the grid, and exactly
//! one highlighted cell, the cursor's.

use vstd::prelude::*;
use crate::screen::{highlight, in_grid, line_end, Screen, LINE_FEED};
use crate::vga_buffer::{ScreenChar, BUFFER_HEIGHT, BUFFER_WIDTH};

verus! {

/// `line_end` is one past the last marker of the row: the cell before it
/// holds a line feed, no cell from it on does, and it is 0 exactly when the
/// row holds no line feed at all.
pub proof fn line_end_is_past_last_marker(line: Seq<ScreenChar>)
    ensures
        0 <= line_end(line) <= line.len(),
        line_end(line) > 0 ==> line[line_end(line) - 1].ascii_character == LINE_FEED,
        forall|k: int| line_end(line) <= k < line.len() ==> line[k].ascii_character != LINE_FEED,
    decreases line.len(),
{
    if line.len() > 0 && line.last().ascii_character != LINE_FEED {
        let front = line.drop_last();
        line_end_is_past_last_marker(front);
        assert forall|k: int| line_end(line) <= k < line.len() implies line[k].ascii_character
            != LINE_FEED by {
            if k < front.len() {
                assert(front[k] == line[k]);
            }
        }
    }
}

impl Screen {
    /// No cell but, possibly, the cursor's is highlighted.
    pub open spec fn dark_elsewhere(self) -> bool {
        forall|r: int, c: int|
            in_grid(r, c) && !(r == self.row && c == self.col) ==> (
            #[trigger] self.cells[r][c]).color_code != highlight()
    }
}

/// A line feed leaves the cursor at the start of a row inside the grid, and
/// the highlight goes with it.
pub proof fn new_line_keeps_invariant(s: Screen)
    requires
        s.wf(),
    ensures
        s.new_line().wf(),
        s.new_line().col == 0,
        s.marked() ==> s.new_line().marked(),
{
}

/// Typing a byte keeps the cursor inside the grid and the highlight on it.
pub proof fn write_keeps_invariant(s: Screen, byte: u8)
    requires
        s.wf(),
    ensures
        s.write(byte).wf(),
        s.marked() ==> s.write(byte).marked(),
{
    new_line_keeps_invariant(s);
}

/// So does typing any number of bytes.
pub proof fn write_all_keeps_invariant(s: Screen, bytes: Seq<u8>)
    requires
        s.wf(),
    ensures
        s.write_all(bytes).wf(),
        s.marked() ==> s.write_all(bytes).marked(),
    decreases bytes.len(),
{
    if bytes.len() > 0 {
        write_all_keeps_invariant(s, bytes.drop_last());
        write_keeps_invariant(s.write_all(bytes.drop_last()), bytes.last());
    }
}

/// The four cursor movements stay inside the grid, at its edges too, and
/// carry the highlight along.
pub proof fn moves_keep_invariant(s: Screen)
    requires
        s.wf(),
    ensures
        s.move_up().wf(),
        s.move_down().wf(),
        s.move_left().wf(),
        s.move_right().wf(),
        s.marked() ==> s.move_up().marked() && s.move_down().marked() && s.move_left().marked()
            && s.move_right().marked(),
{
}

/// Erasing ends inside the grid with the cursor highlighted, also from the
/// positions one past the end of a row that it passes through on its way up.
pub proof fn backspace_keeps_invariant(s: Screen)
    requires
        s.sized(),
        0 <= s.row < BUFFER_HEIGHT,
        0 <= s.col <= BUFFER_WIDTH,
    ensures
        s.backspace().wf(),
        s.backspace().color == s.color,
        s.color != highlight() && s.dark_elsewhere() ==> s.backspace().marked(),
    decreases s.row,
{
    if s.col == 0 && s.row > 0 {
        let up = s.dimmed().line_up();
        line_end_is_past_last_marker(s.dimmed().cells[s.row - 1]);
        backspace_keeps_invariant(up);
    }
}

} // verus!
