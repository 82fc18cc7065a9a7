//! How typing, line feeds and erasing play out over several steps: wrapping
//! at the last column, scrolling at the last row, and joining lines when a
//! line start is erased.

use vstd::prelude::*;
use crate::screen::{
    blank,
    glyph_of,
    highlight,
    in_grid,
    line_end,
    marker,
    normal,
    Screen,
    LINE_FEED,
};
use crate::upkeep::{line_end_is_past_last_marker, new_line_keeps_invariant};
use crate::vga_buffer::{ScreenChar, BUFFER_HEIGHT, BUFFER_WIDTH};

verus! {

/// A cell with the highlight attribute and the same character.
pub open spec fn lit(cell: ScreenChar) -> ScreenChar {
    ScreenChar { color_code: highlight(), ..cell }
}

/// A cell with the normal attribute and the same character.
pub open spec fn unlit(cell: ScreenChar) -> ScreenChar {
    ScreenChar { color_code: normal(), ..cell }
}

/// The cell that typing `byte` leaves behind.
pub open spec fn typed(screen: Screen, byte: u8) -> ScreenChar {
    ScreenChar { ascii_character: glyph_of(byte), color_code: screen.color }
}

pub open spec fn no_line_feed(bytes: Seq<u8>) -> bool {
    forall|i: int| 0 <= i < bytes.len() ==> bytes[i] != LINE_FEED
}

/// Typing that ends before the last column stays on its row: the bytes stand
/// side by side from where the cursor was, the cursor follows them, and
/// nothing else changes.
pub proof fn typing_stays_on_the_row(s: Screen, bytes: Seq<u8>)
    requires
        s.wf(),
        no_line_feed(bytes),
        0 < bytes.len(),
        s.col + bytes.len() <= BUFFER_WIDTH - 1,
    ensures
        s.write_all(bytes).wf(),
        s.write_all(bytes).row == s.row,
        s.write_all(bytes).col == s.col + bytes.len(),
        s.write_all(bytes).color == s.color,
        forall|r: int, c: int|
            in_grid(r, c) ==> #[trigger] s.write_all(bytes).cells[r][c] == (if r == s.row && s.col
                <= c < s.col + bytes.len() {
                typed(s, bytes[c - s.col])
            } else if r == s.row && c == s.col + bytes.len() {
                lit(s.cells[r][c])
            } else {
                s.cells[r][c]
            }),
    decreases bytes.len(),
{
    let front = bytes.drop_last();
    let before = s.write_all(front);
    if front.len() > 0 {
        assert forall|i: int| 0 <= i < front.len() implies front[i] != LINE_FEED by {
            assert(front[i] == bytes[i]);
        }
        typing_stays_on_the_row(s, front);
    }
    let after = before.write(bytes.last());
    assert(after == s.write_all(bytes));
    assert forall|r: int, c: int| in_grid(r, c) implies #[trigger] after.cells[r][c] == (if r
        == s.row && s.col <= c < s.col + bytes.len() {
        typed(s, bytes[c - s.col])
    } else if r == s.row && c == s.col + bytes.len() {
        lit(s.cells[r][c])
    } else {
        s.cells[r][c]
    }) by {
        if r == s.row && s.col <= c < s.col + front.len() {
            assert(front[c - s.col] == bytes[c - s.col]);
        }
    }
}

/// Eighty characters typed from the start of a row wrap exactly once, and
/// the wrap comes before the eightieth is placed: seventy-nine of them fill
/// the row up to its last column, which takes the line-feed marker instead,
/// and the eightieth opens the next row. On the last row of the grid the
/// next row is made by scrolling once.
pub proof fn eighty_characters_wrap_once(s: Screen, bytes: Seq<u8>)
    requires
        s.wf(),
        s.col == 0,
        bytes.len() == BUFFER_WIDTH,
        no_line_feed(bytes),
    ensures
        ({
            let t = s.write_all(bytes);
            let scrolls: int = if s.row == BUFFER_HEIGHT - 1 {
                1
            } else {
                0
            };
            &&& t.wf()
            &&& t.row == s.row + 1 - scrolls
            &&& t.col == 1
            &&& forall|r: int, c: int|
                in_grid(r, c) ==> #[trigger] t.cells[r][c] == (if r == t.row - 1 {
                    if c < BUFFER_WIDTH - 1 {
                        typed(s, bytes[c])
                    } else {
                        marker()
                    }
                } else if r == t.row && c == 0 {
                    typed(s, bytes[BUFFER_WIDTH - 1])
                } else {
                    let old = if r + scrolls < BUFFER_HEIGHT {
                        s.cells[r + scrolls][c]
                    } else {
                        blank()
                    };
                    if r == t.row && c == 1 {
                        lit(old)
                    } else {
                        old
                    }
                })
        }),
{
    let front = bytes.drop_last();
    assert forall|i: int| 0 <= i < front.len() implies front[i] != LINE_FEED by {
        assert(front[i] == bytes[i]);
    }
    typing_stays_on_the_row(s, front);
    let full = s.write_all(front);
    new_line_keeps_invariant(full);
    let t = full.write(bytes.last());
    assert(t == s.write_all(bytes));
    let scrolls: int = if s.row == BUFFER_HEIGHT - 1 {
        1
    } else {
        0
    };
    assert forall|r: int, c: int| in_grid(r, c) implies #[trigger] t.cells[r][c] == (if r == t.row
        - 1 {
        if c < BUFFER_WIDTH - 1 {
            typed(s, bytes[c])
        } else {
            marker()
        }
    } else if r == t.row && c == 0 {
        typed(s, bytes[BUFFER_WIDTH - 1])
    } else {
        let old = if r + scrolls < BUFFER_HEIGHT {
            s.cells[r + scrolls][c]
        } else {
            blank()
        };
        if r == t.row && c == 1 {
            lit(old)
        } else {
            old
        }
    }) by {
        if c < BUFFER_WIDTH - 1 {
            assert(front[c] == bytes[c]);
        }
    }
}

/// `count` line feeds.
pub open spec fn line_feeds(count: nat) -> Seq<u8> {
    Seq::new(count, |i: int| LINE_FEED)
}

/// How many rows have left the grid at the top after `count` line feeds.
pub open spec fn rows_lost(s: Screen, count: int) -> int {
    if s.row + count > BUFFER_HEIGHT - 1 {
        s.row + count - (BUFFER_HEIGHT - 1)
    } else {
        0
    }
}

/// The cell at `(r, c)` after `count` line feeds, one or more, in terms of
/// the grid before them. Row `r` then shows what was row `r + rows_lost`, or
/// a blank row where the old grid had no such row. The first line feed left
/// its marker where the cursor stood, each later one at the start of its row.
pub open spec fn cell_after_line_feeds(s: Screen, count: int, r: int, c: int) -> ScreenChar {
    let from = r + rows_lost(s, count);
    let old = if from < BUFFER_HEIGHT {
        s.cells[from][c]
    } else {
        blank()
    };
    if from == s.row + count {
        if c == 0 {
            lit(old)
        } else {
            old
        }
    } else if from == s.row && c == s.col {
        marker()
    } else if s.row < from < s.row + count && c == 0 {
        marker()
    } else {
        old
    }
}

/// What any number of line feeds in a row does: the cursor goes down to the
/// start of a row, stopping at the last one, and every line feed beyond that
/// pushes one row off the top.
pub proof fn line_feeds_in_a_row(s: Screen, count: nat)
    requires
        s.wf(),
        count >= 1,
    ensures
        s.write_all(line_feeds(count)).wf(),
        s.write_all(line_feeds(count)).row == s.row + count - rows_lost(s, count as int),
        s.write_all(line_feeds(count)).col == 0,
        s.write_all(line_feeds(count)).color == s.color,
        forall|r: int, c: int|
            in_grid(r, c) ==> #[trigger] s.write_all(line_feeds(count)).cells[r][c]
                == cell_after_line_feeds(s, count as int, r, c),
    decreases count,
{
    let fewer = line_feeds((count - 1) as nat);
    assert(line_feeds(count).drop_last() =~= fewer);
    let before = s.write_all(fewer);
    let after = before.new_line();
    assert(after == s.write_all(line_feeds(count)));
    if count > 1 {
        line_feeds_in_a_row(s, (count - 1) as nat);
    }
    new_line_keeps_invariant(before);
    let lost = rows_lost(s, count as int);
    assert forall|r: int, c: int| in_grid(r, c) implies #[trigger] after.cells[r][c]
        == cell_after_line_feeds(s, count as int, r, c) by {
        if before.row + 1 < BUFFER_HEIGHT {
            assert(after.cells[r][c] == before.set(before.row, before.col, marker()).light_up(
                before.row + 1,
                0,
            ).cells[r][c]);
        } else if r + 1 < BUFFER_HEIGHT {
            assert(after.cells[r][c] == before.set(before.row, before.col, marker()).cells[r
                + 1][c]);
            if count > 1 {
                assert(before.cells[r + 1][c] == cell_after_line_feeds(
                    s,
                    count - 1,
                    r + 1,
                    c,
                ));
            }
        }
    }
}

/// A screenful of line feeds leaves the cursor at the start of the last row
/// and nothing of the top row, nor of any row down to the cursor's: each
/// cell is a marker, blank, or comes from a row that was below the cursor.
pub proof fn a_screenful_of_line_feeds(s: Screen)
    requires
        s.wf(),
    ensures
        ({
            let t = s.write_all(line_feeds(BUFFER_HEIGHT as nat));
            &&& t.wf()
            &&& t.row == BUFFER_HEIGHT - 1
            &&& t.col == 0
            &&& forall|r: int, c: int|
                in_grid(r, c) ==> #[trigger] t.cells[r][c] == (if r == BUFFER_HEIGHT - 1 {
                    if c == 0 {
                        lit(blank())
                    } else {
                        blank()
                    }
                } else if c == 0 {
                    marker()
                } else if r + s.row + 1 < BUFFER_HEIGHT {
                    s.cells[r + s.row + 1][c]
                } else {
                    blank()
                })
        }),
{
    line_feeds_in_a_row(s, BUFFER_HEIGHT as nat);
    let t = s.write_all(line_feeds(BUFFER_HEIGHT as nat));
    assert forall|r: int, c: int| in_grid(r, c) implies #[trigger] t.cells[r][c] == (if r
        == BUFFER_HEIGHT - 1 {
        if c == 0 {
            lit(blank())
        } else {
            blank()
        }
    } else if c == 0 {
        marker()
    } else if r + s.row + 1 < BUFFER_HEIGHT {
        s.cells[r + s.row + 1][c]
    } else {
        blank()
    }) by {
        assert(t.cells[r][c] == cell_after_line_feeds(s, BUFFER_HEIGHT as int, r, c));
    }
}

/// Erasing in the middle of a row blanks the cell before the cursor and
/// steps onto it.
pub proof fn backspace_within_a_row(s: Screen)
    requires
        s.wf(),
        s.col > 0,
    ensures
        s.backspace().row == s.row,
        s.backspace().col == s.col - 1,
        forall|r: int, c: int|
            in_grid(r, c) ==> #[trigger] s.backspace().cells[r][c] == (if r == s.row && c == s.col
                - 1 {
                lit(blank())
            } else if r == s.row && c == s.col {
                unlit(s.cells[r][c])
            } else {
                s.cells[r][c]
            }),
{
}

/// Erasing at the start of a row, when the row above was ended by a line
/// feed: the cursor lands just past that row's last marker and erases it, so
/// it ends on the cell where the marker was. The cell it left and the one it
/// landed on lose their highlight; no other cell changes.
pub proof fn backspace_joins_the_line_above(s: Screen)
    requires
        s.wf(),
        s.col == 0,
        s.row > 0,
        line_end(s.cells[s.row - 1]) > 0,
    ensures
        ({
            let end = line_end(s.cells[s.row - 1]);
            let t = s.backspace();
            &&& end <= BUFFER_WIDTH
            &&& s.cells[s.row - 1][end - 1].ascii_character == LINE_FEED
            &&& forall|c: int|
                end <= c < BUFFER_WIDTH ==> (#[trigger] s.cells[s.row - 1][c]).ascii_character
                    != LINE_FEED
            &&& t.row == s.row - 1
            &&& t.col == end - 1
            &&& forall|r: int, c: int|
                in_grid(r, c) ==> #[trigger] t.cells[r][c] == (if r == s.row - 1 && c == end - 1 {
                    lit(blank())
                } else if (r == s.row - 1 && c == end) || (r == s.row && c == 0) {
                    unlit(s.cells[r][c])
                } else {
                    s.cells[r][c]
                })
        }),
{
    line_end_is_past_last_marker(s.cells[s.row - 1]);
    let up = s.dimmed().line_up();
    assert(up.cells[s.row - 1] == s.cells[s.row - 1]);
    assert(s.backspace() == up.backspace());
    assert(up.backspace() == up.dimmed().rub_out());
}

/// Erasing at the start of a row, when the row above holds no line feed:
/// the cursor's cell loses its highlight and erasing goes on from the start
/// of the row above.
pub proof fn backspace_passes_unended_rows(s: Screen)
    requires
        s.wf(),
        s.col == 0,
        s.row > 0,
        line_end(s.cells[s.row - 1]) == 0,
    ensures
        s.backspace() == s.light_down(s.row, 0).move_to(s.row - 1, 0).backspace(),
{
    assert(s.dimmed().cells[s.row - 1] == s.cells[s.row - 1]);
}

/// In the first cell of the grid there is nothing before the cursor. Erasing
/// there leaves every character and the cursor where they are, however often
/// it is repeated; with the cursor highlighted as it always is between
/// commands, nothing changes at all.
pub proof fn backspace_at_the_start(s: Screen)
    requires
        s.wf(),
        s.row == 0,
        s.col == 0,
    ensures
        s.backspace() == s.light_up(0, 0),
        s.backspace().backspace() == s.backspace(),
        s.marked() ==> s.backspace() == s,
{
    let t = s.light_up(0, 0);
    assert(t.dimmed().light_up(0, 0).cells =~~= t.cells);
    assert(s.dimmed().light_up(0, 0).cells =~~= t.cells);
    if s.marked() {
        assert(t.cells =~~= s.cells);
    }
}

} // verus!
