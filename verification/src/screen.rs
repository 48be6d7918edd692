//! The geometry of the screen: a header of one row, the conversation in the
//! middle, and the input in three rows at the bottom.

use vstd::prelude::*;
use crate::editor::{Ui, UiState};
use crate::session::Identity;
use crate::text::{display_width, str_width, texts};

verus! {

/// Rows of the header.
pub const HEADER_ROWS: u16 = 1;

/// Rows of the input region, its border included.
pub const INPUT_ROWS: u16 = 3;

/// Rows that the border and margin of the conversation take, and as many
/// again for those of the input.
pub const FRAME_ROWS: u16 = 2;

/// The column of the first character of the input.
pub const FIRST_COLUMN: u16 = 2;

/// The number of lines of the conversation that fit on a screen of `height`
/// rows: what the header and the two frames leave, and none on a screen too
/// small for them.
pub open spec fn history_rows(height: int) -> int {
    if height >= HEADER_ROWS + FRAME_ROWS + FRAME_ROWS {
        height - HEADER_ROWS - FRAME_ROWS - FRAME_ROWS
    } else {
        0
    }
}

/// The last `count` entries of `lines`, oldest first; all of them where
/// there are no more.
pub open spec fn trailing(lines: Seq<Seq<char>>, count: int) -> Seq<Seq<char>> {
    if count >= lines.len() {
        lines
    } else if count <= 0 {
        Seq::empty()
    } else {
        lines.subrange(lines.len() - count, lines.len() as int)
    }
}

/// The lines of the conversation that a screen of `height` rows shows.
pub open spec fn visible(ui: UiState, height: int) -> Seq<Seq<char>> {
    trailing(ui.history, history_rows(height))
}

/// The column of a cursor that stands `cursor_offset` columns before the
/// end of a text `width` columns wide: as far behind the first column as the
/// text in front of the cursor is wide, and no further than a column number
/// can say.
pub open spec fn column_for(width: nat, cursor_offset: nat) -> int {
    let ahead = if cursor_offset <= width {
        width - cursor_offset
    } else {
        0
    };
    if FIRST_COLUMN + ahead <= u16::MAX {
        FIRST_COLUMN + ahead
    } else {
        u16::MAX as int
    }
}

/// The column at which the cursor is drawn.
pub open spec fn cursor_column(ui: UiState) -> int {
    column_for(display_width(ui.input), ui.cursor_offset)
}

/// The row at which the cursor is drawn: one above the last.
pub open spec fn cursor_row(height: int) -> int {
    if height >= 1 {
        height - 1
    } else {
        0
    }
}

/// The text of the header.
pub open spec fn header_text(group: Seq<char>) -> Seq<char> {
    "Group: "@ + group
}

/// Counts the lines of the conversation that fit on a screen of `height`
/// rows.
pub fn rows_for_history(height: u16) -> (rows: usize)
    ensures
        rows == history_rows(height as int),
{
    let taken: u16 = HEADER_ROWS + FRAME_ROWS + FRAME_ROWS;
    if height >= taken {
        (height - taken) as usize
    } else {
        0
    }
}

/// Copies the last `count` entries of `lines`, oldest first.
pub fn last_lines(lines: &Vec<String>, count: usize) -> (shown: Vec<String>)
    ensures
        texts(shown@) == trailing(texts(lines@), count as int),
{
    let len: usize = lines.len();
    let start: usize = if count >= len {
        0
    } else {
        len - count
    };
    let mut shown: Vec<String> = Vec::new();
    let mut i: usize = start;
    while i < len
        invariant
            len == lines@.len(),
            start <= i <= len,
            texts(shown@) == texts(lines@).subrange(start as int, i as int),
        decreases len - i,
    {
        let ghost before = texts(shown@);
        shown.push(lines[i].clone());
        i += 1;
        assert(texts(shown@) =~= before.push(lines@[i - 1]@));
        assert(texts(shown@) =~= texts(lines@).subrange(start as int, i as int));
    }
    assert(texts(lines@).subrange(0, len as int) =~= texts(lines@));
    assert(texts(shown@) =~= trailing(texts(lines@), count as int));
    shown
}

/// Where a cursor is drawn that stands `cursor_offset` columns before the
/// end of a text `width` columns wide, on a screen of `height` rows: the
/// column, then the row.
pub fn cursor_cell(width: usize, cursor_offset: usize, height: u16) -> (at: (u16, u16))
    ensures
        at.0 == column_for(width as nat, cursor_offset as nat),
        at.1 == cursor_row(height as int),
{
    let ahead: usize = if cursor_offset <= width {
        width - cursor_offset
    } else {
        0
    };
    let column: u16 = if ahead <= (u16::MAX - FIRST_COLUMN) as usize {
        FIRST_COLUMN + ahead as u16
    } else {
        u16::MAX
    };
    let row: u16 = if height >= 1 {
        height - 1
    } else {
        0
    };
    (column, row)
}

impl Ui {
    /// The lines of the conversation that a screen of `height` rows shows.
    pub fn visible_history(&self, height: u16) -> (shown: Vec<String>)
        ensures
            texts(shown@) == visible(self@, height as int),
    {
        last_lines(&self.history, rows_for_history(height))
    }

    /// Where the cursor is drawn on a screen of `height` rows: the column,
    /// then the row.
    pub fn cursor_position(&self, height: u16) -> (at: (u16, u16))
        ensures
            at.0 == cursor_column(self@),
            at.1 == cursor_row(height as int),
    {
        let width: usize = str_width(self.input.as_str());
        cursor_cell(width, self.cursor_offset, height)
    }
}

impl Identity {
    /// The text of the header: the group that the user is in.
    pub fn header(&self) -> (line: String)
        ensures
            line@ == header_text(self@.group),
    {
        let mut line = String::from_str("Group: ");
        line.append(self.group.as_str());
        line
    }
}

} // verus!
