//! The screen composer: turns the cursor state and the visible part of the
//! line store into the text of one frame.

use vstd::prelude::*;
use vstd::string::StrSliceExecFns;
use crate::cursor_controller::CursorController;
use crate::cursor_controller::CursorState;
use crate::cursor_controller::is_direction;
use crate::cursor_controller::lemma_empty_store_stays_at_origin;
use crate::cursor_controller::DOWN;
use crate::cursor_controller::RIGHT;
use crate::editor_contents::EditorContents;
use crate::editor_contents::clear_line_code;
use crate::editor_contents::hide_cursor_code;
use crate::editor_contents::move_to_code;
use crate::editor_contents::show_cursor_code;
use crate::editor_rows::EditorRows;

verus! {

/// The glyph shown in a screen row that lies past the end of the store.
pub const FILLER: char = '~';

/// What a screen row shows of the store's line `file_row` on a screen of
/// `cols` columns: the line's first `cols` characters (the whole line where
/// it is shorter), or the filler glyph where the store has no such line.
pub open spec fn row_span(lines: Seq<Seq<char>>, file_row: int, cols: nat) -> Seq<char> {
    if 0 <= file_row < lines.len() {
        if lines[file_row].len() <= cols {
            lines[file_row]
        } else {
            lines[file_row].take(cols as int)
        }
    } else {
        seq![FILLER]
    }
}

/// The line break that ends every screen row but the last of `rows`.
pub open spec fn row_end(i: int, rows: nat) -> Seq<char> {
    if i < rows - 1 {
        seq!['\r', '\n']
    } else {
        Seq::<char>::empty()
    }
}

/// The text of screen row `i` of `rows`, with the store's line `row_offset`
/// at the top: the row's span, the code that clears the rest of the line,
/// and the line break.
pub open spec fn row_text(lines: Seq<Seq<char>>, row_offset: nat, cols: nat, rows: nat, i: int) -> Seq<char> {
    row_span(lines, i + row_offset, cols) + clear_line_code() + row_end(i, rows)
}

/// The text of the first `n` screen rows, from the top down.
pub open spec fn rows_text(lines: Seq<Seq<char>>, row_offset: nat, cols: nat, rows: nat, n: int) -> Seq<char>
    decreases n,
{
    if n <= 0 {
        Seq::<char>::empty()
    } else {
        rows_text(lines, row_offset, cols, rows, n - 1) + row_text(lines, row_offset, cols, rows, n - 1)
    }
}

/// The text of one whole frame: the cursor is hidden and put in the top left
/// corner, every row of the screen is drawn, then the cursor is put where
/// `cursor` has it and shown again.
pub open spec fn frame_text(cursor: CursorState, lines: Seq<Seq<char>>, cols: nat, rows: nat) -> Seq<char> {
    hide_cursor_code() + move_to_code(0, 0) + rows_text(lines, cursor.row_offset, cols, rows, rows as int)
        + move_to_code(cursor.cursor_x, cursor.cursor_y) + show_cursor_code()
}

/// The text of the first `n` rows of a screen of `rows` rows that shows
/// nothing but the filler glyph.
pub open spec fn filler_rows_text(rows: nat, n: int) -> Seq<char>
    decreases n,
{
    if n <= 0 {
        Seq::<char>::empty()
    } else {
        filler_rows_text(rows, n - 1) + (seq![FILLER] + clear_line_code() + row_end(n - 1, rows))
    }
}

/// A row's span is the start of its line and never wider than the screen.
pub proof fn lemma_span_is_clipped(lines: Seq<Seq<char>>, file_row: int, cols: nat)
    requires
        0 <= file_row < lines.len(),
    ensures
        row_span(lines, file_row, cols).len() <= cols,
        row_span(lines, file_row, cols).len() <= lines[file_row].len(),
        row_span(lines, file_row, cols).len() == cols || row_span(lines, file_row, cols).len() == lines[file_row].len(),
        row_span(lines, file_row, cols) == lines[file_row].take(row_span(lines, file_row, cols).len() as int),
{
}

/// Over an empty store every row of the screen is a filler row, whatever the
/// scroll offset and the size of the screen.
pub proof fn lemma_empty_store_rows(row_offset: nat, cols: nat, rows: nat, n: int)
    ensures
        rows_text(Seq::<Seq<char>>::empty(), row_offset, cols, rows, n) == filler_rows_text(rows, n),
    decreases n,
{
    if n > 0 {
        lemma_empty_store_rows(row_offset, cols, rows, n - 1);
    }
}

/// The frame of an empty store: as many filler rows as the screen has rows,
/// between the codes that hide the cursor and put it in the top left corner
/// and the codes that put it where the state has it and show it.
pub proof fn lemma_empty_store_frame(cursor: CursorState, cols: nat, rows: nat)
    ensures
        frame_text(cursor, Seq::<Seq<char>>::empty(), cols, rows) == hide_cursor_code() + move_to_code(0, 0)
            + filler_rows_text(rows, rows as int) + move_to_code(cursor.cursor_x, cursor.cursor_y)
            + show_cursor_code(),
{
    lemma_empty_store_rows(cursor.row_offset, cols, rows, rows as int);
}

/// Whatever movements were made over an empty store from the state at the
/// start, on a screen of whatever size, the frame shows as many filler rows
/// as the screen has rows and puts the cursor in the top left corner.
pub proof fn lemma_empty_store_frame_after_moves(
    directions: Seq<char>,
    moved_cols: nat,
    moved_rows: nat,
    cols: nat,
    rows: nat,
)
    ensures
        frame_text(
            CursorState::origin().moved_all(directions, Seq::<Seq<char>>::empty(), moved_cols, moved_rows),
            Seq::<Seq<char>>::empty(),
            cols,
            rows,
        ) == hide_cursor_code() + move_to_code(0, 0) + filler_rows_text(rows, rows as int) + move_to_code(0, 0)
            + show_cursor_code(),
{
    lemma_empty_store_stays_at_origin(directions, moved_cols, moved_rows);
    lemma_empty_store_frame(CursorState::origin(), cols, rows);
}

/// The composer's state: the frame buffer, the cursor and the line store.
pub struct Output {
    /// The text of the frame that is being composed.
    pub editor_contents: EditorContents,
    /// The cursor and the scroll offset.
    pub cursor_controller: CursorController,
    /// The lines that are shown.
    pub editor_rows: EditorRows,
}

impl Output {
    /// A composer over `editor_rows`, with an empty frame buffer and the
    /// cursor in the top left corner.
    pub fn new(editor_rows: EditorRows) -> (output: Output)
        ensures
            output.editor_contents@ == Seq::<char>::empty(),
            output.cursor_controller@ == CursorState::origin(),
            output.editor_rows == editor_rows,
    {
        Output {
            editor_contents: EditorContents::new(),
            cursor_controller: CursorController::new(),
            editor_rows,
        }
    }

    /// Appends the text of all rows of a screen of `win_size` (columns, rows)
    /// to the frame buffer.
    pub fn draw_rows(&mut self, win_size: (usize, usize))
        ensures
            final(self).editor_contents@ == old(self).editor_contents@ + rows_text(
                old(self).editor_rows@,
                old(self).cursor_controller@.row_offset,
                win_size.0 as nat,
                win_size.1 as nat,
                win_size.1 as int,
            ),
            final(self).cursor_controller == old(self).cursor_controller,
            final(self).editor_rows == old(self).editor_rows,
    {
        let screen_rows = win_size.1;
        let screen_columns = win_size.0;
        let number_of_rows = self.editor_rows.number_of_rows();
        let row_offset = self.cursor_controller.row_offset;
        let ghost lines = self.editor_rows@;
        let ghost before = self.editor_contents@;
        let mut i: usize = 0;
        while i < screen_rows
            invariant
                i <= screen_rows,
                screen_rows == win_size.1,
                screen_columns == win_size.0,
                number_of_rows == lines.len(),
                row_offset == self.cursor_controller.row_offset,
                lines == self.editor_rows@,
                self.cursor_controller == old(self).cursor_controller,
                self.editor_rows == old(self).editor_rows,
                self.editor_contents@ == before + rows_text(
                    lines,
                    row_offset as nat,
                    screen_columns as nat,
                    screen_rows as nat,
                    i as int,
                ),
            decreases screen_rows - i,
        {
            let ghost drawn = self.editor_contents@;
            let shown = match i.checked_add(row_offset) {
                Some(file_row) => if file_row < number_of_rows { Some(file_row) } else { None },
                None => None,
            };
            match shown {
                None => {
                    self.editor_contents.push(FILLER);
                    assert(self.editor_contents@ == drawn + seq![FILLER]);
                },
                Some(file_row) => {
                    let row = self.editor_rows.get_row(file_row);
                    let row_length = row.unicode_len();
                    if row_length <= screen_columns {
                        self.editor_contents.push_str(row);
                    } else {
                        self.editor_contents.push_str(row.substring_char(0, screen_columns));
                    }
                },
            }
            self.editor_contents.queue_clear_line();
            if i < screen_rows - 1 {
                proof {
                    reveal_strlit("\r\n");
                }
                self.editor_contents.push_str("\r\n");
            }
            assert(self.editor_contents@ == drawn + row_text(
                lines,
                row_offset as nat,
                screen_columns as nat,
                screen_rows as nat,
                i as int,
            ));
            i = i + 1;
        }
    }

    /// Composes one frame for a screen of `win_size` (columns, rows) into
    /// the frame buffer. Neither the cursor nor the store changes.
    pub fn refresh_screen(&mut self, win_size: (usize, usize))
        requires
            old(self).cursor_controller.cursor_x < u16::MAX,
            old(self).cursor_controller.cursor_y < u16::MAX,
        ensures
            final(self).editor_contents@ == old(self).editor_contents@ + frame_text(
                old(self).cursor_controller@,
                old(self).editor_rows@,
                win_size.0 as nat,
                win_size.1 as nat,
            ),
            final(self).cursor_controller == old(self).cursor_controller,
            final(self).editor_rows == old(self).editor_rows,
    {
        self.editor_contents.queue_hide_cursor();
        self.editor_contents.queue_move_to(0, 0);
        self.draw_rows(win_size);
        let cursor_x = self.cursor_controller.cursor_x;
        let cursor_y = self.cursor_controller.cursor_y;
        self.editor_contents.queue_move_to(cursor_x as u16, cursor_y as u16);
        self.editor_contents.queue_show_cursor();
    }

    /// Moves the cursor one step in `direction` over the store.
    pub fn move_cursor(&mut self, direction: char, win_size: (usize, usize))
        requires
            is_direction(direction),
            direction == DOWN ==> win_size.1 >= 1,
            direction == RIGHT ==> win_size.0 >= 1,
        ensures
            final(self).cursor_controller@ == old(self).cursor_controller@.moved(
                direction,
                old(self).editor_rows@,
                win_size.0 as nat,
                win_size.1 as nat,
            ),
            final(self).editor_rows == old(self).editor_rows,
            final(self).editor_contents == old(self).editor_contents,
    {
        self.cursor_controller.move_cursor(direction, &self.editor_rows, win_size);
    }
}

} // verus!
