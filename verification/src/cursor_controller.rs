//! The cursor and viewport state, and the four movements.

use vstd::prelude::*;
use crate::editor_rows::line_len;
use crate::editor_rows::EditorRows;

verus! {

/// The movement token for one line up.
pub const UP: char = 'w';

/// The movement token for one column to the left.
pub const LEFT: char = 'a';

/// The movement token for one line down.
pub const DOWN: char = 's';

/// The movement token for one column to the right.
pub const RIGHT: char = 'd';

/// Whether `token` is one of the four movement tokens.
pub open spec fn is_direction(token: char) -> bool {
    token == UP || token == LEFT || token == DOWN || token == RIGHT
}

/// The cursor and viewport state as three numbers: the cursor's column and
/// row on the screen, and the index of the line shown in the screen's top row.
pub struct CursorState {
    /// The cursor's column on the screen.
    pub cursor_x: nat,
    /// The cursor's row on the screen.
    pub cursor_y: nat,
    /// The index in the store of the line in the top row of the screen.
    pub row_offset: nat,
}

impl CursorState {
    /// The state at the start: the cursor in the top left corner, the store's
    /// first line in the top row.
    pub open spec fn origin() -> CursorState {
        CursorState { cursor_x: 0, cursor_y: 0, row_offset: 0 }
    }

    /// The index in the store of the line the cursor is on.
    pub open spec fn file_row(self) -> nat {
        self.cursor_y + self.row_offset
    }

    /// The state after the movement itself, before the column is brought back
    /// inside the line, over a store of `line_count` lines on a screen of
    /// `cols` columns and `rows` rows. The cursor moves where it is not at the
    /// screen's edge; at the top or bottom edge the view scrolls instead, as
    /// long as the store's first or last line is not in the top row. Over an
    /// empty store there is nothing below the first row to move down to.
    pub open spec fn stepped(self, direction: char, line_count: nat, cols: nat, rows: nat) -> CursorState {
        if direction == UP {
            if self.cursor_y > 0 {
                CursorState { cursor_y: (self.cursor_y - 1) as nat, ..self }
            } else if self.row_offset > 0 {
                CursorState { row_offset: (self.row_offset - 1) as nat, ..self }
            } else {
                self
            }
        } else if direction == DOWN {
            if line_count == 0 {
                self
            } else if self.cursor_y < rows - 1 {
                CursorState { cursor_y: self.cursor_y + 1, ..self }
            } else if self.row_offset < line_count - 1 {
                CursorState { row_offset: self.row_offset + 1, ..self }
            } else {
                self
            }
        } else if direction == LEFT {
            if self.cursor_x > 0 {
                CursorState { cursor_x: (self.cursor_x - 1) as nat, ..self }
            } else {
                self
            }
        } else if direction == RIGHT {
            if self.cursor_x < cols - 1 {
                CursorState { cursor_x: self.cursor_x + 1, ..self }
            } else {
                self
            }
        } else {
            self
        }
    }

    /// The state with the column brought back to the end of the line the
    /// cursor is on, where it lies past it.
    pub open spec fn clamped(self, lines: Seq<Seq<char>>) -> CursorState {
        if self.cursor_x > line_len(lines, self.file_row() as int) {
            CursorState { cursor_x: line_len(lines, self.file_row() as int), ..self }
        } else {
            self
        }
    }

    /// The state after one movement over `lines` on a screen of `cols`
    /// columns and `rows` rows.
    pub open spec fn moved(self, direction: char, lines: Seq<Seq<char>>, cols: nat, rows: nat) -> CursorState {
        self.stepped(direction, lines.len(), cols, rows).clamped(lines)
    }

    /// The state after the movements `directions`, made one after the other.
    pub open spec fn moved_all(self, directions: Seq<char>, lines: Seq<Seq<char>>, cols: nat, rows: nat) -> CursorState
        decreases directions.len(),
    {
        if directions.len() == 0 {
            self
        } else {
            self.moved_all(directions.drop_last(), lines, cols, rows).moved(directions.last(), lines, cols, rows)
        }
    }

    /// Whether the state lies inside the screen and the store: the column is
    /// a column of the screen and not past the end of the line the cursor is
    /// on, the row is a row of the screen, and the line in the top row is a
    /// line of the store (the first where the store is empty).
    pub open spec fn in_bounds(self, lines: Seq<Seq<char>>, cols: nat, rows: nat) -> bool {
        &&& self.cursor_x <= line_len(lines, self.file_row() as int)
        &&& self.cursor_x <= cols - 1
        &&& self.cursor_y <= rows - 1
        &&& self.row_offset <= if lines.len() >= 1 { lines.len() - 1 } else { 0 }
    }
}

/// Where the cursor is on the screen and which line of the store is in the
/// top row of the screen.
#[derive(Clone, Copy, Debug, PartialEq, Eq, Structural)]
pub struct CursorController {
    /// The cursor's column on the screen.
    pub cursor_x: usize,
    /// The cursor's row on the screen.
    pub cursor_y: usize,
    /// The index in the store of the line in the top row of the screen.
    pub row_offset: usize,
}

impl View for CursorController {
    type V = CursorState;

    open spec fn view(&self) -> CursorState {
        CursorState {
            cursor_x: self.cursor_x as nat,
            cursor_y: self.cursor_y as nat,
            row_offset: self.row_offset as nat,
        }
    }
}

impl CursorController {
    /// The cursor in the top left corner, the store's first line in the top
    /// row.
    pub fn new() -> (cursor: CursorController)
        ensures
            cursor@ == CursorState::origin(),
    {
        CursorController { cursor_x: 0, cursor_y: 0, row_offset: 0 }
    }

    /// Moves the cursor one step in `direction` on a screen of `win_size`
    /// (columns, rows), scrolling where the cursor is at the screen's top or
    /// bottom edge, then brings the column back inside the line the cursor is
    /// now on. Over an empty store moving down does nothing.
    pub fn move_cursor(&mut self, direction: char, editor_rows: &EditorRows, win_size: (usize, usize))
        requires
            is_direction(direction),
            direction == DOWN ==> win_size.1 >= 1,
            direction == RIGHT ==> win_size.0 >= 1,
        ensures
            final(self)@ == old(self)@.moved(direction, editor_rows@, win_size.0 as nat, win_size.1 as nat),
            old(self)@.in_bounds(editor_rows@, win_size.0 as nat, win_size.1 as nat) ==> final(self)@.in_bounds(
                editor_rows@,
                win_size.0 as nat,
                win_size.1 as nat,
            ),
    {
        let screen_columns = win_size.0;
        let screen_rows = win_size.1;
        let number_of_rows = editor_rows.number_of_rows();
        if direction == UP {
            if self.cursor_y != 0 {
                self.cursor_y = self.cursor_y - 1;
            } else if self.row_offset != 0 {
                self.row_offset = self.row_offset - 1;
            }
        } else if direction == LEFT {
            if self.cursor_x != 0 {
                self.cursor_x = self.cursor_x - 1;
            }
        } else if direction == DOWN {
            if number_of_rows > 0 {
                if self.cursor_y < screen_rows - 1 {
                    self.cursor_y = self.cursor_y + 1;
                } else if self.row_offset < number_of_rows - 1 {
                    self.row_offset = self.row_offset + 1;
                }
            }
        } else {
            if self.cursor_x < screen_columns - 1 {
                self.cursor_x = self.cursor_x + 1;
            }
        }
        let number_of_columns = match self.cursor_y.checked_add(self.row_offset) {
            Some(file_row) => editor_rows.row_len(file_row),
            None => 0,
        };
        if self.cursor_x > number_of_columns {
            self.cursor_x = number_of_columns;
        }
    }
}

/// The state at the start is in bounds of every store on every screen that
/// has at least one column and one row.
pub proof fn lemma_origin_in_bounds(lines: Seq<Seq<char>>, cols: nat, rows: nat)
    requires
        cols >= 1,
        rows >= 1,
    ensures
        CursorState::origin().in_bounds(lines, cols, rows),
{
}

/// One movement keeps a state that is in bounds in bounds.
pub proof fn lemma_move_stays_in_bounds(
    cursor: CursorState,
    direction: char,
    lines: Seq<Seq<char>>,
    cols: nat,
    rows: nat,
)
    requires
        cursor.in_bounds(lines, cols, rows),
    ensures
        cursor.moved(direction, lines, cols, rows).in_bounds(lines, cols, rows),
{
}

/// Whatever movements are made, one after the other, from a state that is in
/// bounds: the column stays on the screen and inside the line the cursor is
/// on, the row stays on the screen, and the line in the top row stays a line
/// of the store.
pub proof fn lemma_moves_stay_in_bounds(
    cursor: CursorState,
    directions: Seq<char>,
    lines: Seq<Seq<char>>,
    cols: nat,
    rows: nat,
)
    requires
        cursor.in_bounds(lines, cols, rows),
    ensures
        cursor.moved_all(directions, lines, cols, rows).in_bounds(lines, cols, rows),
    decreases directions.len(),
{
    if directions.len() > 0 {
        lemma_moves_stay_in_bounds(cursor, directions.drop_last(), lines, cols, rows);
        lemma_move_stays_in_bounds(
            cursor.moved_all(directions.drop_last(), lines, cols, rows),
            directions.last(),
            lines,
            cols,
            rows,
        );
    }
}

/// With the store's first line in the top row and the cursor in that row,
/// moving up changes neither the row nor the scroll offset. It changes
/// nothing at all where the column is inside the line, and making it twice
/// is the same as making it once.
pub proof fn lemma_up_at_top_is_noop(cursor: CursorState, lines: Seq<Seq<char>>, cols: nat, rows: nat)
    requires
        cursor.cursor_y == 0,
        cursor.row_offset == 0,
    ensures
        cursor.moved(UP, lines, cols, rows).cursor_y == 0,
        cursor.moved(UP, lines, cols, rows).row_offset == 0,
        cursor.cursor_x <= line_len(lines, 0) ==> cursor.moved(UP, lines, cols, rows) == cursor,
        cursor.moved(UP, lines, cols, rows).moved(UP, lines, cols, rows) == cursor.moved(UP, lines, cols, rows),
{
}

/// On a screen of one row that shows the store's last line, with the column
/// inside that line, moving down changes nothing.
pub proof fn lemma_down_at_last_line_of_one_row_screen(cursor: CursorState, lines: Seq<Seq<char>>, cols: nat)
    requires
        lines.len() >= 1,
        cursor.file_row() == lines.len() - 1,
        cursor.cursor_y == 0,
        cursor.cursor_x <= line_len(lines, cursor.file_row() as int),
    ensures
        cursor.moved(DOWN, lines, cols, 1) == cursor,
{
}

/// Moving down changes nothing exactly where the column is inside the line
/// and either the store is empty, or the cursor is in the bottom row of the
/// screen or below it and the store's last line is in the top row or the view
/// is scrolled past it.
pub proof fn lemma_down_is_noop_iff(cursor: CursorState, lines: Seq<Seq<char>>, cols: nat, rows: nat)
    ensures
        cursor.moved(DOWN, lines, cols, rows) == cursor <==> {
            &&& cursor.cursor_x <= line_len(lines, cursor.file_row() as int)
            &&& lines.len() == 0 || (cursor.cursor_y >= rows - 1 && cursor.row_offset >= lines.len() - 1)
        },
{
}

/// Over an empty store every movement leaves the column at zero and moves
/// neither the cursor nor the view down; moving down changes neither the row
/// nor the scroll offset. From the first row with nothing scrolled, every
/// movement ends in the state at the start, so there moving up or down
/// changes nothing once the column is zero.
pub proof fn lemma_empty_store_moves(cursor: CursorState, direction: char, cols: nat, rows: nat)
    ensures
        cursor.moved(direction, Seq::<Seq<char>>::empty(), cols, rows).cursor_x == 0,
        cursor.moved(direction, Seq::<Seq<char>>::empty(), cols, rows).cursor_y <= cursor.cursor_y,
        cursor.moved(direction, Seq::<Seq<char>>::empty(), cols, rows).row_offset <= cursor.row_offset,
        cursor.moved(DOWN, Seq::<Seq<char>>::empty(), cols, rows).cursor_y == cursor.cursor_y,
        cursor.moved(DOWN, Seq::<Seq<char>>::empty(), cols, rows).row_offset == cursor.row_offset,
        cursor.cursor_y == 0 && cursor.row_offset == 0 ==> cursor.moved(
            direction,
            Seq::<Seq<char>>::empty(),
            cols,
            rows,
        ) == CursorState::origin(),
        cursor.cursor_x == 0 ==> cursor.moved(DOWN, Seq::<Seq<char>>::empty(), cols, rows) == cursor,
        cursor == CursorState::origin() ==> cursor.moved(UP, Seq::<Seq<char>>::empty(), cols, rows) == cursor,
{
}

/// Over an empty store the cursor never leaves the top left corner, whatever
/// movements are made from the state at the start.
pub proof fn lemma_empty_store_stays_at_origin(directions: Seq<char>, cols: nat, rows: nat)
    ensures
        CursorState::origin().moved_all(directions, Seq::<Seq<char>>::empty(), cols, rows) == CursorState::origin(),
    decreases directions.len(),
{
    if directions.len() > 0 {
        lemma_empty_store_stays_at_origin(directions.drop_last(), cols, rows);
        lemma_empty_store_moves(CursorState::origin(), directions.last(), cols, rows);
    }
}

} // verus!
