//! The input dispatcher: what one decoded key does to the viewer.

use vstd::prelude::*;
use crate::cursor_controller::CursorState;
use crate::cursor_controller::is_direction;
use crate::cursor_controller::DOWN;
use crate::cursor_controller::LEFT;
use crate::cursor_controller::RIGHT;
use crate::cursor_controller::UP;
use crate::editor_rows::EditorRows;
use crate::output::Output;

verus! {

/// The character that, pressed together with the control key alone, quits.
pub const QUIT: char = 'q';

/// Which key an event is about.
#[derive(Clone, Copy, Debug, PartialEq, Eq)]
pub enum KeyCode {
    /// A key that stands for a character.
    Char(char),
    /// Any other key.
    Other,
}

/// Which modifier keys were held down with the key.
#[derive(Clone, Copy, Debug, PartialEq, Eq)]
pub enum KeyModifiers {
    /// No modifier key.
    Unmodified,
    /// The control key and no other.
    Control,
    /// Any other modifier key or combination of them.
    Other,
}

/// What happened to the key.
#[derive(Clone, Copy, Debug, PartialEq, Eq)]
pub enum KeyEventKind {
    /// The key went down.
    Press,
    /// The key is held down and repeats.
    Repeat,
    /// The key went up.
    Release,
}

/// One decoded key event.
#[derive(Clone, Copy, Debug, PartialEq, Eq)]
pub struct KeyEvent {
    /// The key.
    pub code: KeyCode,
    /// The modifier keys held down with it.
    pub modifiers: KeyModifiers,
    /// What happened to the key.
    pub kind: KeyEventKind,
}

/// What a key event asks the viewer to do.
#[derive(Clone, Copy, Debug, PartialEq, Eq)]
pub enum Action {
    /// End the session.
    Quit,
    /// Move the cursor one step in the direction of the token.
    Move(char),
    /// Nothing.
    Ignore,
}

/// The action that `event` asks for: the quit character with the control key
/// alone quits, whatever happened to the key; a movement token pressed
/// without a modifier moves; everything else is ignored.
pub open spec fn action_of(event: KeyEvent) -> Action {
    match event.code {
        KeyCode::Char(c) => {
            if c == QUIT && event.modifiers is Control {
                Action::Quit
            } else if is_direction(c) && event.modifiers is Unmodified && event.kind is Press {
                Action::Move(c)
            } else {
                Action::Ignore
            }
        },
        KeyCode::Other => Action::Ignore,
    }
}

/// Finds the action that `event` asks for.
pub fn dispatch(event: KeyEvent) -> (action: Action)
    ensures
        action == action_of(event),
{
    match event.code {
        KeyCode::Char(c) => {
            let control = match event.modifiers {
                KeyModifiers::Control => true,
                _ => false,
            };
            let unmodified = match event.modifiers {
                KeyModifiers::Unmodified => true,
                _ => false,
            };
            let pressed = match event.kind {
                KeyEventKind::Press => true,
                _ => false,
            };
            if c == QUIT && control {
                Action::Quit
            } else if (c == UP || c == LEFT || c == DOWN || c == RIGHT) && unmodified && pressed {
                Action::Move(c)
            } else {
                Action::Ignore
            }
        },
        KeyCode::Other => Action::Ignore,
    }
}

/// The viewer: the screen composer with its cursor and lines, driven by key
/// events.
pub struct Editor {
    /// The screen composer.
    pub output: Output,
}

impl Editor {
    /// A viewer over `editor_rows`, with the cursor in the top left corner.
    pub fn new(editor_rows: EditorRows) -> (editor: Editor)
        ensures
            editor.output.editor_contents@ == Seq::<char>::empty(),
            editor.output.cursor_controller@ == CursorState::origin(),
            editor.output.editor_rows == editor_rows,
    {
        Editor { output: Output::new(editor_rows) }
    }

    /// Acts on one key event on a screen of `win_size` (columns, rows), and
    /// says whether the session goes on: it ends on the quit key and on
    /// nothing else. A movement moves the cursor; nothing else changes.
    pub fn process_keypress(&mut self, event: KeyEvent, win_size: (usize, usize)) -> (running: bool)
        requires
            action_of(event) == Action::Move(DOWN) ==> win_size.1 >= 1,
            action_of(event) == Action::Move(RIGHT) ==> win_size.0 >= 1,
        ensures
            running == !(action_of(event) is Quit),
            final(self).output.cursor_controller@ == match action_of(event) {
                Action::Move(direction) => old(self).output.cursor_controller@.moved(
                    direction,
                    old(self).output.editor_rows@,
                    win_size.0 as nat,
                    win_size.1 as nat,
                ),
                _ => old(self).output.cursor_controller@,
            },
            final(self).output.editor_rows == old(self).output.editor_rows,
            final(self).output.editor_contents == old(self).output.editor_contents,
    {
        match dispatch(event) {
            Action::Quit => false,
            Action::Move(direction) => {
                self.output.move_cursor(direction, win_size);
                true
            },
            Action::Ignore => true,
        }
    }
}

} // verus!
