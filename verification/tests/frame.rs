use text_viewer::cursor_controller::CursorController;
use text_viewer::editor_rows::EditorRows;
use text_viewer::output::Output;
use text_viewer::output::FILLER;

const HIDE: &str = "\x1b[?25l";
const SHOW: &str = "\x1b[?25h";
const CLEAR: &str = "\x1b[K";
const ORIGIN: &str = "\x1b[1;1H";

fn frame_of(text: &str, cursor: CursorController, win_size: (usize, usize)) -> String {
    let mut output = Output::new(EditorRows::from_text(text));
    output.cursor_controller = cursor;
    output.refresh_screen(win_size);
    output.editor_contents.take()
}

fn refreshed(output: &mut Output, win_size: (usize, usize)) -> String {
    output.refresh_screen(win_size);
    output.editor_contents.take()
}

fn fresh() -> CursorController {
    CursorController::new()
}

#[test]
fn filler_glyph() {
    assert_eq!(FILLER, '~');
}

#[test]
fn new_output_is_fresh() {
    let output = Output::new(EditorRows::from_text("abc\nde"));
    assert_eq!(output.cursor_controller, CursorController { cursor_x: 0, cursor_y: 0, row_offset: 0 });
    assert_eq!(output.editor_rows.number_of_rows(), 2);
    assert_eq!(output.editor_rows.get_row(0), "abc");
    assert_eq!(output.editor_rows.get_row(1), "de");
}

#[test]
fn two_lines_on_a_two_row_screen() {
    let frame = frame_of("abc\nde", fresh(), (5, 2));
    assert_eq!(frame, "\x1b[?25l\x1b[1;1Habc\x1b[K\r\nde\x1b[K\x1b[1;1H\x1b[?25h");
}

#[test]
fn no_line_break_after_the_last_row() {
    let frame = frame_of("abc\nde", fresh(), (5, 2));
    assert_eq!(frame.matches("\r\n").count(), 1);
    assert!(frame.ends_with("de\x1b[K\x1b[1;1H\x1b[?25h"));
}

#[test]
fn long_line_is_clipped_to_the_screen() {
    let frame = frame_of("abcdef", fresh(), (3, 1));
    assert_eq!(frame, format!("{HIDE}{ORIGIN}abc{CLEAR}{ORIGIN}{SHOW}"));
    assert!(!frame.contains("abcd"));
}

#[test]
fn line_as_wide_as_the_screen_is_whole() {
    let frame = frame_of("abc", fresh(), (3, 1));
    assert_eq!(frame, format!("{HIDE}{ORIGIN}abc{CLEAR}{ORIGIN}{SHOW}"));
}

#[test]
fn clipping_counts_characters_not_bytes() {
    let frame = frame_of("h\u{e9}ll\u{f6} w\u{f6}rld", fresh(), (4, 1));
    assert_eq!(frame, format!("{HIDE}{ORIGIN}h\u{e9}ll{CLEAR}{ORIGIN}{SHOW}"));
}

#[test]
fn zero_columns_show_no_text() {
    let frame = frame_of("abc\nde", fresh(), (0, 2));
    assert_eq!(frame, format!("{HIDE}{ORIGIN}{CLEAR}\r\n{CLEAR}{ORIGIN}{SHOW}"));
}

#[test]
fn empty_store_shows_filler_rows() {
    let mut output = Output::new(EditorRows::new());
    assert_eq!(
        refreshed(&mut output, (4, 3)),
        format!("{HIDE}{ORIGIN}~{CLEAR}\r\n~{CLEAR}\r\n~{CLEAR}{ORIGIN}{SHOW}")
    );
    assert_eq!(refreshed(&mut output, (80, 1)), format!("{HIDE}{ORIGIN}~{CLEAR}{ORIGIN}{SHOW}"));
    assert_eq!(refreshed(&mut output, (1, 2)), format!("{HIDE}{ORIGIN}~{CLEAR}\r\n~{CLEAR}{ORIGIN}{SHOW}"));
}

#[test]
fn empty_store_shows_as_many_filler_rows_as_the_screen_has() {
    for rows in 0..40usize {
        for cols in [0usize, 1, 7, 200] {
            let mut output = Output::new(EditorRows::new());
            let frame = refreshed(&mut output, (cols, rows));
            let mut expected = String::from("\x1b[?25l\x1b[1;1H");
            for i in 0..rows {
                expected.push_str("~\x1b[K");
                if i + 1 < rows {
                    expected.push_str("\r\n");
                }
            }
            expected.push_str("\x1b[1;1H\x1b[?25h");
            assert_eq!(frame, expected);
        }
    }
}

#[test]
fn empty_store_keeps_the_cursor_in_the_corner_of_the_frame() {
    let mut output = Output::new(EditorRows::new());
    for direction in ['s', 's', 'd', 'w', 's', 'a', 's'] {
        output.move_cursor(direction, (4, 3));
        assert_eq!(output.cursor_controller, CursorController { cursor_x: 0, cursor_y: 0, row_offset: 0 });
        assert_eq!(
            refreshed(&mut output, (4, 3)),
            "\x1b[?25l\x1b[1;1H~\x1b[K\r\n~\x1b[K\r\n~\x1b[K\x1b[1;1H\x1b[?25h"
        );
    }
}

#[test]
fn empty_store_is_all_filler_at_any_scroll_offset() {
    let cursor = CursorController { cursor_x: 0, cursor_y: 0, row_offset: 9 };
    let frame = frame_of("", cursor, (4, 2));
    assert_eq!(frame, format!("{HIDE}{ORIGIN}~{CLEAR}\r\n~{CLEAR}{ORIGIN}{SHOW}"));
}

#[test]
fn rows_past_the_store_are_filler() {
    let frame = frame_of("abc\nde", fresh(), (5, 4));
    assert_eq!(frame, format!("{HIDE}{ORIGIN}abc{CLEAR}\r\nde{CLEAR}\r\n~{CLEAR}\r\n~{CLEAR}{ORIGIN}{SHOW}"));
}

#[test]
fn empty_line_is_not_a_filler_row() {
    let frame = frame_of("a\n\nb", fresh(), (5, 3));
    assert_eq!(frame, format!("{HIDE}{ORIGIN}a{CLEAR}\r\n{CLEAR}\r\nb{CLEAR}{ORIGIN}{SHOW}"));
}

#[test]
fn scroll_offset_picks_the_top_line() {
    let cursor = CursorController { cursor_x: 0, cursor_y: 0, row_offset: 2 };
    let frame = frame_of("a\nb\nc\nd\ne", cursor, (5, 2));
    assert_eq!(frame, format!("{HIDE}{ORIGIN}c{CLEAR}\r\nd{CLEAR}{ORIGIN}{SHOW}"));
    let cursor = CursorController { cursor_x: 0, cursor_y: 0, row_offset: 4 };
    let frame = frame_of("a\nb\nc\nd\ne", cursor, (5, 2));
    assert_eq!(frame, format!("{HIDE}{ORIGIN}e{CLEAR}\r\n~{CLEAR}{ORIGIN}{SHOW}"));
}

#[test]
fn huge_scroll_offset_is_all_filler() {
    let cursor = CursorController { cursor_x: 0, cursor_y: 0, row_offset: usize::MAX };
    let frame = frame_of("a\nb", cursor, (5, 2));
    assert_eq!(frame, format!("{HIDE}{ORIGIN}~{CLEAR}\r\n~{CLEAR}{ORIGIN}{SHOW}"));
}

#[test]
fn cursor_is_put_where_the_state_has_it() {
    let cursor = CursorController { cursor_x: 2, cursor_y: 1, row_offset: 0 };
    let frame = frame_of("abc\ndef", cursor, (5, 2));
    assert_eq!(frame, format!("{HIDE}{ORIGIN}abc{CLEAR}\r\ndef{CLEAR}\x1b[2;3H{SHOW}"));
}

#[test]
fn cursor_position_is_written_in_decimal() {
    let cursor = CursorController { cursor_x: 9, cursor_y: 99, row_offset: 0 };
    let frame = frame_of("", cursor, (0, 0));
    assert_eq!(frame, format!("{HIDE}{ORIGIN}\x1b[100;10H{SHOW}"));
    let cursor = CursorController { cursor_x: 1233, cursor_y: 40, row_offset: 0 };
    let frame = frame_of("", cursor, (0, 0));
    assert_eq!(frame, format!("{HIDE}{ORIGIN}\x1b[41;1234H{SHOW}"));
}

#[test]
fn largest_cursor_position() {
    let cursor = CursorController { cursor_x: 65534, cursor_y: 65534, row_offset: 0 };
    let frame = frame_of("", cursor, (0, 0));
    assert_eq!(frame, format!("{HIDE}{ORIGIN}\x1b[65535;65535H{SHOW}"));
}

#[test]
fn screen_without_rows_draws_nothing() {
    let frame = frame_of("abc", fresh(), (5, 0));
    assert_eq!(frame, format!("{HIDE}{ORIGIN}{ORIGIN}{SHOW}"));
}

#[test]
fn refresh_changes_neither_cursor_nor_store() {
    let mut output = Output::new(EditorRows::from_text("abc\nde"));
    output.cursor_controller = CursorController { cursor_x: 1, cursor_y: 1, row_offset: 0 };
    let first = refreshed(&mut output, (5, 2));
    assert_eq!(output.cursor_controller, CursorController { cursor_x: 1, cursor_y: 1, row_offset: 0 });
    assert_eq!(output.editor_rows.number_of_rows(), 2);
    let second = refreshed(&mut output, (5, 2));
    assert_eq!(first, second);
    assert_eq!(first, format!("{HIDE}{ORIGIN}abc{CLEAR}\r\nde{CLEAR}\x1b[2;2H{SHOW}"));
}

#[test]
fn refresh_appends_to_what_the_buffer_holds() {
    let mut output = Output::new(EditorRows::new());
    output.editor_contents.push_str("left over");
    output.refresh_screen((3, 1));
    output.refresh_screen((3, 1));
    let frame = format!("{HIDE}{ORIGIN}~{CLEAR}{ORIGIN}{SHOW}");
    assert_eq!(output.editor_contents.take(), format!("left over{frame}{frame}"));
}

#[test]
fn draw_rows_appends_the_rows_only() {
    let mut output = Output::new(EditorRows::from_text("abcdef\ngh"));
    output.editor_contents.push('>');
    output.draw_rows((4, 3));
    assert_eq!(output.editor_contents.take(), format!(">abcd{CLEAR}\r\ngh{CLEAR}\r\n~{CLEAR}"));
}

#[test]
fn output_moves_its_cursor_over_its_store() {
    let mut output = Output::new(EditorRows::from_text("ab\n"));
    output.move_cursor('d', (10, 5));
    output.move_cursor('d', (10, 5));
    output.move_cursor('d', (10, 5));
    assert_eq!(output.cursor_controller, CursorController { cursor_x: 2, cursor_y: 0, row_offset: 0 });
    output.move_cursor('s', (10, 5));
    assert_eq!(output.cursor_controller, CursorController { cursor_x: 0, cursor_y: 1, row_offset: 0 });
    assert_eq!(refreshed(&mut output, (10, 2)), format!("{HIDE}{ORIGIN}ab{CLEAR}\r\n~{CLEAR}\x1b[2;1H{SHOW}"));
}
