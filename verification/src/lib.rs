//! A minimal terminal text viewer.
//!
//! The viewer holds the lines of a text, a cursor that moves through them
//! and scrolls the screen, and composes the text that paints one frame on a
//! terminal. Reading keys and the file, and writing to the terminal, are left
//! to the program that uses it.
//!
//! - [`editor_rows`]: the line store.
//! - [`cursor_controller`]: the cursor and viewport state and its movements.
//! - [`editor_contents`]: the buffer in which a frame's text is gathered.
//! - [`output`]: the screen composer.
//! - [`editor`]: the input dispatcher.

pub mod cursor_controller;
pub mod editor;
pub mod editor_contents;
pub mod editor_rows;
pub mod output;
