//! The frame buffer: the text of one frame, gathered piece by piece and then
//! handed out to be written to the terminal in one go.

use vstd::prelude::*;
use vstd::string::StringExecFns;
use vstd::string::StringSliceAdditionalSpecFns;
use vstd::utf8::decode_utf8;
use vstd::utf8::encode_utf8_decode_utf8;
use vstd::utf8::valid_utf8;
use crossterm::Command;

verus! {

/// The decimal digit `d`, for `0 <= d <= 9`.
pub open spec fn digit(d: int) -> char {
    seq!['0', '1', '2', '3', '4', '5', '6', '7', '8', '9'][d]
}

/// The decimal numeral of `n`, without leading zeros.
pub open spec fn decimal(n: nat) -> Seq<char>
    decreases n,
{
    if n < 10 {
        seq![digit(n as int)]
    } else {
        decimal(n / 10).push(digit((n % 10) as int))
    }
}

/// The escape code that hides the terminal's cursor.
pub open spec fn hide_cursor_code() -> Seq<char> {
    seq!['\x1b', '[', '?', '2', '5', 'l']
}

/// The escape code that shows the terminal's cursor.
pub open spec fn show_cursor_code() -> Seq<char> {
    seq!['\x1b', '[', '?', '2', '5', 'h']
}

/// The escape code that clears the line from the cursor to its end.
pub open spec fn clear_line_code() -> Seq<char> {
    seq!['\x1b', '[', 'K']
}

/// The escape code that puts the cursor at column `col` and row `row`, both
/// counted from zero; the code counts them from one, the row first.
pub open spec fn move_to_code(col: nat, row: nat) -> Seq<char> {
    seq!['\x1b', '['] + decimal(row + 1) + seq![';'] + decimal(col + 1) + seq!['H']
}

/// `String::push` appends the character to the end of the string. Believed,
/// not proved.
pub assume_specification[ String::push ](s: &mut String, ch: char)
    ensures
        final(s)@ == old(s)@.push(ch),
;

/// The error of `core::str::from_utf8`, carried through unread.
#[verifier::external_type_specification]
#[verifier::external_body]
pub struct ExUtf8Error(core::str::Utf8Error);

/// `core::str::from_utf8` succeeds on the byte slices that are valid UTF-8
/// and on no others, and the text it gives is made of the very bytes it was
/// given. Believed, not proved.
pub assume_specification[ core::str::from_utf8 ](v: &[u8]) -> (text: Result<&str, core::str::Utf8Error>)
    ensures
        text is Ok <==> valid_utf8(v@),
        text matches Ok(s) ==> s.spec_bytes() == v@,
;

/// The bytes handed to the frame buffer are not valid UTF-8.
#[derive(Clone, Copy, Debug, PartialEq, Eq)]
pub struct InvalidUtf8;

/// The text gathered so far for the frame that is being composed.
pub struct EditorContents {
    content: String,
}

impl View for EditorContents {
    type V = Seq<char>;

    /// The gathered text.
    closed spec fn view(&self) -> Seq<char> {
        self.content@
    }
}

impl EditorContents {
    /// An empty buffer.
    pub fn new() -> (contents: EditorContents)
        ensures
            contents@ == Seq::<char>::empty(),
    {
        EditorContents { content: String::new() }
    }

    /// Appends one character.
    pub fn push(&mut self, ch: char)
        ensures
            final(self)@ == old(self)@.push(ch),
    {
        self.content.push(ch)
    }

    /// Appends a piece of text.
    pub fn push_str(&mut self, string: &str)
        ensures
            final(self)@ == old(self)@ + string@,
    {
        self.content.append(string)
    }

    /// Appends the text that `buf` encodes in UTF-8 and gives the number of
    /// bytes taken, which is all of them. Bytes that are not valid UTF-8 are
    /// refused as a whole, and the buffer stays as it was.
    pub fn write(&mut self, buf: &[u8]) -> (written: Result<usize, InvalidUtf8>)
        ensures
            valid_utf8(buf@) ==> written == Ok::<usize, InvalidUtf8>(buf@.len() as usize),
            valid_utf8(buf@) ==> final(self)@ == old(self)@ + decode_utf8(buf@),
            !valid_utf8(buf@) ==> written == Err::<usize, InvalidUtf8>(InvalidUtf8),
            !valid_utf8(buf@) ==> final(self)@ == old(self)@,
    {
        match core::str::from_utf8(buf) {
            Ok(s) => {
                proof {
                    encode_utf8_decode_utf8(s@);
                }
                self.content.append(s);
                Ok(s.len())
            },
            Err(_) => Err(InvalidUtf8),
        }
    }

    /// Hands out the gathered text and leaves the buffer empty.
    pub fn take(&mut self) -> (text: String)
        ensures
            text@ == old(self)@,
            final(self)@ == Seq::<char>::empty(),
    {
        let mut text = String::new();
        core::mem::swap(&mut self.content, &mut text);
        text
    }

    /// Appends what crossterm's `Command::write_ansi` writes for
    /// `cursor::Hide`: the fixed text `ESC [ ? 2 5 l`. Believed, not proved.
    #[verifier::external_body]
    pub(crate) fn queue_hide_cursor(&mut self)
        ensures
            final(self)@ == old(self)@ + hide_cursor_code(),
    {
        let _ = crossterm::cursor::Hide.write_ansi(&mut self.content);
    }

    /// Appends what crossterm's `Command::write_ansi` writes for
    /// `cursor::Show`: the fixed text `ESC [ ? 2 5 h`. Believed, not proved.
    #[verifier::external_body]
    pub(crate) fn queue_show_cursor(&mut self)
        ensures
            final(self)@ == old(self)@ + show_cursor_code(),
    {
        let _ = crossterm::cursor::Show.write_ansi(&mut self.content);
    }

    /// Appends what crossterm's `Command::write_ansi` writes for
    /// `terminal::Clear(ClearType::UntilNewLine)`: the fixed text `ESC [ K`.
    /// Believed, not proved.
    #[verifier::external_body]
    pub(crate) fn queue_clear_line(&mut self)
        ensures
            final(self)@ == old(self)@ + clear_line_code(),
    {
        let clear = crossterm::terminal::Clear(crossterm::terminal::ClearType::UntilNewLine);
        let _ = clear.write_ansi(&mut self.content);
    }

    /// Appends what crossterm's `Command::write_ansi` writes for
    /// `cursor::MoveTo(col, row)`: `ESC [`, the row plus one in decimal, `;`,
    /// the column plus one in decimal, and `H`. crossterm adds the one in
    /// sixteen bits, so the largest sixteen-bit number is left out for both.
    /// Believed, not proved.
    #[verifier::external_body]
    pub(crate) fn queue_move_to(&mut self, col: u16, row: u16)
        requires
            col < u16::MAX,
            row < u16::MAX,
        ensures
            final(self)@ == old(self)@ + move_to_code(col as nat, row as nat),
    {
        let _ = crossterm::cursor::MoveTo(col, row).write_ansi(&mut self.content);
    }
}

} // verus!
