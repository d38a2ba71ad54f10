//! The line store: the text lines of the viewed file, in order, read-only.

use vstd::prelude::*;
use vstd::std_specs::iter::IteratorSpec;
use vstd::string::StrSliceExecFns;

verus! {

broadcast use vstd::string::group_string_axioms;

/// The line feed, which ends a line.
pub const LINE_FEED: char = '\n';

/// The carriage return, which belongs to the line ending where it stands
/// directly before the line feed.
pub const CARRIAGE_RETURN: char = '\r';

/// The index of the first line feed in `text`, or the length of `text` where
/// it holds none.
pub open spec fn first_line_feed(text: Seq<char>) -> nat
    decreases text.len(),
{
    if text.len() == 0 || text[0] == LINE_FEED {
        0
    } else {
        1 + first_line_feed(text.drop_first())
    }
}

/// `line` without the carriage return at its end, if it has one.
pub open spec fn without_carriage_return(line: Seq<char>) -> Seq<char> {
    if line.len() > 0 && line.last() == CARRIAGE_RETURN {
        line.drop_last()
    } else {
        line
    }
}

/// The lines of `text`. A line ends at a line feed, or at a carriage return
/// directly followed by a line feed; neither belongs to the line. What
/// follows the last line feed is a line of its own unless it is empty, and
/// it keeps a carriage return at its end.
pub open spec fn split_lines(text: Seq<char>) -> Seq<Seq<char>>
    decreases text.len(),
{
    let end = first_line_feed(text) as int;
    if text.len() == 0 {
        Seq::<Seq<char>>::empty()
    } else if end >= text.len() {
        seq![text]
    } else {
        seq![without_carriage_return(text.take(end))] + split_lines(text.skip(end + 1))
    }
}

/// The number of characters of the line at `file_row`; past the end of the
/// store there is no text, so the length is zero.
pub open spec fn line_len(lines: Seq<Seq<char>>, file_row: int) -> nat {
    if 0 <= file_row < lines.len() {
        lines[file_row].len()
    } else {
        0
    }
}

/// The ordered lines of the viewed text.
pub struct EditorRows {
    row_contents: Vec<String>,
}

/// The lines held by `rows`, each as its sequence of characters.
spec fn lines_of(rows: Seq<String>) -> Seq<Seq<char>> {
    Seq::new(rows.len(), |i: int| rows[i]@)
}

impl View for EditorRows {
    type V = Seq<Seq<char>>;

    /// The lines, each as its sequence of characters.
    closed spec fn view(&self) -> Seq<Seq<char>> {
        lines_of(self.row_contents@)
    }
}

impl EditorRows {
    /// Every line of a store is free of line feeds.
    #[verifier::type_invariant]
    spec fn lines_are_single(self) -> bool {
        forall|i: int| 0 <= i < self@.len() ==> !(#[trigger] self@[i]).contains(LINE_FEED)
    }

    /// The empty store.
    pub fn new() -> (rows: EditorRows)
        ensures
            rows@ == Seq::<Seq<char>>::empty(),
    {
        EditorRows { row_contents: Vec::new() }
    }

    /// The store of the lines of `text`.
    pub fn from_text(text: &str) -> (rows: EditorRows)
        ensures
            rows@ == split_lines(text@),
    {
        let mut row_contents: Vec<String> = Vec::new();
        let mut line = String::new();
        let mut held_return = false;
        let mut chars = text.chars();
        let ghost mut seen: int = 0;
        assert(pending(line@, held_return) + text@.skip(0) == text@);
        loop
            invariant
                chars.obeys_prophetic_iter_laws(),
                0 <= seen <= text@.len(),
                chars.remaining() == text@.skip(seen),
                !pending(line@, held_return).contains(LINE_FEED),
                !held_return ==> line@.len() == 0 || line@.last() != CARRIAGE_RETURN,
                lines_of(row_contents@) + split_lines(pending(line@, held_return) + text@.skip(seen))
                    == split_lines(text@),
            ensures
                seen == text@.len(),
            decreases text@.len() - seen,
        {
            let ghost before = pending(line@, held_return);
            let ghost rest = text@.skip(seen);
            match chars.next() {
                None => {
                    break ;
                },
                Some(c) => {
                    assert(c == rest[0]);
                    assert(text@.skip(seen + 1) == rest.drop_first());
                    if c == LINE_FEED {
                        proof {
                            lemma_split_at_line_feed(before, rest.drop_first());
                            assert(before + seq![LINE_FEED] + rest.drop_first() == before + rest);
                            assert(without_carriage_return(before) == line@);
                            assert(lines_of(row_contents@.push(line)) == lines_of(row_contents@).push(line@));
                        }
                        row_contents.push(line);
                        line = String::new();
                        held_return = false;
                    } else {
                        if held_return {
                            line.push(CARRIAGE_RETURN);
                        }
                        if c == CARRIAGE_RETURN {
                            held_return = true;
                        } else {
                            line.push(c);
                            held_return = false;
                        }
                        assert(pending(line@, held_return) == before.push(c));
                        assert(before.push(c) + rest.drop_first() == before + rest);
                    }
                    proof {
                        seen = seen + 1;
                    }
                },
            }
        }
        proof {
            assert(pending(line@, held_return) + text@.skip(seen) == pending(line@, held_return));
            lemma_split_without_line_feed(pending(line@, held_return));
        }
        if held_return {
            line.push(CARRIAGE_RETURN);
        }
        if !line.as_str().is_empty() {
            proof {
                assert(lines_of(row_contents@.push(line)) == lines_of(row_contents@).push(line@));
            }
            row_contents.push(line);
        }
        proof {
            lemma_lines_hold_no_line_feed(text@);
            assert(lines_of(row_contents@) == split_lines(text@));
        }
        EditorRows { row_contents }
    }

    /// How many lines the store holds.
    pub fn number_of_rows(&self) -> (n: usize)
        ensures
            n == self@.len(),
    {
        self.row_contents.len()
    }

    /// The line at index `at`.
    pub fn get_row(&self, at: usize) -> (row: &str)
        requires
            at < self@.len(),
        ensures
            row@ == self@[at as int],
            !row@.contains(LINE_FEED),
    {
        proof {
            use_type_invariant(self);
            assert(!self@[at as int].contains(LINE_FEED));
        }
        self.row_contents[at].as_str()
    }

    /// The number of characters of the line at `file_row`, zero past the end.
    pub fn row_len(&self, file_row: usize) -> (len: usize)
        ensures
            len == line_len(self@, file_row as int),
    {
        if file_row < self.row_contents.len() {
            self.row_contents[file_row].as_str().unicode_len()
        } else {
            0
        }
    }
}

/// The first line feed of `text` stands at an index of `text` or at its
/// length, and no line feed stands before it.
pub proof fn lemma_first_line_feed(text: Seq<char>)
    ensures
        first_line_feed(text) <= text.len(),
        first_line_feed(text) < text.len() ==> text[first_line_feed(text) as int] == LINE_FEED,
        forall|i: int| 0 <= i < first_line_feed(text) ==> text[i] != LINE_FEED,
    decreases text.len(),
{
    if text.len() > 0 && text[0] != LINE_FEED {
        lemma_first_line_feed(text.drop_first());
        assert forall|i: int| 0 <= i < first_line_feed(text) implies text[i] != LINE_FEED by {
            if i > 0 {
                assert(text.drop_first()[i - 1] == text[i]);
            }
        }
    }
}

/// No line of a text holds a line feed.
pub proof fn lemma_lines_hold_no_line_feed(text: Seq<char>)
    ensures
        forall|i: int| 0 <= i < split_lines(text).len() ==> !(#[trigger] split_lines(text)[i]).contains(LINE_FEED),
    decreases text.len(),
{
    let end = first_line_feed(text) as int;
    lemma_first_line_feed(text);
    if text.len() > 0 && end < text.len() {
        let others = split_lines(text.skip(end + 1));
        lemma_lines_hold_no_line_feed(text.skip(end + 1));
        assert forall|i: int| 0 <= i < split_lines(text).len() implies !(#[trigger] split_lines(text)[i]).contains(
            LINE_FEED,
        ) by {
            if i > 0 {
                assert(split_lines(text)[i] == others[i - 1]);
            }
        }
    }
}

/// The text of the line that is being read: what was kept of it, and the
/// carriage return that is held back until the next character is seen.
spec fn pending(kept: Seq<char>, held_return: bool) -> Seq<char> {
    if held_return {
        kept.push(CARRIAGE_RETURN)
    } else {
        kept
    }
}

/// A text without a line feed is its own only line, or no line where it is
/// empty.
proof fn lemma_split_without_line_feed(text: Seq<char>)
    requires
        !text.contains(LINE_FEED),
    ensures
        first_line_feed(text) == text.len(),
        split_lines(text) == if text.len() == 0 {
            Seq::<Seq<char>>::empty()
        } else {
            seq![text]
        },
    decreases text.len(),
{
    if text.len() > 0 {
        lemma_split_without_line_feed(text.drop_first());
    }
}

/// The first line feed of a text that starts with `head`, which holds none,
/// and goes on with a line feed stands right after `head`.
proof fn lemma_first_line_feed_after(head: Seq<char>, tail: Seq<char>)
    requires
        !head.contains(LINE_FEED),
    ensures
        first_line_feed(head + seq![LINE_FEED] + tail) == head.len(),
    decreases head.len(),
{
    let text = head + seq![LINE_FEED] + tail;
    if head.len() > 0 {
        assert(head.contains(head[0]));
        assert(text.drop_first() == head.drop_first() + seq![LINE_FEED] + tail);
        lemma_first_line_feed_after(head.drop_first(), tail);
    }
}

/// A text that starts with `head`, which holds no line feed, and goes on
/// with a line feed has `head`, without a carriage return at its end, as its
/// first line; its other lines are those of what follows the line feed.
proof fn lemma_split_at_line_feed(head: Seq<char>, tail: Seq<char>)
    requires
        !head.contains(LINE_FEED),
    ensures
        split_lines(head + seq![LINE_FEED] + tail) == seq![without_carriage_return(head)] + split_lines(tail),
{
    let text = head + seq![LINE_FEED] + tail;
    lemma_first_line_feed_after(head, tail);
    assert(text.take(head.len() as int) == head);
    assert(text.skip(head.len() as int + 1) == tail);
}

} // verus!
