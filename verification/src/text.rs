//! The text storage of a buffer and its line structure.
//!
//! A text is a sequence of characters. A line feed ends a line and belongs to
//! the line it ends; the text after the last line feed is the last line, which
//! is empty when the text is empty or ends with a line feed.

use ropey::Rope;
use vstd::prelude::*;

verus! {

/// `ropey::Rope`, the text storage of a buffer. What it holds is read
/// through [`rope_text`].
#[verifier::external_type_specification]
#[verifier::external_body]
pub struct ExRope(Rope);

/// The characters a rope holds, in order.
pub uninterp spec fn rope_text(rope: Rope) -> Seq<char>;

/// Number of line feeds among the first `n` characters of `text`.
pub open spec fn feeds_before(text: Seq<char>, n: nat) -> nat
    decreases n,
{
    if n == 0 {
        0
    } else {
        feeds_before(text, (n - 1) as nat) + if text[n - 1] == '\n' {
            1nat
        } else {
            0nat
        }
    }
}

/// Number of lines of `text`: one more than it has line feeds.
pub open spec fn line_count(text: Seq<char>) -> nat {
    feeds_before(text, text.len()) + 1
}

/// Offset just past the first line feed at or after `from`, or the length of
/// `text` where there is none.
pub open spec fn line_end(text: Seq<char>, from: nat) -> nat
    decreases text.len() - from,
{
    if from >= text.len() {
        text.len()
    } else if text[from as int] == '\n' {
        from + 1
    } else {
        line_end(text, from + 1)
    }
}

/// Offset of the first character of the line with zero-based index `line`.
/// For an index past the last line this is the length of `text`.
pub open spec fn line_start(text: Seq<char>, line: nat) -> nat
    decreases line,
{
    if line == 0 {
        0
    } else {
        line_end(text, line_start(text, (line - 1) as nat))
    }
}

/// Number of characters of the line with zero-based index `line`, its line
/// feed included. A line past the last one has none.
pub open spec fn line_len(text: Seq<char>, line: nat) -> nat {
    (line_start(text, line + 1) - line_start(text, line)) as nat
}

/// One-based index of the last line that holds a character; zero for the empty
/// text.
pub open spec fn last_full_line(text: Seq<char>) -> nat {
    if line_len(text, (line_count(text) - 1) as nat) > 0 {
        line_count(text)
    } else {
        (line_count(text) - 1) as nat
    }
}

/// `text` with `chunk` put in at offset `at`.
pub open spec fn spliced(text: Seq<char>, at: int, chunk: Seq<char>) -> Seq<char> {
    text.subrange(0, at) + chunk + text.subrange(at, text.len() as int)
}

/// `text` without the characters at offsets `from..to`.
pub open spec fn cut(text: Seq<char>, from: int, to: int) -> Seq<char> {
    text.subrange(0, from) + text.subrange(to, text.len() as int)
}

/// The count of line feeds grows with the offset, by no more than the offset
/// does.
pub proof fn lemma_feeds_monotone(text: Seq<char>, a: nat, b: nat)
    requires
        a <= b,
    ensures
        feeds_before(text, a) <= feeds_before(text, b) <= feeds_before(text, a) + (b - a),
    decreases b - a,
{
    if a < b {
        lemma_feeds_monotone(text, a, (b - 1) as nat);
    }
}

/// Where no line feed stands between `a` and `b`, the count does not move.
pub proof fn lemma_feeds_flat(text: Seq<char>, a: nat, b: nat)
    requires
        a <= b,
        forall|j: int| a <= j < b ==> text[j] != '\n',
    ensures
        feeds_before(text, b) == feeds_before(text, a),
    decreases b - a,
{
    if a < b {
        lemma_feeds_flat(text, a, (b - 1) as nat);
    }
}

/// The count of line feeds reads only the characters before the offset.
pub proof fn lemma_feeds_prefix(s: Seq<char>, t: Seq<char>, n: nat)
    requires
        forall|j: int| 0 <= j < n ==> s[j] == t[j],
    ensures
        feeds_before(s, n) == feeds_before(t, n),
    decreases n,
{
    if n > 0 {
        lemma_feeds_prefix(s, t, (n - 1) as nat);
    }
}

/// What `line_end` finds: the first line feed from `from` on, or the end.
pub proof fn lemma_line_end(text: Seq<char>, from: nat)
    requires
        from <= text.len(),
    ensures
        from <= line_end(text, from) <= text.len(),
        from < text.len() ==> from < line_end(text, from),
        forall|j: int| from <= j < line_end(text, from) - 1 ==> text[j] != '\n',
        (from < line_end(text, from) && text[line_end(text, from) - 1] == '\n') || (line_end(
            text,
            from,
        ) == text.len() && forall|j: int| from <= j < text.len() ==> text[j] != '\n'),
    decreases text.len() - from,
{
    if from < text.len() && text[from as int] != '\n' {
        lemma_line_end(text, from + 1);
        let e = line_end(text, from + 1);
        assert(line_end(text, from) == e);
        assert forall|j: int| from <= j < e - 1 implies text[j] != '\n' by {
            if j > from {
                assert(from + 1 <= j < e - 1);
            }
        }
        if !(from + 1 < e && text[e - 1] == '\n') {
            assert forall|j: int| from <= j < text.len() implies text[j] != '\n' by {
                if j > from {
                    assert(from + 1 <= j < text.len());
                }
            }
        }
    }
}

/// A line feed at `at - 1` with none between `from` and it ends the line that
/// begins at `from`.
pub proof fn lemma_line_end_at(text: Seq<char>, from: nat, at: nat)
    requires
        from < at <= text.len(),
        text[at - 1] == '\n',
        forall|j: int| from <= j < at - 1 ==> text[j] != '\n',
    ensures
        line_end(text, from) == at,
    decreases at - from,
{
    if from + 1 < at {
        lemma_line_end_at(text, from + 1, at);
    }
}

/// The line starts: each lies in the text, a line that exists begins after
/// exactly as many line feeds as its index, and every index past the last line
/// is sent to the end of the text.
pub proof fn lemma_line_start(text: Seq<char>, line: nat)
    ensures
        line_start(text, line) <= text.len(),
        line < line_count(text) ==> feeds_before(text, line_start(text, line)) == line,
        0 < line < line_count(text) ==> 0 < line_start(text, line) && text[line_start(text, line)
            - 1] == '\n',
        line >= line_count(text) ==> line_start(text, line) == text.len(),
    decreases line,
{
    if line > 0 {
        let prev = (line - 1) as nat;
        lemma_line_start(text, prev);
        let a = line_start(text, prev);
        let e = line_end(text, a);
        lemma_line_end(text, a);
        lemma_feeds_monotone(text, e, text.len());
        if prev < line_count(text) {
            if a < e && text[e - 1] == '\n' {
                lemma_feeds_flat(text, a, (e - 1) as nat);
            } else {
                lemma_feeds_flat(text, a, text.len());
            }
        }
    }
}

/// Line starts do not go back, and a line that is not the last one holds at
/// least its line feed.
pub proof fn lemma_line_len(text: Seq<char>, line: nat)
    ensures
        line_start(text, line) <= line_start(text, line + 1) <= text.len(),
        line_start(text, line) + line_len(text, line) == line_start(text, line + 1),
        line + 1 < line_count(text) ==> line_len(text, line) >= 1,
        line >= line_count(text) ==> line_len(text, line) == 0,
{
    lemma_line_start(text, line);
    lemma_line_start(text, line + 1);
    lemma_line_end(text, line_start(text, line));
    if line + 1 < line_count(text) {
        lemma_feeds_monotone(text, line_start(text, line), line_start(text, line + 1));
    }
}

/// Line starts are ordered as their indices are.
pub proof fn lemma_line_start_monotone(text: Seq<char>, a: nat, b: nat)
    requires
        a <= b,
    ensures
        line_start(text, a) <= line_start(text, b),
    decreases b - a,
{
    if a < b {
        lemma_line_start_monotone(text, a, (b - 1) as nat);
        lemma_line_len(text, (b - 1) as nat);
    }
}

/// The lines of a text that is not empty: there is a last line that holds a
/// character, every line up to it does, and no line after it does.
pub proof fn lemma_last_full_line(text: Seq<char>)
    requires
        text.len() > 0,
    ensures
        1 <= last_full_line(text) <= line_count(text),
        last_full_line(text) + 1 >= line_count(text),
        last_full_line(text) <= text.len(),
        forall|line: nat| line < last_full_line(text) ==> #[trigger] line_len(text, line) >= 1,
        forall|line: nat| line >= last_full_line(text) ==> #[trigger] line_len(text, line) == 0,
{
    let last = (line_count(text) - 1) as nat;
    lemma_line_len(text, last);
    lemma_line_start(text, last);
    lemma_line_start(text, last + 1);
    if last == 0 {
        assert(line_start(text, 0) == 0);
    }
    lemma_feeds_monotone(text, 0, line_start(text, last));
    lemma_feeds_monotone(text, 0, text.len());
    assert forall|line: nat| line < last_full_line(text) implies #[trigger] line_len(text, line)
        >= 1 by {
        lemma_line_len(text, line);
    }
    assert forall|line: nat| line >= last_full_line(text) implies #[trigger] line_len(text, line)
        == 0 by {
        lemma_line_len(text, line);
    }
}

/// The start of a line that exists reads only the characters before it: two
/// texts that agree up to an offset at or after that start have it in common.
pub proof fn lemma_line_start_prefix(s: Seq<char>, t: Seq<char>, line: nat, n: nat)
    requires
        line < line_count(s),
        line_start(s, line) <= n,
        n <= t.len(),
        forall|j: int| 0 <= j < n ==> s[j] == t[j],
    ensures
        line_start(t, line) == line_start(s, line),
        line < line_count(t),
    decreases line,
{
    lemma_line_start(s, line);
    if line > 0 {
        let prev = (line - 1) as nat;
        lemma_line_len(s, prev);
        lemma_line_start_prefix(s, t, prev, n);
        let a = line_start(s, prev);
        let e = line_start(s, line);
        lemma_line_end(s, a);
        lemma_feeds_monotone(s, a, e);
        assert(a < e);
        lemma_line_end_at(t, a, e);
    }
    lemma_feeds_prefix(s, t, line_start(s, line));
    lemma_feeds_monotone(t, line_start(s, line), t.len());
}

/// `Rope::from_str`: the rope that holds the characters of `text`.
#[verifier::external_body]
pub(crate) fn rope_from_str(text: &str) -> (rope: Rope)
    ensures
        rope_text(rope) == text@,
{
    Rope::from_str(text)
}

/// `Rope::len_chars`: the number of characters the rope holds.
#[verifier::external_body]
pub(crate) fn len_chars(rope: &Rope) -> (n: usize)
    ensures
        n == rope_text(*rope).len(),
{
    rope.len_chars()
}

/// A rope knows the length of its text, so the length is a `usize`.
pub(crate) fn text_fits(rope: &Rope)
    ensures
        rope_text(*rope).len() <= usize::MAX,
{
    let _length: usize = len_chars(rope);
}

/// `Rope::len_lines`: the number of line breaks plus one. The crate is built
/// to take the line feed, alone or after a carriage return, as its only line
/// break.
#[verifier::external_body]
pub(crate) fn len_lines(rope: &Rope) -> (n: usize)
    ensures
        n == line_count(rope_text(*rope)),
{
    rope.len_lines()
}

/// `Rope::line_to_char`: the offset of the first character of a line, which is
/// the start of the rope or the offset just past a line break; for the index
/// one past the last line, the number of characters.
#[verifier::external_body]
pub(crate) fn line_to_char(rope: &Rope, line_idx: usize) -> (n: usize)
    requires
        line_idx <= line_count(rope_text(*rope)),
    ensures
        n == line_start(rope_text(*rope), line_idx as nat),
{
    rope.line_to_char(line_idx)
}

/// `Rope::line` and `RopeSlice::len_chars`: the number of characters of a
/// line, which runs from its start to the start of the next line, or to the
/// end of the rope for the last line.
#[verifier::external_body]
pub(crate) fn line_len_chars(rope: &Rope, line_idx: usize) -> (n: usize)
    requires
        line_idx < line_count(rope_text(*rope)),
    ensures
        n == line_len(rope_text(*rope), line_idx as nat),
{
    rope.line(line_idx).len_chars()
}

/// `Rope::insert_char`: puts one character in at a character offset.
#[verifier::external_body]
pub(crate) fn insert_char_at(rope: &mut Rope, char_idx: usize, ch: char)
    requires
        char_idx <= rope_text(*old(rope)).len(),
    ensures
        rope_text(*final(rope)) == spliced(rope_text(*old(rope)), char_idx as int, seq![ch]),
{
    rope.insert_char(char_idx, ch)
}

/// `Rope::insert`: puts a string in at a character offset.
#[verifier::external_body]
pub(crate) fn insert_str_at(rope: &mut Rope, char_idx: usize, text: &str)
    requires
        char_idx <= rope_text(*old(rope)).len(),
    ensures
        rope_text(*final(rope)) == spliced(rope_text(*old(rope)), char_idx as int, text@),
{
    rope.insert(char_idx, text)
}

/// `Rope::remove`: takes out the characters of a range of character offsets.
#[verifier::external_body]
pub(crate) fn remove_range(rope: &mut Rope, start: usize, end: usize)
    requires
        start <= end <= rope_text(*old(rope)).len(),
    ensures
        rope_text(*final(rope)) == cut(rope_text(*old(rope)), start as int, end as int),
{
    rope.remove(start..end)
}

/// `Rope::slice` and `RopeSlice`'s `to_string`: the characters of a range of
/// character offsets as a string.
#[verifier::external_body]
pub(crate) fn slice_to_string(rope: &Rope, start: usize, end: usize) -> (s: String)
    requires
        start <= end <= rope_text(*rope).len(),
    ensures
        s@ == rope_text(*rope).subrange(start as int, end as int),
{
    rope.slice(start..end).to_string()
}

} // verus!
