//! Lines, columns, positions and selections, and the movements over a text.
//!
//! Lines and columns are counted from one. A position names a character slot;
//! it is valid in a text when its column lies on its line. A line's own line
//! feed is its last slot.

use crate::buffer::{lemma_delete_reverts, BufferData, EditModel};
use crate::text::{
    cut, last_full_line, lemma_last_full_line, lemma_line_len, lemma_line_start,
    lemma_line_start_monotone, len_chars, len_lines, line_count, line_len, line_len_chars,
    line_start, line_to_char, rope_text, slice_to_string, text_fits,
};
use ropey::Rope;
use std::ops::Range;
use vstd::prelude::*;

verus! {

/// A line number, counted from one.
#[derive(Debug, Copy, Clone, Eq, PartialEq, Ord, PartialOrd, Structural)]
pub struct LineIndex(pub usize);

/// A column number, counted from one.
#[derive(Debug, Copy, Clone, Eq, PartialEq, Ord, PartialOrd, Structural)]
pub struct ColumnIndex(pub usize);

/// A character slot of a document.
#[derive(Debug, Copy, Clone, Eq, PartialEq, Ord, PartialOrd, Structural)]
pub struct Position {
    pub line: LineIndex,
    pub column: ColumnIndex,
}

/// A pair of positions: `start` is the anchor, `end` the cursor.
#[derive(Debug, Copy, Clone)]
pub struct Selection {
    pub start: Position,
    pub end: Position,
}

/// A direction to move a position in, with a repeat count where it has one.
#[derive(Debug, Copy, Clone)]
pub enum Movement {
    Left(usize),
    Right(usize),
    Up(usize),
    Down(usize),
    LineStart,
    LineEnd,
    FileStart,
    FileEnd,
}

/// Why a movement did not take place.
#[derive(Debug, Copy, Clone, PartialEq, Eq, Structural)]
pub enum MovementError {
    SelectionEmpty,
    NoPrevLine,
    NoNextLine,
}

impl MovementError {
    /// The words shown to the user for this error.
    pub fn message(self) -> (text: String)
        ensures
            text@ == self.words(),
    {
        match self {
            MovementError::SelectionEmpty => "selection is empty".to_owned(),
            MovementError::NoPrevLine => "no previous line".to_owned(),
            MovementError::NoNextLine => "no next line".to_owned(),
        }
    }

    /// The words shown to the user for this error.
    pub open spec fn words(self) -> Seq<char> {
        match self {
            MovementError::SelectionEmpty => "selection is empty"@,
            MovementError::NoPrevLine => "no previous line"@,
            MovementError::NoNextLine => "no next line"@,
        }
    }
}

impl LineIndex {
    /// The index is at least one.
    pub open spec fn wf(self) -> bool {
        self.0 >= 1
    }

    /// The index counted from zero.
    pub open spec fn offset(self) -> nat {
        (self.0 - 1) as nat
    }

    /// Number of characters of this line in `text`.
    pub open spec fn len_in(self, text: Seq<char>) -> nat {
        line_len(text, self.offset())
    }

    /// The line with the index `i` counted from zero.
    pub fn from_zero_based(i: usize) -> (line: LineIndex)
        requires
            i < usize::MAX,
        ensures
            line.0 == i + 1,
    {
        Self::from_one_based(i + 1)
    }

    /// The line with the index `i` counted from one.
    pub fn from_one_based(i: usize) -> (line: LineIndex)
        ensures
            line.0 == i,
    {
        LineIndex(i)
    }

    /// The index counted from zero.
    pub fn zero_based(self) -> (i: usize)
        requires
            self.wf(),
        ensures
            i == self.0 - 1,
    {
        self.one_based() - 1
    }

    /// The index counted from one.
    pub fn one_based(self) -> (i: usize)
        ensures
            i == self.0,
    {
        self.0
    }

    /// The character offsets of this line, its line feed included.
    pub fn range_of(self, rope: &Rope) -> (range: Range<usize>)
        requires
            self.wf(),
        ensures
            range.start == line_start(rope_text(*rope), self.offset()),
            range.end == range.start + self.len_in(rope_text(*rope)),
            range.end <= rope_text(*rope).len(),
    {
        proof {
            lemma_line_len(rope_text(*rope), self.offset());
        }
        text_fits(rope);
        let start: usize = self.char_of(rope);
        let len: usize = self.len_of(rope);
        start..start + len
    }

    /// The characters of this line, its line feed included.
    pub fn slice_of(self, rope: &Rope) -> (line: String)
        requires
            self.wf(),
        ensures
            line@ == rope_text(*rope).subrange(
                line_start(rope_text(*rope), self.offset()) as int,
                (line_start(rope_text(*rope), self.offset()) + self.len_in(rope_text(*rope)))
                    as int,
            ),
    {
        let range = self.range_of(rope);
        slice_to_string(rope, range.start, range.end)
    }

    /// The offset of the first character of this line. For a line past the
    /// last one this is the length of the text.
    pub fn char_of(self, rope: &Rope) -> (at: usize)
        requires
            self.wf(),
        ensures
            at == line_start(rope_text(*rope), self.offset()),
    {
        proof {
            lemma_line_start(rope_text(*rope), self.offset());
        }
        let line: usize = self.zero_based();
        if line > len_lines(rope) {
            len_chars(rope)
        } else {
            line_to_char(rope, line)
        }
    }

    /// The number of characters of this line, its line feed included. A line
    /// past the last one has none.
    pub fn len_of(self, rope: &Rope) -> (len: usize)
        requires
            self.wf(),
        ensures
            len == self.len_in(rope_text(*rope)),
    {
        proof {
            lemma_line_len(rope_text(*rope), self.offset());
        }
        let line: usize = self.zero_based();
        if line >= len_lines(rope) {
            0
        } else {
            line_len_chars(rope, line)
        }
    }

    /// Whether the index is the first one.
    pub fn is_first(self) -> (first: bool)
        ensures
            first == (self.0 == 1),
    {
        self.one_based() == 1
    }

    /// Whether this is the last line of the text.
    pub fn is_last(self, rope: &Rope) -> (last: bool)
        ensures
            last == (self.0 == line_count(rope_text(*rope))),
    {
        self.one_based() == len_lines(rope)
    }

    /// Whether this line holds no character.
    pub fn is_empty(self, rope: &Rope) -> (empty: bool)
        requires
            self.wf(),
        ensures
            empty == (self.len_in(rope_text(*rope)) == 0),
    {
        self.len_of(rope) == 0
    }
}

impl ColumnIndex {
    /// The index is at least one.
    pub open spec fn wf(self) -> bool {
        self.0 >= 1
    }

    /// The index counted from zero.
    pub open spec fn offset(self) -> nat {
        (self.0 - 1) as nat
    }

    /// The column with the index `i` counted from zero.
    pub fn from_zero_based(i: usize) -> (column: ColumnIndex)
        requires
            i < usize::MAX,
        ensures
            column.0 == i + 1,
    {
        Self::from_one_based(i + 1)
    }

    /// The column with the index `i` counted from one.
    pub fn from_one_based(i: usize) -> (column: ColumnIndex)
        ensures
            column.0 == i,
    {
        ColumnIndex(i)
    }

    /// The index counted from zero.
    pub fn zero_based(self) -> (i: usize)
        requires
            self.wf(),
        ensures
            i == self.0 - 1,
    {
        self.one_based() - 1
    }

    /// The index counted from one.
    pub fn one_based(self) -> (i: usize)
        ensures
            i == self.0,
    {
        self.0
    }

    /// Whether the index is the first one.
    pub fn is_first(self) -> (first: bool)
        ensures
            first == (self.0 == 1),
    {
        self.one_based() == 1
    }
}

/// The column of the last slot of a line: the number of its characters, and
/// one for a line that has none.
pub open spec fn end_column(text: Seq<char>, line: LineIndex) -> usize {
    if line.len_in(text) > 0 {
        line.len_in(text) as usize
    } else {
        1
    }
}

/// The position one slot to the left of `p`, which wraps to the end of the
/// line before; none at the start of the text.
pub open spec fn left_of(text: Seq<char>, p: Position) -> Option<Position> {
    if p.column.0 > 1 {
        Some(Position { line: p.line, column: ColumnIndex((p.column.0 - 1) as usize) })
    } else if p.line.0 > 1 {
        let line = LineIndex((p.line.0 - 1) as usize);
        Some(Position { line, column: ColumnIndex(end_column(text, line)) })
    } else {
        None
    }
}

/// The position one slot to the right of `p`, which wraps from the last slot
/// of a line to the start of the next line that holds a character; none where
/// there is no such line.
pub open spec fn right_of(text: Seq<char>, p: Position) -> Option<Position> {
    if p.column.0 == p.line.len_in(text) {
        if p.line.0 < last_full_line(text) {
            Some(Position { line: LineIndex((p.line.0 + 1) as usize), column: ColumnIndex(1) })
        } else {
            None
        }
    } else {
        Some(Position { line: p.line, column: ColumnIndex((p.column.0 + 1) as usize) })
    }
}

/// `p` after `n` steps to the left, each from the validated position, and the
/// error of the first step that could not be taken. The steps before it stay
/// taken.
pub open spec fn moved_left(text: Seq<char>, p: Position, n: nat) -> (Position, Option<
    MovementError,
>)
    decreases n,
{
    if n == 0 {
        (p, None)
    } else {
        match left_of(text, p.validated(text)) {
            Some(q) => moved_left(text, q, (n - 1) as nat),
            None => (p.validated(text), Some(MovementError::NoPrevLine)),
        }
    }
}

/// `p` after `n` steps to the right, each from the validated position, and
/// the error of the first step that could not be taken. The steps before it
/// stay taken.
pub open spec fn moved_right(text: Seq<char>, p: Position, n: nat) -> (Position, Option<
    MovementError,
>)
    decreases n,
{
    if n == 0 {
        (p, None)
    } else {
        match right_of(text, p.validated(text)) {
            Some(q) => moved_right(text, q, (n - 1) as nat),
            None => (p.validated(text), Some(MovementError::NoNextLine)),
        }
    }
}

/// Where `movement` takes `p` in `text`, and the error it ends with, if any.
/// In the empty text there is no slot to step to: a step to the left or to the
/// right fails there and leaves `p` as it is.
pub open spec fn moved(text: Seq<char>, p: Position, movement: Movement) -> (Position, Option<
    MovementError,
>) {
    match movement {
        Movement::Left(n) => if n > 0 && text.len() == 0 {
            (p, Some(MovementError::SelectionEmpty))
        } else {
            moved_left(text, p, n as nat)
        },
        Movement::Right(n) => if n > 0 && text.len() == 0 {
            (p, Some(MovementError::SelectionEmpty))
        } else {
            moved_right(text, p, n as nat)
        },
        Movement::Up(n) => if n == 0 {
            (p, None)
        } else if p.line.0 <= 1 {
            (p, Some(MovementError::NoPrevLine))
        } else if n >= p.line.0 - 1 {
            (Position { line: LineIndex(1), column: p.column }, None)
        } else {
            (Position { line: LineIndex((p.line.0 - n) as usize), column: p.column }, None)
        },
        Movement::Down(n) => if n == 0 {
            (p, None)
        } else if p.line.0 >= last_full_line(text) {
            (p, Some(MovementError::NoNextLine))
        } else if n >= last_full_line(text) - p.line.0 {
            (Position { line: LineIndex(last_full_line(text) as usize), column: p.column }, None)
        } else {
            (Position { line: LineIndex((p.line.0 + n) as usize), column: p.column }, None)
        },
        Movement::LineStart => (Position { line: p.line, column: ColumnIndex(1) }, None),
        Movement::LineEnd => (
            Position { line: p.line, column: ColumnIndex(end_column(text, p.line)) },
            None,
        ),
        Movement::FileStart => (Position { line: LineIndex(1), column: ColumnIndex(1) }, None),
        Movement::FileEnd => (
            Position {
                line: LineIndex(
                    if last_full_line(text) >= 1 {
                        last_full_line(text) as usize
                    } else {
                        1
                    },
                ),
                column: ColumnIndex(1),
            },
            None,
        ),
    }
}

/// A step to the left or to the right from a valid position ends on a valid
/// position.
pub proof fn lemma_step_valid(text: Seq<char>, p: Position)
    requires
        p.valid_in(text),
        text.len() <= usize::MAX,
    ensures
        left_of(text, p) matches Some(q) ==> q.valid_in(text),
        right_of(text, p) matches Some(q) ==> q.valid_in(text),
{
    lemma_line_len(text, p.line.offset());
    lemma_last_full_line(text);
    if p.line.0 > 1 {
        lemma_line_len(text, (p.line.0 - 2) as nat);
    }
    lemma_line_len(text, p.line.0 as nat);
}

/// Steps to the left keep line and column at one or more, and one step or
/// more ends on a valid position, also where a step fails.
pub proof fn lemma_steps_left(text: Seq<char>, p: Position, n: nat)
    requires
        p.wf(),
        text.len() <= usize::MAX,
        n > 0 ==> text.len() > 0,
    ensures
        moved_left(text, p, n).0.wf(),
        n > 0 ==> moved_left(text, p, n).0.valid_in(text),
    decreases n,
{
    if n > 0 {
        lemma_validated(text, p);
        lemma_step_valid(text, p.validated(text));
        match left_of(text, p.validated(text)) {
            Some(q) => {
                lemma_steps_left(text, q, (n - 1) as nat);
            },
            None => {},
        }
    }
}

/// Steps to the right keep line and column at one or more, and one step or
/// more ends on a valid position, also where a step fails.
pub proof fn lemma_steps_right(text: Seq<char>, p: Position, n: nat)
    requires
        p.wf(),
        text.len() <= usize::MAX,
        n > 0 ==> text.len() > 0,
    ensures
        moved_right(text, p, n).0.wf(),
        n > 0 ==> moved_right(text, p, n).0.valid_in(text),
    decreases n,
{
    if n > 0 {
        lemma_validated(text, p);
        lemma_step_valid(text, p.validated(text));
        match right_of(text, p.validated(text)) {
            Some(q) => {
                lemma_steps_right(text, q, (n - 1) as nat);
            },
            None => {},
        }
    }
}

/// A movement keeps line and column at one or more.
pub proof fn lemma_moved_wf(text: Seq<char>, p: Position, movement: Movement)
    requires
        p.wf(),
        text.len() <= usize::MAX,
    ensures
        moved(text, p, movement).0.wf(),
{
    match movement {
        Movement::Left(n) => {
            if !(n > 0 && text.len() == 0) {
                lemma_steps_left(text, p, n as nat);
            }
        },
        Movement::Right(n) => {
            if !(n > 0 && text.len() == 0) {
                lemma_steps_right(text, p, n as nat);
            }
        },
        _ => {
            lemma_line_len(text, p.line.offset());
            if text.len() > 0 {
                lemma_last_full_line(text);
            }
        },
    }
}

/// What validation gives: a position that is valid in the text, and the
/// position itself where it was valid.
pub proof fn lemma_validated(text: Seq<char>, p: Position)
    requires
        p.wf(),
        0 < text.len() <= usize::MAX,
    ensures
        p.validated(text).valid_in(text),
        p.valid_in(text) ==> p.validated(text) == p,
{
    lemma_last_full_line(text);
    lemma_line_len(text, p.line.offset());
    let full = last_full_line(text);
    assert(line_len(text, (full - 1) as nat) >= 1);
    lemma_line_len(text, (full - 1) as nat);
}

impl Position {
    /// Line and column are at least one.
    pub open spec fn wf(self) -> bool {
        self.line.wf() && self.column.wf()
    }

    /// The character offset of the position in `text`: the start of its line
    /// plus its column counted from zero.
    pub open spec fn offset_in(self, text: Seq<char>) -> nat {
        line_start(text, self.line.offset()) + self.column.offset()
    }

    /// The position is valid in `text`: its column is on its line.
    pub open spec fn valid_in(self, text: Seq<char>) -> bool {
        self.wf() && self.column.0 <= self.line.len_in(text)
    }

    /// Document order: by line, then by column.
    pub open spec fn at_or_before(self, other: Position) -> bool {
        self.line.0 < other.line.0 || (self.line.0 == other.line.0 && self.column.0
            <= other.column.0)
    }

    /// The position brought to validity in a text that is not empty. A valid
    /// position stays. One past the end of its line goes to the line's last
    /// slot. One on a line without characters, which is the empty last line
    /// or a line past it, goes to the last slot of the last line that holds a
    /// character.
    pub open spec fn validated(self, text: Seq<char>) -> Position {
        if self.valid_in(text) {
            self
        } else if self.line.len_in(text) > 0 {
            Position { line: self.line, column: ColumnIndex(self.line.len_in(text) as usize) }
        } else {
            let line = LineIndex(last_full_line(text) as usize);
            Position { line, column: ColumnIndex(line.len_in(text) as usize) }
        }
    }

    /// The first slot of the first line.
    pub open spec fn file_start_spec() -> Position {
        Position { line: LineIndex(1), column: ColumnIndex(1) }
    }

    /// The first slot of the first line.
    #[verifier::when_used_as_spec(file_start_spec)]
    pub fn file_start() -> (p: Position)
        ensures
            p == (Position { line: LineIndex(1), column: ColumnIndex(1) }),
    {
        Self { line: LineIndex::from_one_based(1), column: ColumnIndex::from_one_based(1) }
    }

    fn precedes(self, other: Position) -> (b: bool)
        ensures
            b == self.at_or_before(other),
    {
        self.line.0 < other.line.0 || (self.line.0 == other.line.0 && self.column.0
            <= other.column.0)
    }

    /// The character offset of the position.
    pub fn char_of(self, rope: &Rope) -> (at: usize)
        requires
            self.wf(),
            self.offset_in(rope_text(*rope)) <= usize::MAX,
        ensures
            at == self.offset_in(rope_text(*rope)),
    {
        self.line.char_of(rope) + self.column.zero_based()
    }

    /// Whether the position is valid in the text.
    pub fn is_valid(self, rope: &Rope) -> (valid: bool)
        requires
            self.wf(),
        ensures
            valid == self.valid_in(rope_text(*rope)),
    {
        self.column.one_based() <= self.line.len_of(rope)
    }

    /// Whether the position stands just past the last character of its line.
    pub fn is_full_line(self, rope: &Rope) -> (full: bool)
        requires
            self.wf(),
        ensures
            full == (self.line.len_in(rope_text(*rope)) == self.column.offset()),
    {
        self.line.len_of(rope) == self.column.zero_based()
    }

    /// Puts `c` into the buffer's text at the position and records the
    /// insertion in its log.
    pub fn insert_char(self, buffer: &mut BufferData, c: char)
        requires
            self.wf(),
            self.offset_in(old(buffer)@.text) <= old(buffer)@.text.len(),
        ensures
            final(buffer)@ == old(buffer)@.inserted(self, c),
    {
        buffer.history.insert_char(&mut buffer.content, self, c);
    }

    /// Brings the position to validity in a text that is not empty.
    pub fn validate(&mut self, rope: &Rope)
        requires
            old(self).wf(),
            rope_text(*rope).len() > 0,
        ensures
            *final(self) == old(self).validated(rope_text(*rope)),
            final(self).valid_in(rope_text(*rope)),
    {
        text_fits(rope);
        proof {
            lemma_validated(rope_text(*rope), *self);
        }
        if !self.is_valid(rope) {
            proof {
                lemma_last_full_line(rope_text(*rope));
                lemma_line_len(rope_text(*rope), self.line.offset());
            }
            let lines: usize = len_lines(rope);
            if self.line.0 > lines {
                self.line = LineIndex(lines);
            }
            if self.line.is_empty(rope) {
                self.line.0 -= 1;
            }
            self.column = ColumnIndex(self.line.len_of(rope));
        }
    }

    /// Brings an empty text to the text of one line feed, with the insertion
    /// recorded in the log, and the position to validity in the text.
    pub fn validate_fix(&mut self, buffer: &mut BufferData)
        requires
            old(self).wf(),
        ensures
            final(buffer)@ == old(buffer)@.repaired(),
            *final(self) == old(self).validated(final(buffer)@.text),
            final(self).valid_in(final(buffer)@.text),
    {
        if len_chars(&buffer.content) == 0 {
            proof {
                lemma_single_feed(*self);
            }
            *self = Position::file_start();
            assert(line_start(buffer@.text, 0) == 0);
            self.insert_char(buffer, '\n');
            assert(buffer@.text =~= seq!['\n']);
        } else {
            self.validate(&buffer.content);
        }
    }

    /// Moves the position by `movement`. A movement of several steps that
    /// fails at one of them leaves the position where the steps before it
    /// took it.
    pub fn move_to(&mut self, rope: &Rope, movement: Movement) -> (result: Result<
        (),
        MovementError,
    >)
        requires
            old(self).wf(),
        ensures
            *final(self) == moved(rope_text(*rope), *old(self), movement).0,
            result == match moved(rope_text(*rope), *old(self), movement).1 {
                None => Ok::<(), MovementError>(()),
                Some(e) => Err::<(), MovementError>(e),
            },
            final(self).wf(),
    {
        let ghost text = rope_text(*rope);
        let total: usize = len_chars(rope);
        proof {
            lemma_moved_wf(text, *old(self), movement);
        }
        match movement {
            Movement::Left(n) => {
                if n > 0 && total == 0 {
                    return Err(MovementError::SelectionEmpty);
                }
                let mut i: usize = 0;
                while i < n
                    invariant
                        i <= n,
                        self.wf(),
                        text == rope_text(*rope),
                        text.len() <= usize::MAX,
                        n > 0 ==> text.len() > 0,
                        movement == Movement::Left(n),
                        moved_left(text, *old(self), n as nat) == moved_left(
                            text,
                            *self,
                            (n - i) as nat,
                        ),
                    decreases n - i,
                {
                    proof {
                        lemma_validated(text, *self);
                        lemma_step_valid(text, self.validated(text));
                    }
                    let ghost before = *self;
                    assert(moved_left(text, before, (n - i) as nat) == match left_of(
                        text,
                        before.validated(text),
                    ) {
                        Some(q) => moved_left(text, q, (n - i - 1) as nat),
                        None => (before.validated(text), Some(MovementError::NoPrevLine)),
                    });
                    self.validate(rope);
                    if self.column.is_first() {
                        if !self.line.is_first() {
                            self.line.0 -= 1;
                            self.column = self.end_column_of(rope);
                        } else {
                            return Err(MovementError::NoPrevLine);
                        }
                    } else {
                        self.column.0 -= 1;
                    }
                    i += 1;
                }
            },
            Movement::Right(n) => {
                if n > 0 && total == 0 {
                    return Err(MovementError::SelectionEmpty);
                }
                let mut i: usize = 0;
                while i < n
                    invariant
                        i <= n,
                        self.wf(),
                        text == rope_text(*rope),
                        text.len() <= usize::MAX,
                        n > 0 ==> text.len() > 0,
                        movement == Movement::Right(n),
                        moved_right(text, *old(self), n as nat) == moved_right(
                            text,
                            *self,
                            (n - i) as nat,
                        ),
                    decreases n - i,
                {
                    proof {
                        lemma_validated(text, *self);
                        lemma_step_valid(text, self.validated(text));
                        lemma_line_len(text, self.validated(text).line.offset());
                    }
                    let ghost before = *self;
                    assert(moved_right(text, before, (n - i) as nat) == match right_of(
                        text,
                        before.validated(text),
                    ) {
                        Some(q) => moved_right(text, q, (n - i - 1) as nat),
                        None => (before.validated(text), Some(MovementError::NoNextLine)),
                    });
                    self.validate(rope);
                    if self.column.one_based() == self.line.len_of(rope) {
                        if self.line.0 < last_line_with_text(rope) {
                            self.line.0 += 1;
                            self.column = ColumnIndex::from_one_based(1);
                        } else {
                            return Err(MovementError::NoNextLine);
                        }
                    } else {
                        self.column.0 += 1;
                    }
                    i += 1;
                }
            },
            Movement::Up(n) => {
                if n == 0 {
                    return Ok(());
                }
                let above: usize = self.line.zero_based();
                let n: usize = if n < above {
                    n
                } else {
                    above
                };
                if n == 0 {
                    return Err(MovementError::NoPrevLine);
                }
                self.line.0 -= n;
            },
            Movement::Down(n) => {
                if n == 0 {
                    return Ok(());
                }
                let full: usize = last_line_with_text(rope);
                if self.line.0 >= full {
                    return Err(MovementError::NoNextLine);
                }
                if n >= full - self.line.0 {
                    self.line.0 = full;
                } else {
                    self.line.0 += n;
                }
            },
            Movement::LineStart => {
                self.column = ColumnIndex::from_one_based(1);
            },
            Movement::LineEnd => {
                self.column = self.end_column_of(rope);
            },
            Movement::FileStart => {
                self.line = LineIndex::from_one_based(1);
                self.column = ColumnIndex::from_one_based(1);
            },
            Movement::FileEnd => {
                let full: usize = last_line_with_text(rope);
                self.line = LineIndex::from_one_based(
                    if full >= 1 {
                        full
                    } else {
                        1
                    },
                );
                self.column = ColumnIndex::from_one_based(1);
            },
        }
        Ok(())
    }

    fn end_column_of(self, rope: &Rope) -> (column: ColumnIndex)
        requires
            self.line.wf(),
        ensures
            column.0 == end_column(rope_text(*rope), self.line),
    {
        let len: usize = self.line.len_of(rope);
        if len > 0 {
            ColumnIndex::from_one_based(len)
        } else {
            ColumnIndex::from_one_based(1)
        }
    }
}

/// The one-based index of the last line that holds a character; zero for the
/// empty text.
fn last_line_with_text(rope: &Rope) -> (line: usize)
    ensures
        line == last_full_line(rope_text(*rope)),
{
    proof {
        lemma_line_len(rope_text(*rope), (line_count(rope_text(*rope)) - 1) as nat);
    }
    let lines: usize = len_lines(rope);
    if LineIndex(lines).len_of(rope) > 0 {
        lines
    } else {
        lines - 1
    }
}

impl Selection {
    /// Both ends have line and column at one or more.
    pub open spec fn wf(self) -> bool {
        self.start.wf() && self.end.wf()
    }

    /// Both ends are valid in `text`.
    pub open spec fn valid_in(self, text: Seq<char>) -> bool {
        self.start.valid_in(text) && self.end.valid_in(text)
    }

    /// The selection with its ends in document order.
    pub open spec fn ordered_spec(self) -> Selection {
        if self.start.at_or_before(self.end) {
            self
        } else {
            Selection { start: self.end, end: self.start }
        }
    }

    /// The selection with both ends validated.
    pub open spec fn validated(self, text: Seq<char>) -> Selection {
        Selection { start: self.start.validated(text), end: self.end.validated(text) }
    }

    /// The offset of the first character the selection covers.
    pub open spec fn first_offset(self, text: Seq<char>) -> int {
        self.ordered_spec().start.offset_in(text) as int
    }

    /// The offset of the last character the selection covers.
    pub open spec fn last_offset(self, text: Seq<char>) -> int {
        self.ordered_spec().end.offset_in(text) as int
    }

    /// The character offsets that the selection covers: from the first of its
    /// ends to the other, which is included.
    pub fn range_of(self, rope: &Rope) -> (range: Range<usize>)
        requires
            self.wf(),
            self.first_offset(rope_text(*rope)) <= usize::MAX,
            self.last_offset(rope_text(*rope)) < usize::MAX,
        ensures
            range.start == self.first_offset(rope_text(*rope)),
            range.end == self.last_offset(rope_text(*rope)) + 1,
    {
        let sel = self.ordered();
        sel.start.char_of(rope)..sel.end.char_of(rope) + 1
    }

    /// The characters that the selection covers.
    pub fn slice_of(self, rope: &Rope) -> (text: String)
        requires
            self.wf(),
            self.first_offset(rope_text(*rope)) <= self.last_offset(rope_text(*rope)),
            self.last_offset(rope_text(*rope)) < rope_text(*rope).len(),
        ensures
            text@ == rope_text(*rope).subrange(
                self.first_offset(rope_text(*rope)) as int,
                (self.last_offset(rope_text(*rope)) + 1) as int,
            ),
    {
        text_fits(rope);
        let range = self.range_of(rope);
        slice_to_string(rope, range.start, range.end)
    }

    /// Puts the ends in document order.
    pub fn order(&mut self)
        ensures
            *final(self) == old(self).ordered_spec(),
            final(self).start.at_or_before(final(self).end),
    {
        if !self.start.precedes(self.end) {
            self.flip();
        }
    }

    /// The selection with its ends in document order.
    pub fn ordered(self) -> (sel: Selection)
        ensures
            sel == self.ordered_spec(),
            sel.start.at_or_before(sel.end),
    {
        let mut sel = self;
        sel.order();
        sel
    }

    /// Whether `other` lies between the ends, which are included.
    pub fn contains(self, other: Position) -> (inside: bool)
        ensures
            inside == (self.ordered_spec().start.at_or_before(other) && other.at_or_before(
                self.ordered_spec().end,
            )),
    {
        let sel = self.ordered();
        sel.start.precedes(other) && other.precedes(sel.end)
    }

    /// Swaps the ends.
    pub fn flip(&mut self)
        ensures
            *final(self) == (Selection { start: old(self).end, end: old(self).start }),
    {
        let start = self.start;
        self.start = self.end;
        self.end = start;
    }

    /// The selection with its ends swapped.
    pub fn flipped(self) -> (sel: Selection)
        ensures
            sel == (Selection { start: self.end, end: self.start }),
    {
        let mut sel = self;
        sel.flip();
        sel
    }

    /// Whether the anchor is at or before the later of the two ends, which
    /// holds of every selection.
    pub fn is_ordered(self) -> (yes: bool)
        ensures
            yes == self.start.at_or_before(self.ordered_spec().end),
            yes,
    {
        let ordered = self.ordered();
        self.start.precedes(ordered.end)
    }

    /// The selection with both ends validated.
    pub fn valid(self, rope: &Rope) -> (sel: Selection)
        requires
            self.wf(),
            rope_text(*rope).len() > 0,
        ensures
            sel == self.validated(rope_text(*rope)),
            sel.valid_in(rope_text(*rope)),
    {
        text_fits(rope);
        proof {
            lemma_validated(rope_text(*rope), self.start);
            lemma_validated(rope_text(*rope), self.end);
        }
        let mut sel = self;
        sel.start.validate(rope);
        sel.end.validate(rope);
        sel
    }

    /// Validates both ends.
    pub fn validate(&mut self, rope: &Rope)
        requires
            old(self).wf(),
            rope_text(*rope).len() > 0,
        ensures
            *final(self) == old(self).validated(rope_text(*rope)),
            final(self).valid_in(rope_text(*rope)),
    {
        text_fits(rope);
        proof {
            lemma_validated(rope_text(*rope), self.start);
            lemma_validated(rope_text(*rope), self.end);
        }
        self.start.validate(rope);
        self.end.validate(rope);
    }

    /// Brings an empty text to the text of one line feed, with the insertion
    /// recorded in the log, and both ends to validity in the text.
    pub fn validate_fix(&mut self, buffer: &mut BufferData)
        requires
            old(self).wf(),
        ensures
            final(buffer)@ == old(buffer)@.repaired(),
            *final(self) == old(self).validated(final(buffer)@.text),
            final(self).valid_in(final(buffer)@.text),
    {
        self.start.validate_fix(buffer);
        self.end.validate_fix(buffer);
    }

    /// Takes the characters that the selection covers out of the buffer's
    /// text. The selection is validated and ordered first; the deletion is
    /// recorded in the log; the selection then stands, validated, where its
    /// first end stood. A text left empty is brought to the text of one line
    /// feed, and that insertion is recorded too.
    pub fn remove_from(&mut self, buffer: &mut BufferData)
        requires
            old(self).wf(),
            old(buffer)@.text.len() > 0,
        ensures
            final(buffer)@ == old(buffer)@.removed(*old(self)).repaired(),
            *final(self) == old(self).collapsed(old(buffer)@.text).validated(final(buffer)@.text),
            final(self).valid_in(final(buffer)@.text),
    {
        let ghost text = buffer@.text;
        self.validate(&buffer.content);
        self.order();
        proof {
            lemma_delete_reverts(text, old(self).validated(text));
        }
        buffer.history.remove_selection(&mut buffer.content, *self);
        self.end = self.start;
        self.validate_fix(buffer);
    }

    /// What is left of `text` when the characters that the validated
    /// selection covers are taken out.
    pub open spec fn rest_of(self, text: Seq<char>) -> Seq<char> {
        cut(
            text,
            self.validated(text).first_offset(text),
            self.validated(text).last_offset(text) + 1,
        )
    }

    /// The record of the deletion of what the validated selection covers in
    /// `text`: the characters, and the first of the two ends.
    pub open spec fn deletion(self, text: Seq<char>) -> EditModel {
        EditModel::Delete {
            pos: self.validated(text).ordered_spec().start,
            text: text.subrange(
                self.validated(text).first_offset(text),
                self.validated(text).last_offset(text) + 1,
            ),
        }
    }

    /// The selection with both ends where the first end of the validated
    /// selection stands.
    pub open spec fn collapsed(self, text: Seq<char>) -> Selection {
        Selection {
            start: self.validated(text).ordered_spec().start,
            end: self.validated(text).ordered_spec().start,
        }
    }

    /// Moves the cursor by `movement`. Unless the selection is dragged, the
    /// anchor then follows it. On an error the anchor stays.
    pub fn move_to(&mut self, rope: &Rope, movement: Movement, should_drag: bool) -> (result:
        Result<(), MovementError>)
        requires
            old(self).wf(),
        ensures
            final(self).end == moved(rope_text(*rope), old(self).end, movement).0,
            result == match moved(rope_text(*rope), old(self).end, movement).1 {
                None => Ok::<(), MovementError>(()),
                Some(e) => Err::<(), MovementError>(e),
            },
            final(self).start == if result.is_ok() && !should_drag {
                final(self).end
            } else {
                old(self).start
            },
            final(self).wf(),
    {
        match self.end.move_to(rope, movement) {
            Ok(()) => {},
            Err(e) => {
                return Err(e);
            },
        }
        if !should_drag {
            self.start = self.end;
        }
        Ok(())
    }
}

/// Of two valid positions in document order, the first has the smaller or the
/// same offset, and both offsets lie in the text.
pub proof fn lemma_offsets_ordered(text: Seq<char>, p: Position, q: Position)
    requires
        p.valid_in(text),
        q.valid_in(text),
        p.at_or_before(q),
    ensures
        p.offset_in(text) <= q.offset_in(text) < text.len(),
        p.line.offset() < line_count(text),
{
    lemma_line_len(text, p.line.offset());
    lemma_line_len(text, q.line.offset());
    if p.line.0 < q.line.0 {
        lemma_line_start_monotone(text, p.line.0 as nat, q.line.offset());
    }
}

/// The text of one line feed has one slot, and validation takes every
/// position to it.
pub proof fn lemma_single_feed(p: Position)
    requires
        p.wf(),
    ensures
        p.validated(seq!['\n']) == (Position { line: LineIndex(1), column: ColumnIndex(1) }),
        (Position { line: LineIndex(1), column: ColumnIndex(1) }).valid_in(seq!['\n']),
{
    let text = seq!['\n'];
    lemma_last_full_line(text);
    lemma_line_len(text, 0);
    lemma_line_len(text, 1);
    lemma_line_len(text, p.line.offset());
    assert(line_start(text, 0) == 0);
    reveal_with_fuel(crate::text::line_end, 2);
    assert(line_start(text, 1) == 1);
    reveal_with_fuel(crate::text::feeds_before, 2);
    assert(line_count(text) == 2);
}

} // verus!
