//! A buffer: one document's text, its name and file, and its undo log.

use crate::location::{lemma_offsets_ordered, Position, Selection};
use crate::text::{
    cut, insert_char_at, insert_str_at, lemma_line_len, lemma_line_start_prefix, line_count,
    line_start, remove_range, rope_text, slice_to_string, spliced, text_fits,
};
use ropey::Rope;
use std::collections::VecDeque;
use std::path::PathBuf;
use vstd::prelude::*;
use vstd::string::StrSliceExecFns;

verus! {

/// `std::path::PathBuf`, carried through as the path of a buffer's file.
#[verifier::external_type_specification]
#[verifier::external_body]
pub struct ExPathBuf(PathBuf);

/// One recorded change of a text: what was put in or taken out, and where.
#[derive(Debug, Clone)]
pub enum Edit {
    Insert { pos: Position, text: String },
    Delete { pos: Position, text: String },
}

/// An [`Edit`] with its text as a sequence of characters.
pub enum EditModel {
    Insert { pos: Position, text: Seq<char> },
    Delete { pos: Position, text: Seq<char> },
}

impl EditModel {
    /// Whether the edit can be taken back from `text`: its position lies in
    /// the text, and so does what an insertion put in.
    pub open spec fn revertible(self, text: Seq<char>) -> bool {
        match self {
            EditModel::Insert { pos, text: put } => pos.wf() && pos.offset_in(text) + put.len()
                <= text.len(),
            EditModel::Delete { pos, text: taken } => pos.wf() && pos.offset_in(text)
                <= text.len(),
        }
    }

    /// `text` with the edit taken back: what an insertion put in is cut out,
    /// what a deletion took out is put in again.
    pub open spec fn reverted(self, text: Seq<char>) -> Seq<char> {
        match self {
            EditModel::Insert { pos, text: put } => cut(
                text,
                pos.offset_in(text) as int,
                (pos.offset_in(text) + put.len()) as int,
            ),
            EditModel::Delete { pos, text: taken } => spliced(
                text,
                pos.offset_in(text) as int,
                taken,
            ),
        }
    }
}

impl EditModel {
    /// `text` with the edit made: what an insertion holds is put in, what a
    /// deletion holds is cut out.
    pub open spec fn applied(self, text: Seq<char>) -> Seq<char> {
        match self {
            EditModel::Insert { pos, text: put } => spliced(
                text,
                pos.offset_in(text) as int,
                put,
            ),
            EditModel::Delete { pos, text: taken } => cut(
                text,
                pos.offset_in(text) as int,
                (pos.offset_in(text) + taken.len()) as int,
            ),
        }
    }
}

impl View for Edit {
    type V = EditModel;

    open spec fn view(&self) -> EditModel {
        match *self {
            Edit::Insert { pos, text } => EditModel::Insert { pos, text: text@ },
            Edit::Delete { pos, text } => EditModel::Delete { pos, text: text@ },
        }
    }
}

/// Whether the log `edits` fits `text`: every edit can be taken back in turn,
/// the last one first, starting from `text`, and making an edit again after
/// it was taken back gives the text from which it was taken back.
pub open spec fn replayable(text: Seq<char>, edits: Seq<EditModel>) -> bool
    decreases edits.len(),
{
    edits.len() == 0 || (edits.last().revertible(text) && edits.last().applied(
        edits.last().reverted(text),
    ) == text && replayable(edits.last().reverted(text), edits.drop_last()))
}

/// The text before the first edit of `edits`: `text` with every edit taken
/// back, the last one first.
pub open spec fn baseline(text: Seq<char>, edits: Seq<EditModel>) -> Seq<char>
    decreases edits.len(),
{
    if edits.len() == 0 {
        text
    } else {
        baseline(edits.last().reverted(text), edits.drop_last())
    }
}

/// `text` with every edit of `edits` made, the first one first.
pub open spec fn replayed(text: Seq<char>, edits: Seq<EditModel>) -> Seq<char>
    decreases edits.len(),
{
    if edits.len() == 0 {
        text
    } else {
        edits.last().applied(replayed(text, edits.drop_last()))
    }
}

/// The edits of a log that fits a text, made in order on the text before the
/// first of them, give the text.
pub proof fn lemma_log_replays(text: Seq<char>, edits: Seq<EditModel>)
    requires
        replayable(text, edits),
    ensures
        replayed(baseline(text, edits), edits) == text,
    decreases edits.len(),
{
    if edits.len() > 0 {
        lemma_log_replays(edits.last().reverted(text), edits.drop_last());
    }
}

/// An insertion that was recorded can be taken back, and taking it back gives
/// the text as it was before the insertion.
pub proof fn lemma_insert_reverts(text: Seq<char>, pos: Position, c: char)
    requires
        pos.wf(),
        pos.line.offset() < line_count(text),
        pos.offset_in(text) <= text.len(),
    ensures
        (EditModel::Insert { pos, text: seq![c] }).revertible(
            spliced(text, pos.offset_in(text) as int, seq![c]),
        ),
        (EditModel::Insert { pos, text: seq![c] }).reverted(
            spliced(text, pos.offset_in(text) as int, seq![c]),
        ) == text,
        (EditModel::Insert { pos, text: seq![c] }).applied(text) == spliced(
            text,
            pos.offset_in(text) as int,
            seq![c],
        ),
{
    let at = pos.offset_in(text);
    let after = spliced(text, at as int, seq![c]);
    lemma_line_start_prefix(text, after, pos.line.offset(), at);
    assert(cut(after, at as int, (at + 1) as int) =~= text);
}

/// The deletion of what a valid selection covers can be taken back, and
/// taking it back gives the text as it was before the deletion.
pub proof fn lemma_delete_reverts(text: Seq<char>, sel: Selection)
    requires
        sel.valid_in(text),
    ensures
        sel.first_offset(text) <= sel.last_offset(text) < text.len(),
        (EditModel::Delete {
            pos: sel.ordered_spec().start,
            text: text.subrange(sel.first_offset(text) as int, sel.last_offset(text) + 1),
        }).revertible(cut(text, sel.first_offset(text) as int, sel.last_offset(text) + 1)),
        (EditModel::Delete {
            pos: sel.ordered_spec().start,
            text: text.subrange(sel.first_offset(text) as int, sel.last_offset(text) + 1),
        }).reverted(cut(text, sel.first_offset(text) as int, sel.last_offset(text) + 1))
            == text,
        (EditModel::Delete {
            pos: sel.ordered_spec().start,
            text: text.subrange(sel.first_offset(text) as int, sel.last_offset(text) + 1),
        }).applied(text) == cut(text, sel.first_offset(text) as int, sel.last_offset(text) + 1),
{
    let first = sel.ordered_spec().start;
    let a = sel.first_offset(text);
    let b = sel.last_offset(text) + 1;
    lemma_offsets_ordered(text, first, sel.ordered_spec().end);
    let after = cut(text, a as int, b as int);
    lemma_line_len(text, first.line.offset());
    lemma_line_start_prefix(text, after, first.line.offset(), a as nat);
    assert(spliced(after, a as int, text.subrange(a as int, b as int)) =~= text);
}

/// The error of an undo on an empty log.
#[derive(Debug)]
pub struct NothingLeftToUndo;

/// The undo log of a buffer: its edits, the oldest first.
pub struct History {
    edits: VecDeque<Edit>,
}

impl View for History {
    type V = Seq<EditModel>;

    closed spec fn view(&self) -> Seq<EditModel> {
        self.edits@.map_values(|e: Edit| e@)
    }
}

impl Default for History {
    fn default() -> (history: History)
        ensures
            history@ == Seq::<EditModel>::empty(),
    {
        History::new()
    }
}

impl History {
    /// The empty log.
    pub fn new() -> (history: History)
        ensures
            history@ == Seq::<EditModel>::empty(),
    {
        let history = History { edits: VecDeque::new() };
        assert(history@ =~= Seq::<EditModel>::empty());
        history
    }

    /// Puts `c` into the text at `pos` and records the insertion.
    pub fn insert_char(&mut self, rope: &mut Rope, pos: Position, c: char)
        requires
            pos.wf(),
            pos.offset_in(rope_text(*old(rope))) <= rope_text(*old(rope)).len(),
        ensures
            rope_text(*final(rope)) == spliced(
                rope_text(*old(rope)),
                pos.offset_in(rope_text(*old(rope))) as int,
                seq![c],
            ),
            final(self)@ == old(self)@.push(EditModel::Insert { pos, text: seq![c] }),
    {
        text_fits(rope);
        let at: usize = pos.char_of(rope);
        insert_char_at(rope, at, c);
        let mut text = String::new();
        text.push(c);
        assert(text@ =~= seq![c]);
        self.push_back(Edit::Insert { pos, text });
    }

    /// Takes the characters that `sel` covers out of the text and records the
    /// deletion, at the first of the selection's two ends.
    pub fn remove_selection(&mut self, rope: &mut Rope, sel: Selection)
        requires
            sel.wf(),
            sel.first_offset(rope_text(*old(rope))) <= sel.last_offset(rope_text(*old(rope))),
            sel.last_offset(rope_text(*old(rope))) < rope_text(*old(rope)).len(),
        ensures
            rope_text(*final(rope)) == cut(
                rope_text(*old(rope)),
                sel.first_offset(rope_text(*old(rope))) as int,
                (sel.last_offset(rope_text(*old(rope))) + 1) as int,
            ),
            final(self)@ == old(self)@.push(
                EditModel::Delete {
                    pos: sel.ordered_spec().start,
                    text: rope_text(*old(rope)).subrange(
                        sel.first_offset(rope_text(*old(rope))) as int,
                        (sel.last_offset(rope_text(*old(rope))) + 1) as int,
                    ),
                },
            ),
    {
        text_fits(rope);
        let range = sel.range_of(rope);
        let text = slice_to_string(rope, range.start, range.end);
        remove_range(rope, range.start, range.end);
        self.push_back(Edit::Delete { pos: sel.ordered().start, text });
    }

    /// Takes the last edit back: what it put in is cut out of the text, what
    /// it took out is put in again. Fails on an empty log, with the text as
    /// it was.
    pub fn undo(&mut self, rope: &mut Rope) -> (result: Result<(), NothingLeftToUndo>)
        requires
            old(self)@.len() > 0 ==> old(self)@.last().revertible(rope_text(*old(rope))),
        ensures
            result.is_ok() == (old(self)@.len() > 0),
            result.is_ok() ==> final(self)@ == old(self)@.drop_last() && rope_text(*final(rope))
                == old(self)@.last().reverted(rope_text(*old(rope))),
            result.is_err() ==> final(self)@ == old(self)@ && rope_text(*final(rope)) == rope_text(
                *old(rope),
            ),
    {
        text_fits(rope);
        match self.edits.pop_back() {
            None => {
                assert(self@ =~= old(self)@);
                Err(NothingLeftToUndo)
            },
            Some(edit) => {
                proof {
                    assert(self@ =~= old(self)@.drop_last());
                    assert(old(self)@.last() == edit@);
                }
                match edit {
                    Edit::Insert { pos, text } => {
                        let at: usize = pos.char_of(rope);
                        let n: usize = text.as_str().unicode_len();
                        remove_range(rope, at, at + n);
                    },
                    Edit::Delete { pos, text } => {
                        let at: usize = pos.char_of(rope);
                        insert_str_at(rope, at, text.as_str());
                    },
                }
                Ok(())
            },
        }
    }

    /// Appends `edit` to the log.
    pub fn push_back(&mut self, edit: Edit)
        ensures
            final(self)@ == old(self)@.push(edit@),
    {
        self.edits.push_back(edit);
        assert(self@ =~= old(self)@.push(edit@));
    }
}

/// One open document.
pub struct BufferData {
    pub path: Option<PathBuf>,
    pub name: String,
    pub content: Rope,
    pub history: History,
}

/// A buffer as plain values.
pub struct BufferView {
    pub path: Option<PathBuf>,
    pub name: Seq<char>,
    pub text: Seq<char>,
    pub history: Seq<EditModel>,
}

impl View for BufferData {
    type V = BufferView;

    open spec fn view(&self) -> BufferView {
        BufferView {
            path: self.path,
            name: self.name@,
            text: rope_text(self.content),
            history: self.history@,
        }
    }
}

impl BufferView {
    /// The text is not empty, and the log fits it.
    pub open spec fn wf(self) -> bool {
        self.text.len() > 0 && replayable(self.text, self.history)
    }

    /// The buffer after `c` was put in at `at`, with the insertion recorded.
    pub open spec fn inserted(self, at: Position, c: char) -> BufferView {
        BufferView {
            text: spliced(self.text, at.offset_in(self.text) as int, seq![c]),
            history: self.history.push(EditModel::Insert { pos: at, text: seq![c] }),
            ..self
        }
    }

    /// The buffer after what `sel` covers, once validated, was taken out,
    /// with the deletion recorded.
    pub open spec fn removed(self, sel: Selection) -> BufferView {
        BufferView {
            text: sel.rest_of(self.text),
            history: self.history.push(sel.deletion(self.text)),
            ..self
        }
    }

    /// The buffer after the last edit of its log was taken back.
    pub open spec fn reverted(self) -> BufferView {
        BufferView {
            text: self.history.last().reverted(self.text),
            history: self.history.drop_last(),
            ..self
        }
    }

    /// The buffer after the repair of an empty text: its text is one line
    /// feed, whose insertion the log records. A buffer whose text is not
    /// empty stays as it is.
    pub open spec fn repaired(self) -> BufferView {
        if self.text.len() > 0 {
            self
        } else {
            BufferView {
                text: seq!['\n'],
                history: self.history.push(
                    EditModel::Insert { pos: Position::file_start_spec(), text: seq!['\n'] },
                ),
                ..self
            }
        }
    }
}

/// A repair leaves a text that is not empty and a log that fits it.
pub proof fn lemma_repaired(buffer: BufferView)
    requires
        replayable(buffer.text, buffer.history),
    ensures
        buffer.repaired().wf(),
{
    if buffer.text.len() == 0 {
        let feed = seq!['\n'];
        let repair = EditModel::Insert { pos: Position::file_start_spec(), text: feed };
        assert(line_start(feed, 0) == 0);
        assert(repair.reverted(feed) =~= buffer.text);
        assert(buffer.history.push(repair).drop_last() =~= buffer.history);
    }
}

/// Brings an empty text to the text of one line feed and records the
/// insertion.
pub(crate) fn repair(buffer: &mut BufferData)
    requires
        replayable(old(buffer)@.text, old(buffer)@.history),
    ensures
        final(buffer)@ == old(buffer)@.repaired(),
        final(buffer)@.wf(),
{
    proof {
        lemma_repaired(buffer@);
    }
    let mut start = Position::file_start();
    start.validate_fix(buffer);
}

} // verus!
