//! The actions of the editor, what they ask of the caller, how they fail, and
//! what an action on selections does to the selections of a window and to the
//! buffer under them.

use crate::arena::{selection_ids, selection_mut, BufferId, SelectionId};
use crate::buffer::{
    lemma_delete_reverts, lemma_insert_reverts, lemma_repaired, BufferData, BufferView,
};
use crate::location::{lemma_validated, moved, Movement, MovementError, Position, Selection};
use crate::state::{Mode, WindowData, WindowView};
use crate::text::{lemma_line_start, len_chars, len_lines, line_count, rope_text, text_fits};
use ropey::Rope;
use vstd::prelude::*;
use vstd::string::StringExecFns;

verus! {

/// One editor operation.
#[derive(Debug, Copy, Clone)]
pub enum Action {
    Editor(EditorAction),
    Buffer(BufferAction),
    Window(WindowAction),
    Command(CommandAction),
}

#[derive(Debug, Copy, Clone)]
/// An action on the tabs of the editor.
pub enum EditorAction {
    PreviousTab,
    NextTab,
}

#[derive(Debug, Copy, Clone)]
/// An action on the buffer of the focused window.
pub enum BufferAction {
    Undo,
    Redo,
}

#[derive(Debug, Copy, Clone)]
/// An action on the focused window: all but the change of mode reach each of
/// its selections.
pub enum WindowAction {
    InsertAtSelectionStart(char),
    InsertAtSelectionEnd(char),
    Delete,
    Move(Movement),
    ShiftStart(Movement),
    ShiftEnd(Movement),
    ScrollPageUp,
    ScrollPageDown,
    ScrollHalfPageUp,
    ScrollHalfPageDown,
    OrderSelections,
    SwitchToMode(Mode),
}

#[derive(Debug, Copy, Clone)]
/// An action on the command line of the focused window.
pub enum CommandAction {
    Character(char),
    Clear,
    Tab,
    Return,
    Backspace,
}

/// What the caller is to do after an action.
#[derive(Debug, PartialEq, Eq)]
pub enum Effect {
    /// Nothing.
    Nothing,
    /// Read the file of this name and hand it to [`EditorData::open`].
    Open { name: String },
    /// Write the text of this buffer to its path.
    Write { buffer: BufferId },
}

/// An [`Effect`] with its text as a sequence of characters.
pub enum EffectModel {
    Nothing,
    Open { name: Seq<char> },
    Write { buffer: BufferId },
}

impl View for Effect {
    type V = EffectModel;

    open spec fn view(&self) -> EffectModel {
        match *self {
            Effect::Nothing => EffectModel::Nothing,
            Effect::Open { name } => EffectModel::Open { name: name@ },
            Effect::Write { buffer } => EffectModel::Write { buffer },
        }
    }
}

/// Why an action was not carried out.
#[derive(Debug, PartialEq, Eq)]
pub enum EditorError {
    /// A movement failed.
    Movement(MovementError),
    /// A selection does not stand in the text, so nothing can be put in there.
    OutsideText,
    /// Redo is not available.
    NoRedo,
    /// The command line could not be split into words.
    Unparsable(String),
    /// The command line held no word.
    NoCommand,
    /// No command of this name exists.
    UnknownCommand(String),
    /// The command of this name was given too few arguments.
    MissingArgument(String),
    /// The buffer has no file to be written to.
    ScratchBuffer,
}

/// An [`EditorError`] with its text as a sequence of characters.
pub enum ErrorModel {
    Movement(MovementError),
    OutsideText,
    NoRedo,
    Unparsable(Seq<char>),
    NoCommand,
    UnknownCommand(Seq<char>),
    MissingArgument(Seq<char>),
    ScratchBuffer,
}

impl View for EditorError {
    type V = ErrorModel;

    open spec fn view(&self) -> ErrorModel {
        match *self {
            EditorError::Movement(e) => ErrorModel::Movement(e),
            EditorError::OutsideText => ErrorModel::OutsideText,
            EditorError::NoRedo => ErrorModel::NoRedo,
            EditorError::Unparsable(line) => ErrorModel::Unparsable(line@),
            EditorError::NoCommand => ErrorModel::NoCommand,
            EditorError::UnknownCommand(name) => ErrorModel::UnknownCommand(name@),
            EditorError::MissingArgument(name) => ErrorModel::MissingArgument(name@),
            EditorError::ScratchBuffer => ErrorModel::ScratchBuffer,
        }
    }
}

impl ErrorModel {
    /// The words shown to the user for this error.
    pub open spec fn words(self) -> Seq<char> {
        match self {
            ErrorModel::Movement(e) => e.words(),
            ErrorModel::OutsideText => "selection is outside the text"@,
            ErrorModel::NoRedo => "redo is not available"@,
            ErrorModel::Unparsable(line) => "failed to parse command '"@ + line + "'"@,
            ErrorModel::NoCommand => "no command given"@,
            ErrorModel::UnknownCommand(name) => "command '"@ + name + "' doesn't exist"@,
            ErrorModel::MissingArgument(name) => "command '"@ + name + "' needs an argument"@,
            ErrorModel::ScratchBuffer => "cannot save a scratch buffer"@,
        }
    }
}

impl EditorError {
    /// The words shown to the user for this error.
    pub fn message(&self) -> (text: String)
        ensures
            text@ == self@.words(),
    {
        match self {
            EditorError::Movement(e) => e.message(),
            EditorError::OutsideText => "selection is outside the text".to_owned(),
            EditorError::NoRedo => "redo is not available".to_owned(),
            EditorError::Unparsable(line) => {
                "failed to parse command '".to_owned().concat(line.as_str()).concat("'")
            },
            EditorError::NoCommand => "no command given".to_owned(),
            EditorError::UnknownCommand(name) => {
                "command '".to_owned().concat(name.as_str()).concat("' doesn't exist")
            },
            EditorError::MissingArgument(name) => {
                "command '".to_owned().concat(name.as_str()).concat("' needs an argument")
            },
            EditorError::ScratchBuffer => "cannot save a scratch buffer".to_owned(),
        }
    }
}

/// The view of a result of the dispatcher.
pub open spec fn outcome_of(result: Result<Effect, EditorError>) -> Result<
    EffectModel,
    ErrorModel,
> {
    match result {
        Ok(effect) => Ok(effect@),
        Err(error) => Err(error@),
    }
}

/// Whether a character can be put in at `p`: its line is one of the text, and
/// its offset lies in the text or at its end.
pub open spec fn insertable(text: Seq<char>, p: Position) -> bool {
    p.line.offset() < line_count(text) && p.offset_in(text) <= text.len()
}

/// What an action leaves of one selection and of the buffer under it.
pub struct Outcome {
    pub buffer: BufferView,
    pub selection: Selection,
    pub error: Option<ErrorModel>,
}

/// The error of a movement as an error of the editor.
pub open spec fn movement_error(error: Option<MovementError>) -> Option<ErrorModel> {
    match error {
        Some(e) => Some(ErrorModel::Movement(e)),
        None => None,
    }
}

/// The error of a result, if it is one.
pub open spec fn error_of<T>(result: Result<T, EditorError>) -> Option<ErrorModel> {
    match result {
        Ok(_) => None,
        Err(e) => Some(e@),
    }
}

impl WindowAction {
    /// The movement that a scroll action stands for on a screen of `height`
    /// lines.
    pub open spec fn scroll(self, height: u16) -> Option<Movement> {
        match self {
            WindowAction::ScrollPageUp => Some(Movement::Up(height as usize)),
            WindowAction::ScrollPageDown => Some(Movement::Down(height as usize)),
            WindowAction::ScrollHalfPageUp => Some(Movement::Up((height / 2) as usize)),
            WindowAction::ScrollHalfPageDown => Some(Movement::Down((height / 2) as usize)),
            _ => None,
        }
    }

    /// What the action makes of one selection and of the buffer under it.
    /// `height` is the last known height of the screen: without it a scroll
    /// action changes nothing.
    pub open spec fn on_selection(self, buffer: BufferView, sel: Selection, height: Option<u16>)
        -> Outcome {
        match self {
            WindowAction::InsertAtSelectionStart(c) => inserted(buffer, sel, sel.start, c),
            WindowAction::InsertAtSelectionEnd(c) => inserted(buffer, sel, sel.end, c),
            WindowAction::Delete => Outcome {
                buffer: buffer.removed(sel).repaired(),
                selection: sel.collapsed(buffer.text).validated(
                    buffer.removed(sel).repaired().text,
                ),
                error: None,
            },
            WindowAction::Move(movement) => collapsed_move(buffer, sel, movement),
            WindowAction::ShiftStart(movement) => Outcome {
                buffer,
                selection: Selection {
                    start: moved(buffer.text, sel.start, movement).0,
                    end: sel.end,
                },
                error: movement_error(moved(buffer.text, sel.start, movement).1),
            },
            WindowAction::ShiftEnd(movement) => Outcome {
                buffer,
                selection: Selection {
                    start: sel.start,
                    end: moved(buffer.text, sel.end, movement).0,
                },
                error: movement_error(moved(buffer.text, sel.end, movement).1),
            },
            WindowAction::ScrollPageUp
            | WindowAction::ScrollPageDown
            | WindowAction::ScrollHalfPageUp
            | WindowAction::ScrollHalfPageDown => match height {
                Some(h) => collapsed_move(buffer, sel, self.scroll(h).unwrap()),
                None => Outcome { buffer, selection: sel, error: None },
            },
            WindowAction::OrderSelections => Outcome {
                buffer,
                selection: sel.ordered_spec(),
                error: None,
            },
            WindowAction::SwitchToMode(_) => Outcome { buffer, selection: sel, error: None },
        }
    }
}

/// The outcome of putting `c` in at `at`, one of the ends of `sel`: the
/// insertion is recorded and the selection stays, or nothing changes and the
/// action fails where nothing can be put in at `at`.
pub open spec fn inserted(buffer: BufferView, sel: Selection, at: Position, c: char) -> Outcome {
    if insertable(buffer.text, at) {
        Outcome { buffer: buffer.inserted(at, c), selection: sel, error: None }
    } else {
        Outcome { buffer, selection: sel, error: Some(ErrorModel::OutsideText) }
    }
}

/// The outcome of a movement of the cursor that the anchor follows. Where the
/// movement fails the anchor stays.
pub open spec fn collapsed_move(buffer: BufferView, sel: Selection, movement: Movement)
    -> Outcome {
    let (end, error) = moved(buffer.text, sel.end, movement);
    Outcome {
        buffer,
        selection: Selection {
            start: if error is None {
                end
            } else {
                sel.start
            },
            end,
        },
        error: movement_error(error),
    }
}

/// What an action leaves of the selections of a window and of the buffer
/// under them.
pub struct WindowOutcome {
    pub buffer: BufferView,
    pub selections: Map<SelectionId, Selection>,
    pub error: Option<ErrorModel>,
}

/// The outcome of an action on the selections that `order` lists, one after
/// the other. The first failure ends it, and what was done before stays done.
pub open spec fn on_selections(
    action: WindowAction,
    buffer: BufferView,
    selections: Map<SelectionId, Selection>,
    order: Seq<SelectionId>,
    height: Option<u16>,
) -> WindowOutcome
    decreases order.len(),
{
    if order.len() == 0 {
        WindowOutcome { buffer, selections, error: None }
    } else {
        let one = action.on_selection(buffer, selections[order[0]], height);
        let rest = selections.insert(order[0], one.selection);
        if one.error is Some {
            WindowOutcome { buffer: one.buffer, selections: rest, error: one.error }
        } else {
            on_selections(action, one.buffer, rest, order.drop_first(), height)
        }
    }
}

/// A removal leaves a text that is not empty and a log that fits it.
pub proof fn lemma_removal_keeps_log(buffer: BufferView, sel: Selection)
    requires
        sel.wf(),
        buffer.wf(),
        buffer.text.len() <= usize::MAX,
    ensures
        buffer.removed(sel).repaired().wf(),
{
    lemma_validated(buffer.text, sel.start);
    lemma_validated(buffer.text, sel.end);
    lemma_delete_reverts(buffer.text, sel.validated(buffer.text));
    assert(buffer.removed(sel).history.drop_last() =~= buffer.history);
    lemma_repaired(buffer.removed(sel));
}

fn can_insert(at: Position, rope: &Rope) -> (yes: bool)
    requires
        at.wf(),
    ensures
        yes == insertable(rope_text(*rope), at),
{
    let total: usize = len_chars(rope);
    let line: usize = at.line.zero_based();
    if line >= len_lines(rope) {
        return false;
    }
    let start: usize = at.line.char_of(rope);
    proof {
        lemma_line_start(rope_text(*rope), at.line.offset());
    }
    at.column.zero_based() <= total - start
}

/// Puts `c` in at `at`, where that can be done.
fn insert_at(buffer: &mut BufferData, at: Position, c: char) -> (result: Result<(), EditorError>)
    requires
        at.wf(),
        old(buffer)@.wf(),
    ensures
        final(buffer)@ == inserted(old(buffer)@, Selection { start: at, end: at }, at, c).buffer,
        error_of(result) == inserted(old(buffer)@, Selection { start: at, end: at }, at, c).error,
        final(buffer)@.wf(),
{
    if !can_insert(at, &buffer.content) {
        return Err(EditorError::OutsideText);
    }
    proof {
        lemma_insert_reverts(buffer@.text, at, c);
        assert(buffer@.inserted(at, c).history.drop_last() =~= buffer@.history);
    }
    at.insert_char(buffer, c);
    Ok(())
}

/// Moves the cursor of a selection; the anchor follows it unless the movement
/// fails.
fn move_collapsing(buffer: &BufferData, selection: &mut Selection, movement: Movement) -> (result:
    Result<(), EditorError>)
    requires
        old(selection).wf(),
    ensures
        *final(selection) == collapsed_move(buffer@, *old(selection), movement).selection,
        error_of(result) == collapsed_move(buffer@, *old(selection), movement).error,
        final(selection).wf(),
{
    match selection.end.move_to(&buffer.content, movement) {
        Ok(()) => {
            selection.start = selection.end;
            Ok(())
        },
        Err(e) => Err(EditorError::Movement(e)),
    }
}

/// Applies a selection action to one selection and the buffer under it.
fn act_on_selection(
    buffer: &mut BufferData,
    selection: &mut Selection,
    action: WindowAction,
    height: Option<u16>,
) -> (result: Result<(), EditorError>)
    requires
        old(selection).wf(),
        old(buffer)@.wf(),
    ensures
        final(buffer)@ == action.on_selection(old(buffer)@, *old(selection), height).buffer,
        *final(selection) == action.on_selection(old(buffer)@, *old(selection), height).selection,
        error_of(result) == action.on_selection(old(buffer)@, *old(selection), height).error,
        final(selection).wf(),
        final(buffer)@.wf(),
{
    match action {
        WindowAction::InsertAtSelectionStart(c) => insert_at(buffer, selection.start, c),
        WindowAction::InsertAtSelectionEnd(c) => insert_at(buffer, selection.end, c),
        WindowAction::Delete => {
            text_fits(&buffer.content);
            proof {
                lemma_removal_keeps_log(buffer@, *selection);
            }
            selection.remove_from(buffer);
            Ok(())
        },
        WindowAction::Move(movement) => move_collapsing(buffer, selection, movement),
        WindowAction::ShiftStart(movement) => {
            match selection.start.move_to(&buffer.content, movement) {
                Ok(()) => Ok(()),
                Err(e) => Err(EditorError::Movement(e)),
            }
        },
        WindowAction::ShiftEnd(movement) => {
            match selection.end.move_to(&buffer.content, movement) {
                Ok(()) => Ok(()),
                Err(e) => Err(EditorError::Movement(e)),
            }
        },
        WindowAction::ScrollPageUp
        | WindowAction::ScrollPageDown
        | WindowAction::ScrollHalfPageUp
        | WindowAction::ScrollHalfPageDown => {
            match height {
                Some(height) => {
                    let movement = match action {
                        WindowAction::ScrollPageUp => Movement::Up(height as usize),
                        WindowAction::ScrollPageDown => Movement::Down(height as usize),
                        WindowAction::ScrollHalfPageUp => Movement::Up((height / 2) as usize),
                        _ => Movement::Down((height / 2) as usize),
                    };
                    move_collapsing(buffer, selection, movement)
                },
                None => Ok(()),
            }
        },
        WindowAction::OrderSelections => {
            selection.order();
            Ok(())
        },
        WindowAction::SwitchToMode(_) => Ok(()),
    }
}

/// Applies a selection action to every selection of a window, in the
/// window's order, on the buffer that the window looks at.
pub(crate) fn act_on_window(
    window: &mut WindowData,
    buffer: &mut BufferData,
    action: WindowAction,
    height: Option<u16>,
) -> (result: Result<(), EditorError>)
    requires
        old(window)@.wf(),
        old(buffer)@.wf(),
    ensures
        final(buffer)@ == on_window(action, old(buffer)@, old(window)@, height).buffer,
        final(window)@ == (WindowView {
            selections: on_window(action, old(buffer)@, old(window)@, height).selections,
            ..old(window)@
        }),
        error_of(result) == on_window(action, old(buffer)@, old(window)@, height).error,
        final(window)@.wf(),
        final(buffer)@.wf(),
{
    let ids = selection_ids(&window.selections);
    let ghost whole = on_window(action, buffer@, window@, height);
    let mut i: usize = 0;
    assert(ids@.skip(0) =~= ids@);
    while i < ids.len()
        invariant
            i <= ids.len(),
            ids@ == old(window)@.order,
            window@.wf(),
            buffer@.wf(),
            window@ == (WindowView { selections: window@.selections, ..old(window)@ }),
            window@.selections.dom() == old(window)@.selections.dom(),
            whole == on_window(action, old(buffer)@, old(window)@, height),
            whole == on_selections(
                action,
                buffer@,
                window@.selections,
                ids@.skip(i as int),
                height,
            ),
        decreases ids.len() - i,
    {
        let id = ids[i];
        let ghost before = window@.selections;
        let ghost rest = ids@.skip(i as int);
        proof {
            assert(ids@.contains(id));
            assert(rest[0] == id);
            assert(rest.drop_first() =~= ids@.skip(i + 1));
        }
        let selection = selection_mut(&mut window.selections, id);
        let result = act_on_selection(buffer, selection, action, height);
        proof {
            assert(window@.selections.dom() =~= before.dom());
        }
        match result {
            Err(e) => {
                return Err(e);
            },
            Ok(()) => {},
        }
        i += 1;
    }
    Ok(())
}

/// The outcome of an action on the selections of a window, in the window's
/// order.
pub open spec fn on_window(
    action: WindowAction,
    buffer: BufferView,
    window: WindowView,
    height: Option<u16>,
) -> WindowOutcome {
    on_selections(action, buffer, window.selections, window.order, height)
}

} // verus!
