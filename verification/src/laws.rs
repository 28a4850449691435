//! What holds of movements, of ordering and of undo, for every text and every
//! position.

use crate::action::{
    insertable, on_selections, on_window, Action, BufferAction, WindowAction, WindowOutcome,
};
use crate::buffer::{lemma_delete_reverts, lemma_insert_reverts, BufferView, EditModel};
use crate::location::{
    left_of, lemma_step_valid, lemma_steps_left, lemma_steps_right, lemma_validated, moved,
    moved_left, moved_right, right_of, Movement, MovementError, Position, Selection,
};
use crate::dispatch::revalidated;
use crate::state::{EditorView, WindowView};
use crate::text::{last_full_line, lemma_last_full_line, lemma_line_len, line_count, line_len};
use vstd::prelude::*;

verus! {

/// A movement that succeeds from a valid position ends on a valid position.
/// A movement up or down keeps the column, so for these the column has to lie
/// on the line that is reached.
pub proof fn lemma_movement_keeps_valid(text: Seq<char>, p: Position, movement: Movement)
    requires
        text.len() <= usize::MAX,
        p.valid_in(text),
        moved(text, p, movement).1 is None,
        (movement is Up || movement is Down) ==> p.column.0 <= moved(
            text,
            p,
            movement,
        ).0.line.len_in(text),
    ensures
        moved(text, p, movement).0.valid_in(text),
{
    lemma_line_len(text, p.line.offset());
    lemma_last_full_line(text);
    match movement {
        Movement::Left(n) => lemma_steps_left(text, p, n as nat),
        Movement::Right(n) => lemma_steps_right(text, p, n as nat),
        _ => {},
    }
}

/// A step to the left takes back a step to the right from a valid position.
pub proof fn lemma_step_back(text: Seq<char>, p: Position)
    requires
        text.len() <= usize::MAX,
        p.valid_in(text),
        right_of(text, p) is Some,
    ensures
        left_of(text, right_of(text, p).unwrap()) == Some(p),
{
    lemma_line_len(text, p.line.offset());
    lemma_last_full_line(text);
}

/// Steps to the left can be taken in two runs: the second run goes on from
/// where the first one ended, unless the first one failed.
pub proof fn lemma_steps_left_split(text: Seq<char>, p: Position, a: nat, b: nat)
    requires
        0 < text.len() <= usize::MAX,
        p.valid_in(text),
    ensures
        moved_left(text, p, a + b) == if moved_left(text, p, a).1 is None {
            moved_left(text, moved_left(text, p, a).0, b)
        } else {
            moved_left(text, p, a)
        },
    decreases a,
{
    if a > 0 {
        lemma_validated(text, p);
        lemma_step_valid(text, p);
        match left_of(text, p) {
            Some(q) => {
                lemma_steps_left_split(text, q, (a - 1) as nat, b);
                assert(moved_left(text, p, a + b) == moved_left(text, q, (a + b - 1) as nat));
            },
            None => {},
        }
    }
}

/// `n` steps to the right that succeed from a valid position, then `n` steps
/// to the left, lead back to the position.
pub proof fn lemma_right_then_left(text: Seq<char>, p: Position, n: usize)
    requires
        text.len() <= usize::MAX,
        p.valid_in(text),
        moved(text, p, Movement::Right(n)).1 is None,
    ensures
        moved(text, moved(text, p, Movement::Right(n)).0, Movement::Left(n)) == (
            p,
            None::<MovementError>,
        ),
{
    lemma_line_len(text, p.line.offset());
    lemma_steps_there_and_back(text, p, n as nat);
}

/// The same over any number of steps.
pub proof fn lemma_steps_there_and_back(text: Seq<char>, p: Position, n: nat)
    requires
        0 < text.len() <= usize::MAX,
        p.valid_in(text),
        moved_right(text, p, n).1 is None,
    ensures
        moved_left(text, moved_right(text, p, n).0, n) == (
            p,
            None::<MovementError>,
        ),
    decreases n,
{
    if n > 0 {
        lemma_validated(text, p);
        lemma_step_valid(text, p);
        let r = right_of(text, p).unwrap();
        let q = moved_right(text, r, (n - 1) as nat).0;
        lemma_steps_there_and_back(text, r, (n - 1) as nat);
        lemma_steps_right(text, r, (n - 1) as nat);
        lemma_steps_left_split(text, q, (n - 1) as nat, 1);
        lemma_step_back(text, p);
        lemma_validated(text, r);
        assert(moved_left(text, r, 1) == moved_left(text, p, 0));
    }
}

/// Ordering a selection twice is ordering it once, and an ordered selection
/// has its anchor at or before its cursor.
pub proof fn lemma_order_idempotent(sel: Selection)
    ensures
        sel.ordered_spec().ordered_spec() == sel.ordered_spec(),
        sel.ordered_spec().start.at_or_before(sel.ordered_spec().end),
{
}

/// The movement to the end of the file lands on the first slot of the last
/// line that holds a character: on the last line of the text, or on the line
/// before it where the last line is empty.
pub proof fn lemma_file_end(text: Seq<char>, p: Position)
    requires
        0 < text.len() <= usize::MAX,
    ensures
        moved(text, p, Movement::FileEnd).1 is None,
        moved(text, p, Movement::FileEnd).0.valid_in(text),
        moved(text, p, Movement::FileEnd).0.column.0 == 1,
        moved(text, p, Movement::FileEnd).0.line.0 == if line_count(text) >= 2
            && line_len(text, (line_count(text) - 1) as nat) == 0 {
            line_count(text) - 1
        } else {
            line_count(text) as int
        },
{
    lemma_last_full_line(text);
    lemma_line_len(text, (last_full_line(text) - 1) as nat);
}

/// A movement down ends no further than on the last line that holds a
/// character, however many lines were asked for. It succeeds where at least
/// one line could be gone down, and fails, with the position as it was, where
/// none could.
pub proof fn lemma_down_stops(text: Seq<char>, p: Position, n: usize)
    requires
        0 < text.len() <= usize::MAX,
        p.wf(),
        n > 0,
    ensures
        moved(text, p, Movement::Down(n)).1 is None <==> p.line.0 < last_full_line(text),
        moved(text, p, Movement::Down(n)).1 is None ==> p.line.0 < moved(
            text,
            p,
            Movement::Down(n),
        ).0.line.0 <= last_full_line(text) && moved(text, p, Movement::Down(n)).0.line.0 <= p.line.0
            + n && moved(text, p, Movement::Down(n)).0.line.len_in(text) >= 1,
        moved(text, p, Movement::Down(n)).1 is Some ==> moved(text, p, Movement::Down(n)).0 == p,
        forall|line: nat| line >= last_full_line(text) ==> line_len(text, line) == 0,
{
    lemma_last_full_line(text);
}

/// The state is well formed and has one selection in its focused window.
pub open spec fn one_selection(state: EditorView) -> bool {
    state.wf() && state.focused_window().order.len() == 1
}

/// The one selection of the focused window.
pub open spec fn the_selection(state: EditorView) -> Selection {
    state.focused_window().selections[state.focused_window().order[0]]
}

/// An action on the selections of a window with one selection is the action
/// on that selection.
pub proof fn lemma_on_one_selection(
    action: WindowAction,
    buffer: BufferView,
    window: WindowView,
    height: Option<u16>,
)
    requires
        window.order.len() == 1,
    ensures
        on_window(action, buffer, window, height) == (WindowOutcome {
            buffer: action.on_selection(buffer, window.selections[window.order[0]], height).buffer,
            selections: window.selections.insert(
                window.order[0],
                action.on_selection(buffer, window.selections[window.order[0]], height).selection,
            ),
            error: action.on_selection(buffer, window.selections[window.order[0]], height).error,
        }),
{
    let one = action.on_selection(buffer, window.selections[window.order[0]], height);
    assert(window.order.drop_first().len() == 0);
    assert(on_window(action, buffer, window, height) == if one.error is Some {
        WindowOutcome {
            buffer: one.buffer,
            selections: window.selections.insert(window.order[0], one.selection),
            error: one.error,
        }
    } else {
        on_selections(
            action,
            one.buffer,
            window.selections.insert(window.order[0], one.selection),
            window.order.drop_first(),
            height,
        )
    });
}

/// What an action on selections leaves of a state with one selection in its
/// focused window: the buffer and the selection that the action on that
/// selection gives.
pub proof fn lemma_acted_on_one_selection(state: EditorView, action: WindowAction)
    requires
        one_selection(state),
        !(action is SwitchToMode),
    ensures
        state.acted(Action::Window(action)).0.focused() == state.focused(),
        state.acted(Action::Window(action)).0.focused_window() == (WindowView {
            selections: state.focused_window().selections.insert(
                state.focused_window().order[0],
                action.on_selection(
                    state.focused_buffer(),
                    the_selection(state),
                    state.last_screen_height,
                ).selection,
            ),
            ..state.focused_window()
        }),
        state.acted(Action::Window(action)).0.focused_buffer() == action.on_selection(
            state.focused_buffer(),
            the_selection(state),
            state.last_screen_height,
        ).buffer,
        state.acted(Action::Window(action)).1 is Ok <==> action.on_selection(
            state.focused_buffer(),
            the_selection(state),
            state.last_screen_height,
        ).error is None,
        the_selection(state.acted(Action::Window(action)).0) == action.on_selection(
            state.focused_buffer(),
            the_selection(state),
            state.last_screen_height,
        ).selection,
{
    lemma_on_one_selection(
        action,
        state.focused_buffer(),
        state.focused_window(),
        state.last_screen_height,
    );
    assert(state.focused_window().order.contains(state.focused_window().order[0]));
}

/// What undo leaves of the focused buffer and of the selections of the
/// focused window, where the log is not empty and taking the last edit back
/// leaves some text.
pub proof fn lemma_undone_focused(state: EditorView)
    requires
        state.windows.dom().contains(state.focused()),
        state.buffers.dom().contains(state.focused_window().buffer),
        state.focused_buffer().history.len() > 0,
        state.focused_buffer().history.last().reverted(state.focused_buffer().text).len() > 0,
    ensures
        state.acted(Action::Buffer(BufferAction::Undo)).0.focused() == state.focused(),
        state.acted(Action::Buffer(BufferAction::Undo)).0.focused_buffer()
            == state.focused_buffer().reverted(),
        state.acted(Action::Buffer(BufferAction::Undo)).0.focused_window() == revalidated(
            state.focused_window(),
            state.focused_buffer().history.last().reverted(state.focused_buffer().text),
        ),
{
}

/// Putting a character in at an end of the one selection of the focused
/// window and then undoing gives the text and the log as they were, and
/// leaves the selection validated, so on valid positions; a selection that
/// was valid is as it was.
pub proof fn lemma_insert_then_undo(state: EditorView, action: WindowAction)
    requires
        one_selection(state),
        state.focused_buffer().text.len() <= usize::MAX,
        action is InsertAtSelectionStart || action is InsertAtSelectionEnd,
        state.acted(Action::Window(action)).1 is Ok,
    ensures
        state.acted(Action::Window(action)).0.acted(
            Action::Buffer(BufferAction::Undo),
        ).0.focused_buffer() == state.focused_buffer(),
        the_selection(
            state.acted(Action::Window(action)).0.acted(Action::Buffer(BufferAction::Undo)).0,
        ) == the_selection(state).validated(state.focused_buffer().text),
        the_selection(
            state.acted(Action::Window(action)).0.acted(Action::Buffer(BufferAction::Undo)).0,
        ).valid_in(state.focused_buffer().text),
        the_selection(state).valid_in(state.focused_buffer().text) ==> the_selection(
            state.acted(Action::Window(action)).0.acted(Action::Buffer(BufferAction::Undo)).0,
        ) == the_selection(state),
{
    let window = state.focused_window();
    let buffer = state.focused_buffer();
    let id = window.order[0];
    let sel = window.selections[id];
    let (at, c) = match action {
        WindowAction::InsertAtSelectionStart(c) => (sel.start, c),
        WindowAction::InsertAtSelectionEnd(c) => (sel.end, c),
        _ => (sel.start, ' '),
    };
    lemma_acted_on_one_selection(state, action);
    assert(window.order.contains(id));
    assert(insertable(buffer.text, at));
    lemma_insert_reverts(buffer.text, at, c);
    let after = state.acted(Action::Window(action)).0;
    assert(window.selections.insert(id, sel) =~= window.selections);
    assert(after.focused_window() == window);
    assert(after.focused_buffer().history.drop_last() =~= buffer.history);
    assert(after.focused_buffer().history.last() == (EditModel::Insert { pos: at, text: seq![c] }));
    lemma_undone_focused(after);
    lemma_validated(buffer.text, sel.start);
    lemma_validated(buffer.text, sel.end);
}

/// Deleting what the one selection of the focused window covers and then
/// undoing gives the text and the log as they were, where the deletion left
/// some text. The selection then is one slot, so it is as it was only where
/// it was one valid slot that the deletion left valid.
pub proof fn lemma_delete_then_undo(state: EditorView)
    requires
        one_selection(state),
        state.focused_buffer().text.len() <= usize::MAX,
        the_selection(state).rest_of(state.focused_buffer().text).len() > 0,
    ensures
        state.acted(Action::Window(WindowAction::Delete)).1 is Ok,
        state.acted(Action::Window(WindowAction::Delete)).0.acted(
            Action::Buffer(BufferAction::Undo),
        ).0.focused_buffer() == state.focused_buffer(),
        the_selection(
            state.acted(Action::Window(WindowAction::Delete)).0.acted(
                Action::Buffer(BufferAction::Undo),
            ).0,
        ).valid_in(state.focused_buffer().text),
        the_selection(
            state.acted(Action::Window(WindowAction::Delete)).0.acted(
                Action::Buffer(BufferAction::Undo),
            ).0,
        ).start == the_selection(
            state.acted(Action::Window(WindowAction::Delete)).0.acted(
                Action::Buffer(BufferAction::Undo),
            ).0,
        ).end,
        the_selection(state).valid_in(state.focused_buffer().text) && the_selection(state).start
            == the_selection(state).end && the_selection(state).start.valid_in(
            the_selection(state).rest_of(state.focused_buffer().text),
        ) ==> the_selection(
            state.acted(Action::Window(WindowAction::Delete)).0.acted(
                Action::Buffer(BufferAction::Undo),
            ).0,
        ) == the_selection(state),
{
    let window = state.focused_window();
    let buffer = state.focused_buffer();
    let id = window.order[0];
    let sel = window.selections[id];
    let action = WindowAction::Delete;
    lemma_acted_on_one_selection(state, action);
    assert(window.order.contains(id));
    lemma_validated(buffer.text, sel.start);
    lemma_validated(buffer.text, sel.end);
    let valid = sel.validated(buffer.text);
    lemma_delete_reverts(buffer.text, valid);
    let after = state.acted(Action::Window(action)).0;
    assert(after.focused_buffer() == buffer.removed(sel));
    assert(after.focused_buffer().history.drop_last() =~= buffer.history);
    let rest = sel.rest_of(buffer.text);
    let first = valid.ordered_spec().start;
    lemma_validated(rest, first);
    lemma_validated(buffer.text, first.validated(rest));
    lemma_undone_focused(after);
}

} // verus!
