//! The dispatcher: it applies one action to the focused window, its buffer
//! or the editor.

use crate::action::{
    act_on_window, on_window, outcome_of, Action, BufferAction, CommandAction, EditorAction,
    EditorError, Effect, EffectModel, ErrorModel, WindowAction,
};
use crate::arena::{
    buffer_mut, buffer_ref, lists, same_buffer, selection_ids, selection_mut, window_ids,
    window_mut, window_ref, BufferId, SelectionId, WindowId,
};
use crate::buffer::{repair, replayable, NothingLeftToUndo};
use crate::command::{edit_command, shell_words, split_words, submit, take_command};
use crate::state::{show_message, EditorData, EditorView, Importance, Mode, WindowData, WindowView};
use crate::text::{rope_text, text_fits};
use ropey::Rope;
use vstd::prelude::*;

verus! {

/// A window with every selection validated in `text`.
pub open spec fn revalidated(window: WindowView, text: Seq<char>) -> WindowView {
    WindowView {
        selections: Map::new(
            |id: SelectionId| window.selections.dom().contains(id),
            |id: SelectionId| window.selections[id].validated(text),
        ),
        ..window
    }
}

impl EditorView {
    /// The state after the last edit of the buffer of window `window` was
    /// taken back. Every selection of every window that looks at that buffer
    /// is validated in the text that results. A text left empty is brought to
    /// the text of one line feed, which is recorded. On an empty log nothing
    /// changes but the message.
    pub open spec fn undone(self, window: WindowId) -> EditorView {
        let id = self.windows[window].buffer;
        let buffer = self.buffers[id];
        if buffer.history.len() == 0 {
            EditorView {
                pending_message: Some((Importance::Error, "nothing left to undo"@)),
                ..self
            }
        } else {
            self.with_buffer(id, buffer.reverted().repaired()).revalidated_on(id)
        }
    }

    /// The state with every selection of every window that looks at buffer
    /// `id` validated in the text of that buffer.
    pub open spec fn revalidated_on(self, id: BufferId) -> EditorView {
        EditorView {
            windows: Map::new(
                |w: WindowId| self.windows.dom().contains(w),
                |w: WindowId|
                    if self.windows[w].buffer == id {
                        revalidated(self.windows[w], self.buffers[id].text)
                    } else {
                        self.windows[w]
                    },
            ),
            ..self
        }
    }

    /// The state after `action`, and what the action asks of the caller, or
    /// why it failed.
    pub open spec fn acted(self, action: Action) -> (EditorView, Result<EffectModel, ErrorModel>) {
        let id = self.focused();
        let window = self.focused_window();
        let buffer = self.focused_buffer();
        match action {
            Action::Editor(EditorAction::PreviousTab) => (
                EditorView {
                    focused_tab: if self.focused_tab == 0 {
                        (self.open_tabs.len() - 1) as usize
                    } else {
                        (self.focused_tab - 1) as usize
                    },
                    ..self
                },
                Ok(EffectModel::Nothing),
            ),
            Action::Editor(EditorAction::NextTab) => (
                EditorView {
                    focused_tab: if self.focused_tab + 1 == self.open_tabs.len() {
                        0
                    } else {
                        (self.focused_tab + 1) as usize
                    },
                    ..self
                },
                Ok(EffectModel::Nothing),
            ),
            Action::Buffer(BufferAction::Undo) => (self.undone(id), Ok(EffectModel::Nothing)),
            Action::Buffer(BufferAction::Redo) => (self, Err(ErrorModel::NoRedo)),
            Action::Window(WindowAction::SwitchToMode(mode)) => (
                self.with_window(id, WindowView { mode, ..window }),
                Ok(EffectModel::Nothing),
            ),
            Action::Window(on_each) => {
                let out = on_window(on_each, buffer, window, self.last_screen_height);
                (
                    self.with_window(
                        id,
                        WindowView { selections: out.selections, ..window },
                    ).with_buffer(window.buffer, out.buffer),
                    match out.error {
                        None => Ok(EffectModel::Nothing),
                        Some(e) => Err(e),
                    },
                )
            },
            Action::Command(CommandAction::Character(c)) => (
                self.with_window(id, WindowView { command: window.command.push(c), ..window }),
                Ok(EffectModel::Nothing),
            ),
            Action::Command(CommandAction::Clear) => (
                self.with_window(id, WindowView { command: Seq::empty(), ..window }),
                Ok(EffectModel::Nothing),
            ),
            Action::Command(CommandAction::Tab) => (self, Ok(EffectModel::Nothing)),
            Action::Command(CommandAction::Return) => self.with_window(
                id,
                WindowView { command: Seq::empty(), mode: Mode::Normal, ..window },
            ).submitted(window.command, shell_words(window.command)),
            Action::Command(CommandAction::Backspace) => (
                if window.command.len() == 0 {
                    self.with_window(id, WindowView { mode: Mode::Normal, ..window })
                } else {
                    self.with_window(
                        id,
                        WindowView { command: window.command.drop_last(), ..window },
                    )
                },
                Ok(EffectModel::Nothing),
            ),
        }
    }
}

/// Validates every selection of a window in a text that is not empty.
fn revalidate(window: &mut WindowData, rope: &Rope)
    requires
        old(window)@.wf(),
        rope_text(*rope).len() > 0,
    ensures
        final(window)@ == revalidated(old(window)@, rope_text(*rope)),
        final(window)@.wf(),
{
    text_fits(rope);
    let ghost text = rope_text(*rope);
    let ids = selection_ids(&window.selections);
    let mut i: usize = 0;
    while i < ids.len()
        invariant
            i <= ids.len(),
            ids@ == old(window)@.order,
            text == rope_text(*rope),
            0 < text.len() <= usize::MAX,
            old(window)@.wf(),
            window@.wf(),
            window@ == (WindowView { selections: window@.selections, ..old(window)@ }),
            window@.selections.dom() == old(window)@.selections.dom(),
            forall|k: int|
                0 <= k < i ==> window@.selections[#[trigger] ids@[k]] == old(
                    window,
                )@.selections[ids@[k]].validated(text),
            forall|k: int|
                i <= k < ids.len() ==> window@.selections[#[trigger] ids@[k]] == old(
                    window,
                )@.selections[ids@[k]],
        decreases ids.len() - i,
    {
        let id = ids[i];
        let ghost before = window@.selections;
        proof {
            assert(ids@.contains(id));
        }
        let selection = selection_mut(&mut window.selections, id);
        selection.validate(rope);
        proof {
            assert(window@.selections.dom() =~= before.dom());
            assert forall|k: int| 0 <= k < ids.len() && k != i implies ids@[k] != id by {}
        }
        i += 1;
    }
    proof {
        let want = revalidated(old(window)@, text).selections;
        assert forall|id: SelectionId| want.dom().contains(id) implies window@.selections[id]
            == want[id] by {
            assert(ids@.contains(id));
            let k = choose|k: int| 0 <= k < ids@.len() && ids@[k] == id;
            assert(window@.selections[ids@[k]] == old(window)@.selections[ids@[k]].validated(
                text,
            ));
        }
        assert(window@.selections =~= want);
    }
}

/// Validates every selection of every window that looks at buffer `id`.
fn revalidate_windows(state: &mut EditorData, id: BufferId)
    requires
        old(state).wf(),
        old(state)@.buffers.dom().contains(id),
    ensures
        final(state)@ == old(state)@.revalidated_on(id),
        final(state).wf(),
{
    let ghost before = state@;
    let ghost text = before.buffers[id].text;
    let ids = window_ids(&state.windows);
    let mut i: usize = 0;
    while i < ids.len()
        invariant
            i <= ids.len(),
            before.wf(),
            before.buffers.dom().contains(id),
            text == before.buffers[id].text,
            lists(ids@, before.windows.dom()),
            state.wf(),
            state@ == (EditorView { windows: state@.windows, ..before }),
            state@.windows.dom() == before.windows.dom(),
            forall|k: int|
                0 <= k < i ==> state@.windows[#[trigger] ids@[k]] == before.revalidated_on(
                    id,
                ).windows[ids@[k]],
            forall|k: int|
                i <= k < ids.len() ==> state@.windows[#[trigger] ids@[k]]
                    == before.windows[ids@[k]],
        decreases ids.len() - i,
    {
        let window_id = ids[i];
        let ghost windows_then = state@.windows;
        proof {
            assert(ids@.contains(window_id));
            assert(before.windows.dom().contains(window_id));
        }
        let window = window_mut(&mut state.windows, window_id);
        if same_buffer(window.buffer, id) {
            revalidate(window, &buffer_ref(&state.buffers, id).content);
        }
        proof {
            assert(state@.buffers =~= before.buffers);
            assert(state@.windows.dom() =~= before.windows.dom());
            assert forall|k: int| 0 <= k < ids.len() && k != i implies ids@[k] != window_id
                && state@.windows[ids@[k]] == windows_then[ids@[k]] by {}
        }
        i += 1;
    }
    proof {
        let want = before.revalidated_on(id);
        assert forall|w: WindowId| want.windows.dom().contains(w) implies state@.windows[w]
            == want.windows[w] by {
            assert(ids@.contains(w));
            let k = choose|k: int| 0 <= k < ids@.len() && ids@[k] == w;
            assert(state@.windows[ids@[k]] == want.windows[w]);
        }
        assert(state@.windows =~= want.windows);
    }
}

/// Takes back the last edit of the buffer that window `window_id` looks at.
/// Every selection of every window that looks at that buffer is validated in
/// the text that results. With nothing to take back, the message says so and
/// nothing else changes.
pub fn undo(state: &mut EditorData, window_id: WindowId)
    requires
        old(state).wf(),
        old(state)@.windows.dom().contains(window_id),
    ensures
        final(state)@ == old(state)@.undone(window_id),
        final(state).wf(),
{
    let ghost before = state@;
    let id = window_ref(&state.windows, window_id).buffer;
    let buffer = buffer_mut(&mut state.buffers, id);
    let ghost log = buffer@.history;
    let ghost text = buffer@.text;
    assert(log.len() > 0 ==> log.last().revertible(text) && replayable(
        log.last().reverted(text),
        log.drop_last(),
    ));
    match buffer.history.undo(&mut buffer.content) {
        Ok(()) => {
            repair(buffer);
            proof {
                assert(state@.windows =~= before.windows);
                assert(state@.buffers =~= before.buffers.insert(
                    id,
                    before.buffers[id].reverted().repaired(),
                ));
            }
            revalidate_windows(state, id);
        },
        Err(NothingLeftToUndo) => {
            proof {
                assert(state@.buffers =~= before.buffers);
            }
            show_message(state, Importance::Error, "nothing left to undo".to_owned());
        },
    }
}

/// Redo is not available: the call fails and changes nothing.
pub fn redo(state: &mut EditorData, window_id: WindowId) -> (result: Result<(), EditorError>)
    ensures
        *final(state) == *old(state),
        result matches Err(e) && e@ == ErrorModel::NoRedo,
{
    Err(EditorError::NoRedo)
}

/// Moves the focus to the tab before the focused one, or from the first tab
/// to the last.
fn focus_previous(state: &mut EditorData)
    requires
        old(state).wf(),
    ensures
        final(state)@ == old(state)@.acted(Action::Editor(EditorAction::PreviousTab)).0,
        final(state).wf(),
{
    state.focused_tab = if state.focused_tab == 0 {
        state.open_tabs.len() - 1
    } else {
        state.focused_tab - 1
    };
}

/// Moves the focus to the tab after the focused one, or from the last tab to
/// the first.
fn focus_next(state: &mut EditorData)
    requires
        old(state).wf(),
    ensures
        final(state)@ == old(state)@.acted(Action::Editor(EditorAction::NextTab)).0,
        final(state).wf(),
{
    let tabs: usize = state.open_tabs.len();
    state.focused_tab = if state.focused_tab == tabs - 1 {
        0
    } else {
        state.focused_tab + 1
    };
}

/// Sets the mode of the focused window.
fn switch_mode(state: &mut EditorData, mode: Mode)
    requires
        old(state).wf(),
    ensures
        final(state)@ == old(state)@.acted(
            Action::Window(WindowAction::SwitchToMode(mode)),
        ).0,
        final(state).wf(),
{
    let ghost before = state@;
    let id = state.focused();
    let window = window_mut(&mut state.windows, id);
    window.mode = mode;
    proof {
        assert(state@.windows =~= before.with_window(
            id,
            WindowView { mode, ..before.focused_window() },
        ).windows);
        assert(state@.buffers =~= before.buffers);
    }
}

/// Applies a selection action to the selections of the focused window.
fn act_on_focused(state: &mut EditorData, on_each: WindowAction) -> (result: Result<
    Effect,
    EditorError,
>)
    requires
        old(state).wf(),
        !(on_each is SwitchToMode),
    ensures
        final(state)@ == old(state)@.acted(Action::Window(on_each)).0,
        outcome_of(result) == old(state)@.acted(Action::Window(on_each)).1,
        final(state).wf(),
{
    let ghost before = state@;
    let id = state.focused();
    let height = state.last_screen_height;
    let window = window_mut(&mut state.windows, id);
    let ghost buffer_id = window.buffer;
    let buffer = buffer_mut(&mut state.buffers, window.buffer);
    let result = act_on_window(window, buffer, on_each, height);
    proof {
        let out = on_window(
            on_each,
            before.focused_buffer(),
            before.focused_window(),
            before.last_screen_height,
        );
        assert(state@.windows =~= before.windows.insert(
            id,
            WindowView { selections: out.selections, ..before.focused_window() },
        ));
        assert(state@.buffers =~= before.buffers.insert(buffer_id, out.buffer));
    }
    match result {
        Ok(()) => Ok(Effect::Nothing),
        Err(e) => Err(e),
    }
}

/// Applies one action to the focused window, its buffer or the editor. An
/// action on selections reaches every selection of the focused window in
/// turn; the first failure ends it, and what was done before stays done. An
/// action on the command line is for a window in command mode.
pub fn do_action(state: &mut EditorData, action: Action) -> (result: Result<Effect, EditorError>)
    requires
        old(state).wf(),
        action is Command ==> old(state)@.focused_window().mode is Command,
    ensures
        final(state)@ == old(state)@.acted(action).0,
        outcome_of(result) == old(state)@.acted(action).1,
        final(state).wf(),
{
    match action {
        Action::Editor(EditorAction::PreviousTab) => {
            focus_previous(state);
            Ok(Effect::Nothing)
        },
        Action::Editor(EditorAction::NextTab) => {
            focus_next(state);
            Ok(Effect::Nothing)
        },
        Action::Buffer(BufferAction::Undo) => {
            let id = state.focused();
            undo(state, id);
            Ok(Effect::Nothing)
        },
        Action::Buffer(BufferAction::Redo) => {
            let id = state.focused();
            match redo(state, id) {
                Ok(()) => Ok(Effect::Nothing),
                Err(e) => Err(e),
            }
        },
        Action::Window(WindowAction::SwitchToMode(mode)) => {
            switch_mode(state, mode);
            Ok(Effect::Nothing)
        },
        Action::Window(on_each) => act_on_focused(state, on_each),
        Action::Command(CommandAction::Tab) => Ok(Effect::Nothing),
        Action::Command(CommandAction::Return) => {
            let line = take_command(state);
            let words = split_words(line.as_str());
            submit(state, line, words)
        },
        Action::Command(on_line) => {
            edit_command(state, on_line);
            Ok(Effect::Nothing)
        },
    }
}

} // verus!
