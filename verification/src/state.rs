//! The editor's state: its windows and buffers, the open tabs and the focused
//! one, the message that is shown next, and the wish to quit.
//!
//! The state owns its windows and buffers in handle maps. A window looks at
//! one buffer and owns its selections; the focused tab names the window that
//! actions go to.

use crate::arena::{
    add_buffer, add_selection, add_window, buffer_entries, buffer_ref, lists, new_buffers,
    new_selections, new_windows, selection_entries, selection_order, selection_ref, window_entries,
    window_mut, window_ref, BufferId, SelectionId, WindowId, MAX_ENTRIES,
};
use crate::buffer::{repair, BufferData, BufferView, History};
use crate::location::{LineIndex, Position, Selection};
use crate::text::{rope_from_str, rope_text, text_fits};
use handy::typed::TypedHandleMap;
use ropey::Rope;
use std::path::PathBuf;
use vstd::prelude::*;

verus! {

/// The interaction state of a window.
#[derive(Debug, Copy, Clone)]
pub enum Mode {
    Normal,
    Insert,
    Append,
    Goto { selecting: bool },
    Command,
}

/// How much a message matters.
#[derive(Debug, Copy, Clone)]
pub enum Importance {
    Error,
}

/// A view of one buffer.
pub struct WindowData {
    pub buffer: BufferId,
    pub mode: Mode,
    pub selections: TypedHandleMap<Selection>,
    pub primary_selection: SelectionId,
    pub command: String,
    pub top: LineIndex,
}

/// A window as plain values.
pub struct WindowView {
    pub buffer: BufferId,
    pub mode: Mode,
    pub selections: Map<SelectionId, Selection>,
    /// The handles of the selections, in the order in which actions reach
    /// them.
    pub order: Seq<SelectionId>,
    pub primary_selection: SelectionId,
    pub command: Seq<char>,
    pub top: LineIndex,
}

impl View for WindowData {
    type V = WindowView;

    open spec fn view(&self) -> WindowView {
        WindowView {
            buffer: self.buffer,
            mode: self.mode,
            selections: selection_entries(self.selections),
            order: selection_order(self.selections),
            primary_selection: self.primary_selection,
            command: self.command@,
            top: self.top,
        }
    }
}

impl WindowView {
    /// The primary selection of the window.
    pub open spec fn primary(self) -> Selection {
        self.selections[self.primary_selection]
    }

    /// The window holds its primary selection, its selections are listed in
    /// its order, and their lines and columns are at least one.
    pub open spec fn wf(self) -> bool {
        &&& self.selections.dom().finite()
        &&& self.selections.dom().contains(self.primary_selection)
        &&& lists(self.order, self.selections.dom())
        &&& forall|id: SelectionId|
            self.selections.dom().contains(id) ==> (#[trigger] self.selections[id]).wf()
        &&& self.top.wf()
    }
}

/// All that the editor holds.
pub struct EditorData {
    pub windows: TypedHandleMap<WindowData>,
    pub buffers: TypedHandleMap<BufferData>,
    pub open_tabs: Vec<WindowId>,
    pub focused_tab: usize,
    pub last_screen_height: Option<u16>,
    pub pending_message: Option<(Importance, String)>,
    pub want_quit: bool,
}

/// The editor's state as plain values.
pub struct EditorView {
    pub windows: Map<WindowId, WindowView>,
    pub buffers: Map<BufferId, BufferView>,
    pub open_tabs: Seq<WindowId>,
    pub focused_tab: usize,
    pub last_screen_height: Option<u16>,
    pub pending_message: Option<(Importance, Seq<char>)>,
    pub want_quit: bool,
}

impl View for EditorData {
    type V = EditorView;

    open spec fn view(&self) -> EditorView {
        EditorView {
            windows: Map::new(
                |id: WindowId| window_entries(self.windows).dom().contains(id),
                |id: WindowId| window_entries(self.windows)[id]@,
            ),
            buffers: Map::new(
                |id: BufferId| buffer_entries(self.buffers).dom().contains(id),
                |id: BufferId| buffer_entries(self.buffers)[id]@,
            ),
            open_tabs: self.open_tabs@,
            focused_tab: self.focused_tab,
            last_screen_height: self.last_screen_height,
            pending_message: match self.pending_message {
                Some((importance, text)) => Some((importance, text@)),
                None => None,
            },
            want_quit: self.want_quit,
        }
    }
}

impl EditorView {
    /// There is a focused tab, every tab is a window, every window looks at
    /// a buffer, and every window and buffer is well formed.
    pub open spec fn wf(self) -> bool {
        &&& self.windows.dom().finite()
        &&& self.buffers.dom().finite()
        &&& self.focused_tab < self.open_tabs.len()
        &&& forall|i: int|
            0 <= i < self.open_tabs.len() ==> self.windows.dom().contains(
                #[trigger] self.open_tabs[i],
            )
        &&& forall|id: WindowId|
            self.windows.dom().contains(id) ==> (#[trigger] self.windows[id]).wf()
                && self.buffers.dom().contains(self.windows[id].buffer)
        &&& forall|id: BufferId|
            self.buffers.dom().contains(id) ==> (#[trigger] self.buffers[id]).wf()
    }

    /// The state of an editor at its start: one tab, whose window is in normal
    /// mode with an empty command line and looks at the scratch buffer, which
    /// has no file, no edits and the text of one line feed. The window has
    /// one selection, at the start of the text.
    pub open spec fn is_fresh(self) -> bool {
        &&& self.wf()
        &&& self.open_tabs.len() == 1
        &&& self.focused_tab == 0
        &&& self.windows.dom() == set![self.focused()]
        &&& self.buffers.dom() == set![self.focused_window().buffer]
        &&& self.focused_buffer() == (BufferView {
            path: None,
            name: "scratch"@,
            text: seq!['\n'],
            history: Seq::empty(),
        })
        &&& self.focused_window().mode == Mode::Normal
        &&& self.focused_window().command == Seq::<char>::empty()
        &&& self.focused_window().top == LineIndex(1)
        &&& self.focused_window().selections == map![
            self.focused_window().primary_selection => Selection {
                start: Position::file_start_spec(),
                end: Position::file_start_spec(),
            },
        ]
        &&& self.last_screen_height == None::<u16>
        &&& self.pending_message == None::<(Importance, Seq<char>)>
        &&& !self.want_quit
    }

    /// The handle of the window that actions go to.
    pub open spec fn focused(self) -> WindowId {
        self.open_tabs[self.focused_tab as int]
    }

    /// The window that actions go to.
    pub open spec fn focused_window(self) -> WindowView {
        self.windows[self.focused()]
    }

    /// The buffer of the window that actions go to.
    pub open spec fn focused_buffer(self) -> BufferView {
        self.buffers[self.focused_window().buffer]
    }
}

impl EditorData {
    /// The state is well formed when its view is.
    pub open spec fn wf(self) -> bool {
        self@.wf()
    }

    /// The editor at its start: one window on the scratch buffer, whose text
    /// is one line feed, with one selection at the start of the text.
    pub fn new() -> (state: EditorData)
        ensures
            state@.is_fresh(),
    {
        let mut windows = new_windows();
        let mut buffers = new_buffers();
        let content = rope_from_str("\n");
        proof {
            reveal_strlit("\n");
            assert("\n"@ =~= seq!['\n']);
        }
        let scratch = BufferData {
            content,
            name: "scratch".to_owned(),
            history: History::new(),
            path: None,
        };
        let ghost scratch_view = scratch@;
        let scratch_buffer = add_buffer(&mut buffers, scratch);
        let mut selections = new_selections();
        let primary_selection = add_selection(
            &mut selections,
            Selection { start: Position::file_start(), end: Position::file_start() },
        );
        let window = WindowData {
            buffer: scratch_buffer,
            mode: Mode::Normal,
            selections,
            primary_selection,
            command: String::new(),
            top: LineIndex::from_one_based(1),
        };
        let ghost window_view = window@;
        let focused_window = add_window(&mut windows, window);
        let state = EditorData {
            windows,
            buffers,
            open_tabs: vec![focused_window],
            focused_tab: 0,
            last_screen_height: None,
            pending_message: None,
            want_quit: false,
        };
        proof {
            assert(state@.windows =~= map![focused_window => window_view]);
            assert(state@.buffers =~= map![scratch_buffer => scratch_view]);
            assert(state@.windows.dom() =~= set![focused_window]);
            assert(state@.buffers.dom() =~= set![scratch_buffer]);
            assert(window_view.selections.dom() =~= set![primary_selection]);
        }
        state
    }
}

impl Default for EditorData {
    fn default() -> (state: EditorData)
        ensures
            state@.is_fresh(),
    {
        Self::new()
    }
}

/// The first line shown after the view has followed the cursor to `line`: the
/// cursor's line where it lay above the view, the line that brings it to the
/// last line of the view where it lay more than `height` lines below `top`,
/// and `top` where it was in view.
pub open spec fn followed(top: LineIndex, line: LineIndex, height: u16) -> LineIndex {
    if line.0 < top.0 {
        line
    } else if line.0 > top.0 + height {
        LineIndex((line.0 - height) as usize)
    } else {
        top
    }
}

impl EditorView {
    /// The state with window `id` replaced.
    pub open spec fn with_window(self, id: WindowId, window: WindowView) -> EditorView {
        EditorView { windows: self.windows.insert(id, window), ..self }
    }

    /// The state with buffer `id` replaced.
    pub open spec fn with_buffer(self, id: BufferId, buffer: BufferView) -> EditorView {
        EditorView { buffers: self.buffers.insert(id, buffer), ..self }
    }
}

impl EditorData {
    /// The handle of the window that actions go to.
    pub fn focused(&self) -> (id: WindowId)
        requires
            self.wf(),
        ensures
            id == self@.focused(),
            self@.windows.dom().contains(id),
    {
        self.open_tabs[self.focused_tab]
    }

    /// The mode of the focused window.
    pub fn mode(&self) -> (mode: Mode)
        requires
            self.wf(),
        ensures
            mode == self@.focused_window().mode,
    {
        window_ref(&self.windows, self.focused()).mode
    }

    /// The command line of the focused window.
    pub fn command_line(&self) -> (line: &String)
        requires
            self.wf(),
        ensures
            line@ == self@.focused_window().command,
    {
        &window_ref(&self.windows, self.focused()).command
    }

    /// The name of the buffer that window `id` looks at.
    pub fn buffer_name(&self, id: WindowId) -> (name: &String)
        requires
            self.wf(),
            self@.windows.dom().contains(id),
        ensures
            name@ == self@.buffers[self@.windows[id].buffer].name,
    {
        let window = window_ref(&self.windows, id);
        &buffer_ref(&self.buffers, window.buffer).name
    }

    /// The primary selection of window `id`.
    pub fn primary_selection(&self, id: WindowId) -> (selection: Selection)
        requires
            self.wf(),
            self@.windows.dom().contains(id),
        ensures
            selection == self@.windows[id].selections[self@.windows[id].primary_selection],
    {
        let window = window_ref(&self.windows, id);
        *selection_ref(&window.selections, window.primary_selection)
    }

    /// Brings the cursor of the primary selection of window `id` into view on
    /// a screen of `height` lines, and returns the first line shown.
    pub fn follow_cursor(&mut self, id: WindowId, height: u16) -> (top: LineIndex)
        requires
            old(self).wf(),
            old(self)@.windows.dom().contains(id),
        ensures
            top == followed(
                old(self)@.windows[id].top,
                old(self)@.windows[id].primary().end.line,
                height,
            ),
            final(self)@ == old(self)@.with_window(
                id,
                WindowView { top, ..old(self)@.windows[id] },
            ),
            final(self).wf(),
    {
        let ghost before = self@;
        let window = window_mut(&mut self.windows, id);
        let line = selection_ref(&window.selections, window.primary_selection).end.line;
        if line.0 < window.top.0 {
            window.top = line;
        } else if line.0 - window.top.0 > height as usize {
            window.top = LineIndex(line.0 - height as usize);
        }
        let top = window.top;
        proof {
            assert(self@.windows =~= before.windows.insert(
                id,
                WindowView { top, ..before.windows[id] },
            ));
            assert(self@.buffers =~= before.buffers);
        }
        top
    }

    /// Takes in a document that was read from a file: a buffer of that name
    /// and path is made for it, with a window that looks at it and one
    /// selection at the start of the text. The window becomes the last tab
    /// and the focused one. An empty text is brought to the text of one line
    /// feed first, which the buffer's log records.
    pub fn open(&mut self, name: String, path: PathBuf, content: Rope) -> (id: WindowId)
        requires
            old(self).wf(),
            old(self)@.windows.dom().len() < MAX_ENTRIES,
            old(self)@.buffers.dom().len() < MAX_ENTRIES,
        ensures
            final(self).wf(),
            !old(self)@.windows.dom().contains(id),
            !old(self)@.buffers.dom().contains(final(self)@.windows[id].buffer),
            final(self)@.windows.dom() == old(self)@.windows.dom().insert(id),
            final(self)@.buffers.dom() == old(self)@.buffers.dom().insert(
                final(self)@.windows[id].buffer,
            ),
            forall|w: WindowId|
                old(self)@.windows.dom().contains(w) ==> final(self)@.windows[w] == old(
                    self,
                )@.windows[w],
            forall|b: BufferId|
                old(self)@.buffers.dom().contains(b) ==> final(self)@.buffers[b] == old(
                    self,
                )@.buffers[b],
            final(self)@.buffers[final(self)@.windows[id].buffer] == (BufferView {
                path: Some(path),
                name: name@,
                text: rope_text(content),
                history: Seq::empty(),
            }).repaired(),
            final(self)@.windows[id].mode == Mode::Normal,
            final(self)@.windows[id].command == Seq::<char>::empty(),
            final(self)@.windows[id].top == LineIndex(1),
            final(self)@.windows[id].selections == map![
                final(self)@.windows[id].primary_selection => Selection {
                    start: Position::file_start_spec(),
                    end: Position::file_start_spec(),
                },
            ],
            final(self)@.open_tabs == old(self)@.open_tabs.push(id),
            final(self)@.focused_tab == old(self)@.open_tabs.len(),
            final(self)@.last_screen_height == old(self)@.last_screen_height,
            final(self)@.pending_message == old(self)@.pending_message,
            final(self)@.want_quit == old(self)@.want_quit,
    {
        text_fits(&content);
        let mut buffer = BufferData { path: Some(path), name, content, history: History::new() };
        repair(&mut buffer);
        proof {
            crate::text::lemma_last_full_line(buffer@.text);
            crate::text::lemma_line_len(buffer@.text, 0);
        }
        let ghost buffer_view = buffer@;
        let ghost windows_before = self@.windows;
        let ghost buffers_before = self@.buffers;
        assert(window_entries(self.windows).dom() =~= self@.windows.dom());
        assert(buffer_entries(self.buffers).dom() =~= self@.buffers.dom());
        let buffer_id = add_buffer(&mut self.buffers, buffer);
        let mut selections = new_selections();
        let selection_id = add_selection(
            &mut selections,
            Selection { start: Position::file_start(), end: Position::file_start() },
        );
        let window = WindowData {
            buffer: buffer_id,
            command: String::new(),
            mode: Mode::Normal,
            selections,
            primary_selection: selection_id,
            top: LineIndex::from_one_based(1),
        };
        let ghost window_view = window@;
        let focused_tab: usize = self.open_tabs.len();
        let id = add_window(&mut self.windows, window);
        self.open_tabs.push(id);
        self.focused_tab = focused_tab;
        proof {
            assert(window_view.selections.dom() =~= set![selection_id]);
            assert(window_view.selections =~= map![
                selection_id => Selection {
                    start: Position::file_start_spec(),
                    end: Position::file_start_spec(),
                },
            ]);
            assert(self@.windows =~= windows_before.insert(id, window_view));
            assert(self@.buffers =~= buffers_before.insert(buffer_id, buffer_view));
            assert(self@.windows.dom() =~= windows_before.dom().insert(id));
            assert(self@.buffers.dom() =~= buffers_before.dom().insert(buffer_id));
        }
        id
    }
}

/// Sets the message that is shown next.
pub fn show_message(state: &mut EditorData, importance: Importance, message: String)
    ensures
        final(state)@ == (EditorView {
            pending_message: Some((importance, message@)),
            ..old(state)@
        }),
{
    state.pending_message = Some((importance, message));
}

/// Takes the message that is to be shown, if there is one: it is shown once.
pub fn take_message(state: &mut EditorData) -> (message: Option<(Importance, String)>)
    ensures
        final(state)@ == (EditorView { pending_message: None, ..old(state)@ }),
        old(state)@.pending_message == match message {
            Some((importance, text)) => Some((importance, text@)),
            None => None,
        },
{
    let mut message: Option<(Importance, String)> = None;
    core::mem::swap(&mut state.pending_message, &mut message);
    message
}

/// Asks for the editor to end.
pub fn quit(state: &mut EditorData)
    ensures
        final(state)@ == (EditorView { want_quit: true, ..old(state)@ }),
{
    state.want_quit = true;
}

} // verus!
