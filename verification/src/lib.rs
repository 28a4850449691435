//! A modal text editing engine.
//!
//! - [`text`]: the text storage and its line structure.
//! - [`location`]: lines, columns, positions, selections and movements.
//! - [`buffer`]: a document with its undo log.
//! - [`arena`]: the handle maps that own windows, buffers and selections.
//! - [`state`]: the editor's state and its windows.
//! - [`action`]: the actions and what they do to selections.
//! - [`command`]: the command line and its commands.
//! - [`dispatch`]: the dispatcher that applies one action to the state.
//! - [`keymap`]: the key bindings.
//! - [`laws`]: what holds of movements, of ordering and of undo.
//! - [`strings`]: the string operations of the standard library that the
//!   engine uses.
//! - [`terminal`]: points and rectangles of a screen.
//! - [`id_vec`]: a vector indexed by identities.
//!
//! The engine does no input or output: keys come in as values, and what is to
//! be read from or written to a file is handed to the caller as an
//! [`Effect`].

pub mod action;
pub mod arena;
pub mod buffer;
pub mod command;
pub mod dispatch;
pub mod id_vec;
pub mod keymap;
pub mod laws;
pub mod location;
pub mod state;
pub mod strings;
pub mod terminal;
pub mod text;

pub use action::{
    Action, BufferAction, CommandAction, EditorAction, EditorError, Effect, WindowAction,
};
pub use arena::{BufferId, SelectionId, WindowId};
pub use buffer::{BufferData, Edit, History, NothingLeftToUndo};
pub use command::{run_command, submit, Command, CommandDesc};
pub use dispatch::{do_action, redo, undo};
pub use keymap::{actions_for, do_actions, handle_key, Key};
pub use state::{quit, show_message, take_message, EditorData, Importance, Mode, WindowData};
