//! The key bindings: which actions a key stands for in each mode, and the
//! application of the actions of one key to the editor.

use crate::action::{
    Action, BufferAction, CommandAction, EditorAction, Effect, EffectModel, WindowAction,
};
use crate::dispatch::do_action;
use crate::location::Movement;
use crate::state::{show_message, EditorData, EditorView, Importance, Mode};
use vstd::prelude::*;

verus! {

/// A key press as the input layer reports it.
#[derive(Debug, Clone, PartialEq, Eq)]
pub enum Key {
    Char(char),
    /// A control code, by the byte of its lowercase letter.
    Ctrl(u8),
    /// A sequence of bytes that the input layer did not decode.
    Bytes(Vec<u8>),
    Backspace,
    Escape,
    Up,
    Down,
    Right,
    Left,
    Home,
    End,
    PageUp,
    PageDown,
    /// Any other key.
    Other,
}

/// A [`Key`] with its bytes as a sequence.
pub enum KeyModel {
    Char(char),
    Ctrl(u8),
    Bytes(Seq<u8>),
    Backspace,
    Escape,
    Up,
    Down,
    Right,
    Left,
    Home,
    End,
    PageUp,
    PageDown,
    Other,
}

impl View for Key {
    type V = KeyModel;

    open spec fn view(&self) -> KeyModel {
        match *self {
            Key::Char(c) => KeyModel::Char(c),
            Key::Ctrl(b) => KeyModel::Ctrl(b),
            Key::Bytes(bytes) => KeyModel::Bytes(bytes@),
            Key::Backspace => KeyModel::Backspace,
            Key::Escape => KeyModel::Escape,
            Key::Up => KeyModel::Up,
            Key::Down => KeyModel::Down,
            Key::Right => KeyModel::Right,
            Key::Left => KeyModel::Left,
            Key::Home => KeyModel::Home,
            Key::End => KeyModel::End,
            Key::PageUp => KeyModel::PageUp,
            Key::PageDown => KeyModel::PageDown,
            Key::Other => KeyModel::Other,
        }
    }
}

/// The bytes that a terminal sends for an arrow key with shift held; `last`
/// tells the arrows apart.
pub open spec fn shift_arrow(last: u8) -> Seq<u8> {
    seq![27u8, 91u8, 49u8, 59u8, 50u8, last]
}

/// A collapsing movement.
pub open spec fn go(movement: Movement) -> Action {
    Action::Window(WindowAction::Move(movement))
}

/// A movement of the cursor that leaves the anchor.
pub open spec fn extend(movement: Movement) -> Action {
    Action::Window(WindowAction::ShiftEnd(movement))
}

/// A change of mode.
pub open spec fn switch(mode: Mode) -> Action {
    Action::Window(WindowAction::SwitchToMode(mode))
}

/// The actions of the keys that mean the same in normal, insert and append
/// mode: arrows, paging, line ends and tabs. In the other modes these keys
/// have no such meaning.
pub open spec fn common_actions(mode: Mode, key: KeyModel) -> Seq<Action> {
    if mode is Normal || mode is Insert || mode is Append {
        match key {
            KeyModel::Left => seq![go(Movement::Left(1))],
            KeyModel::Down => seq![go(Movement::Down(1))],
            KeyModel::Up => seq![go(Movement::Up(1))],
            KeyModel::Right => seq![go(Movement::Right(1))],
            KeyModel::Home => seq![go(Movement::LineStart)],
            KeyModel::End => seq![go(Movement::LineEnd)],
            KeyModel::PageUp => seq![Action::Window(WindowAction::ScrollPageUp)],
            KeyModel::PageDown => seq![Action::Window(WindowAction::ScrollPageDown)],
            KeyModel::Ctrl(b) => if b == 117 {
                seq![Action::Window(WindowAction::ScrollHalfPageUp)]
            } else if b == 100 {
                seq![Action::Window(WindowAction::ScrollHalfPageDown)]
            } else if b == 98 {
                seq![Action::Window(WindowAction::ScrollPageUp)]
            } else if b == 102 {
                seq![Action::Window(WindowAction::ScrollPageDown)]
            } else if b == 112 {
                seq![Action::Editor(EditorAction::PreviousTab)]
            } else if b == 110 {
                seq![Action::Editor(EditorAction::NextTab)]
            } else {
                seq![]
            },
            KeyModel::Bytes(bytes) => if bytes == shift_arrow(68) {
                seq![extend(Movement::Left(1))]
            } else if bytes == shift_arrow(66) {
                seq![extend(Movement::Down(1))]
            } else if bytes == shift_arrow(65) {
                seq![extend(Movement::Up(1))]
            } else if bytes == shift_arrow(67) {
                seq![extend(Movement::Right(1))]
            } else {
                seq![]
            },
            _ => seq![],
        }
    } else {
        seq![]
    }
}

/// The actions of a character key in normal mode.
pub open spec fn normal_actions(c: char) -> Seq<Action> {
    if c == 'i' {
        seq![Action::Window(WindowAction::OrderSelections), switch(Mode::Insert)]
    } else if c == 'c' {
        seq![Action::Window(WindowAction::Delete), switch(Mode::Insert)]
    } else if c == 'a' {
        seq![Action::Window(WindowAction::OrderSelections), switch(Mode::Append)]
    } else if c == 'A' {
        seq![go(Movement::LineEnd), switch(Mode::Insert)]
    } else if c == 'o' {
        seq![
            go(Movement::LineEnd),
            Action::Window(WindowAction::InsertAtSelectionEnd('\n')),
            go(Movement::Down(1)),
            go(Movement::LineStart),
            switch(Mode::Insert),
        ]
    } else if c == 'g' {
        seq![switch(Mode::Goto { selecting: false })]
    } else if c == 'G' {
        seq![switch(Mode::Goto { selecting: true })]
    } else if c == ':' {
        seq![switch(Mode::Command)]
    } else if c == 'h' {
        seq![go(Movement::Left(1))]
    } else if c == 'j' {
        seq![go(Movement::Down(1))]
    } else if c == 'k' {
        seq![go(Movement::Up(1))]
    } else if c == 'l' {
        seq![go(Movement::Right(1))]
    } else if c == 'H' {
        seq![extend(Movement::Left(1))]
    } else if c == 'J' {
        seq![extend(Movement::Down(1))]
    } else if c == 'K' {
        seq![extend(Movement::Up(1))]
    } else if c == 'L' {
        seq![extend(Movement::Right(1))]
    } else if c == 'd' {
        seq![Action::Window(WindowAction::Delete)]
    } else if c == 'u' {
        seq![Action::Buffer(BufferAction::Undo)]
    } else if c == 'U' {
        seq![Action::Buffer(BufferAction::Redo)]
    } else {
        seq![]
    }
}

/// The movement that a character key names in goto mode, if it names one.
pub open spec fn goto_movement(key: KeyModel) -> Option<Movement> {
    match key {
        KeyModel::Char(c) => if c == 'h' {
            Some(Movement::LineStart)
        } else if c == 'j' {
            Some(Movement::FileEnd)
        } else if c == 'k' {
            Some(Movement::FileStart)
        } else if c == 'l' {
            Some(Movement::LineEnd)
        } else {
            None
        },
        _ => None,
    }
}

/// The actions that a key stands for in the mode it is pressed in, beside the
/// common ones. Goto mode takes one key and ends; insert and append mode put
/// characters in; command mode edits and submits the command line.
pub open spec fn mode_actions(mode: Mode, key: KeyModel) -> Seq<Action> {
    match mode {
        Mode::Normal => match key {
            KeyModel::Char(c) => normal_actions(c),
            _ => seq![],
        },
        Mode::Goto { selecting } => match goto_movement(key) {
            Some(movement) => seq![
                if selecting {
                    extend(movement)
                } else {
                    go(movement)
                },
                switch(Mode::Normal),
            ],
            None => seq![switch(Mode::Normal)],
        },
        Mode::Insert => match key {
            KeyModel::Escape => seq![switch(Mode::Normal)],
            KeyModel::Char(c) => seq![
                Action::Window(WindowAction::InsertAtSelectionStart(c)),
                Action::Window(WindowAction::ShiftStart(Movement::Right(1))),
                extend(Movement::Right(1)),
            ],
            KeyModel::Backspace => seq![
                go(Movement::Left(1)),
                Action::Window(WindowAction::Delete),
            ],
            _ => seq![],
        },
        Mode::Append => match key {
            KeyModel::Escape => seq![switch(Mode::Normal)],
            KeyModel::Char(c) => seq![
                extend(Movement::Right(1)),
                Action::Window(WindowAction::InsertAtSelectionEnd(c)),
            ],
            KeyModel::Backspace => seq![
                go(Movement::Left(1)),
                Action::Window(WindowAction::Delete),
            ],
            _ => seq![],
        },
        Mode::Command => match key {
            KeyModel::Escape => seq![
                Action::Command(CommandAction::Clear),
                switch(Mode::Normal),
            ],
            KeyModel::Char(c) => if c == '\t' {
                seq![Action::Command(CommandAction::Tab)]
            } else if c == '\n' {
                seq![Action::Command(CommandAction::Return)]
            } else {
                seq![Action::Command(CommandAction::Character(c))]
            },
            KeyModel::Ctrl(b) => if b == 109 {
                seq![Action::Command(CommandAction::Return)]
            } else {
                seq![]
            },
            KeyModel::Backspace => seq![Action::Command(CommandAction::Backspace)],
            _ => seq![],
        },
    }
}

/// The actions that a key stands for in a mode: the common ones, then those
/// of the mode.
pub open spec fn actions_of(mode: Mode, key: KeyModel) -> Seq<Action> {
    common_actions(mode, key) + mode_actions(mode, key)
}

fn is_shift_arrow(bytes: &Vec<u8>, last: u8) -> (yes: bool)
    ensures
        yes == (bytes@ == shift_arrow(last)),
{
    let yes = bytes.len() == 6 && bytes[0] == 27 && bytes[1] == 91 && bytes[2] == 49 && bytes[3]
        == 59 && bytes[4] == 50 && bytes[5] == last;
    proof {
        if yes {
            assert(bytes@ =~= shift_arrow(last));
        }
    }
    yes
}

fn move_by(movement: Movement) -> (action: Action)
    ensures
        action == go(movement),
{
    Action::Window(WindowAction::Move(movement))
}

fn extend_by(movement: Movement) -> (action: Action)
    ensures
        action == extend(movement),
{
    Action::Window(WindowAction::ShiftEnd(movement))
}

fn switch_to(mode: Mode) -> (action: Action)
    ensures
        action == switch(mode),
{
    Action::Window(WindowAction::SwitchToMode(mode))
}

fn common_actions_for(mode: Mode, key: &Key) -> (actions: Vec<Action>)
    ensures
        actions@ == common_actions(mode, key@),
{
    match mode {
        Mode::Normal | Mode::Insert | Mode::Append => {},
        _ => {
            return vec![];
        },
    }
    match key {
        Key::Left => vec![move_by(Movement::Left(1))],
        Key::Down => vec![move_by(Movement::Down(1))],
        Key::Up => vec![move_by(Movement::Up(1))],
        Key::Right => vec![move_by(Movement::Right(1))],
        Key::Home => vec![move_by(Movement::LineStart)],
        Key::End => vec![move_by(Movement::LineEnd)],
        Key::PageUp => vec![Action::Window(WindowAction::ScrollPageUp)],
        Key::PageDown => vec![Action::Window(WindowAction::ScrollPageDown)],
        Key::Ctrl(b) => {
            if *b == 117 {
                vec![Action::Window(WindowAction::ScrollHalfPageUp)]
            } else if *b == 100 {
                vec![Action::Window(WindowAction::ScrollHalfPageDown)]
            } else if *b == 98 {
                vec![Action::Window(WindowAction::ScrollPageUp)]
            } else if *b == 102 {
                vec![Action::Window(WindowAction::ScrollPageDown)]
            } else if *b == 112 {
                vec![Action::Editor(EditorAction::PreviousTab)]
            } else if *b == 110 {
                vec![Action::Editor(EditorAction::NextTab)]
            } else {
                vec![]
            }
        },
        Key::Bytes(bytes) => {
            if is_shift_arrow(bytes, 68) {
                vec![extend_by(Movement::Left(1))]
            } else if is_shift_arrow(bytes, 66) {
                vec![extend_by(Movement::Down(1))]
            } else if is_shift_arrow(bytes, 65) {
                vec![extend_by(Movement::Up(1))]
            } else if is_shift_arrow(bytes, 67) {
                vec![extend_by(Movement::Right(1))]
            } else {
                vec![]
            }
        },
        _ => vec![],
    }
}

fn normal_actions_for(c: char) -> (actions: Vec<Action>)
    ensures
        actions@ == normal_actions(c),
{
    if c == 'i' {
        vec![Action::Window(WindowAction::OrderSelections), switch_to(Mode::Insert)]
    } else if c == 'c' {
        vec![Action::Window(WindowAction::Delete), switch_to(Mode::Insert)]
    } else if c == 'a' {
        vec![Action::Window(WindowAction::OrderSelections), switch_to(Mode::Append)]
    } else if c == 'A' {
        vec![move_by(Movement::LineEnd), switch_to(Mode::Insert)]
    } else if c == 'o' {
        vec![
            move_by(Movement::LineEnd),
            Action::Window(WindowAction::InsertAtSelectionEnd('\n')),
            move_by(Movement::Down(1)),
            move_by(Movement::LineStart),
            switch_to(Mode::Insert),
        ]
    } else if c == 'g' {
        vec![switch_to(Mode::Goto { selecting: false })]
    } else if c == 'G' {
        vec![switch_to(Mode::Goto { selecting: true })]
    } else if c == ':' {
        vec![switch_to(Mode::Command)]
    } else if c == 'h' {
        vec![move_by(Movement::Left(1))]
    } else if c == 'j' {
        vec![move_by(Movement::Down(1))]
    } else if c == 'k' {
        vec![move_by(Movement::Up(1))]
    } else if c == 'l' {
        vec![move_by(Movement::Right(1))]
    } else if c == 'H' {
        vec![extend_by(Movement::Left(1))]
    } else if c == 'J' {
        vec![extend_by(Movement::Down(1))]
    } else if c == 'K' {
        vec![extend_by(Movement::Up(1))]
    } else if c == 'L' {
        vec![extend_by(Movement::Right(1))]
    } else if c == 'd' {
        vec![Action::Window(WindowAction::Delete)]
    } else if c == 'u' {
        vec![Action::Buffer(BufferAction::Undo)]
    } else if c == 'U' {
        vec![Action::Buffer(BufferAction::Redo)]
    } else {
        vec![]
    }
}

fn goto_movement_for(key: &Key) -> (movement: Option<Movement>)
    ensures
        movement == goto_movement(key@),
{
    match key {
        Key::Char(c) => {
            if *c == 'h' {
                Some(Movement::LineStart)
            } else if *c == 'j' {
                Some(Movement::FileEnd)
            } else if *c == 'k' {
                Some(Movement::FileStart)
            } else if *c == 'l' {
                Some(Movement::LineEnd)
            } else {
                None
            }
        },
        _ => None,
    }
}

fn mode_actions_for(mode: Mode, key: &Key) -> (actions: Vec<Action>)
    ensures
        actions@ == mode_actions(mode, key@),
{
    match mode {
        Mode::Normal => match key {
            Key::Char(c) => normal_actions_for(*c),
            _ => vec![],
        },
        Mode::Goto { selecting } => match goto_movement_for(key) {
            Some(movement) => {
                let first = if selecting {
                    extend_by(movement)
                } else {
                    move_by(movement)
                };
                vec![first, switch_to(Mode::Normal)]
            },
            None => vec![switch_to(Mode::Normal)],
        },
        Mode::Insert => match key {
            Key::Escape => vec![switch_to(Mode::Normal)],
            Key::Char(c) => vec![
                Action::Window(WindowAction::InsertAtSelectionStart(*c)),
                Action::Window(WindowAction::ShiftStart(Movement::Right(1))),
                extend_by(Movement::Right(1)),
            ],
            Key::Backspace => vec![
                move_by(Movement::Left(1)),
                Action::Window(WindowAction::Delete),
            ],
            _ => vec![],
        },
        Mode::Append => match key {
            Key::Escape => vec![switch_to(Mode::Normal)],
            Key::Char(c) => vec![
                extend_by(Movement::Right(1)),
                Action::Window(WindowAction::InsertAtSelectionEnd(*c)),
            ],
            Key::Backspace => vec![
                move_by(Movement::Left(1)),
                Action::Window(WindowAction::Delete),
            ],
            _ => vec![],
        },
        Mode::Command => match key {
            Key::Escape => vec![Action::Command(CommandAction::Clear), switch_to(Mode::Normal)],
            Key::Char(c) => {
                if *c == '\t' {
                    vec![Action::Command(CommandAction::Tab)]
                } else if *c == '\n' {
                    vec![Action::Command(CommandAction::Return)]
                } else {
                    vec![Action::Command(CommandAction::Character(*c))]
                }
            },
            Key::Ctrl(b) => {
                if *b == 109 {
                    vec![Action::Command(CommandAction::Return)]
                } else {
                    vec![]
                }
            },
            Key::Backspace => vec![Action::Command(CommandAction::Backspace)],
            _ => vec![],
        },
    }
}

/// The actions that `key` stands for in `mode`.
pub fn actions_for(mode: Mode, key: &Key) -> (actions: Vec<Action>)
    ensures
        actions@ == actions_of(mode, key@),
{
    let mut actions = common_actions_for(mode, key);
    let mut more = mode_actions_for(mode, key);
    actions.append(&mut more);
    actions
}

/// Whether each action on the command line among `actions` finds the focused
/// window in command mode when its turn comes.
pub open spec fn runnable(state: EditorView, actions: Seq<Action>) -> bool
    decreases actions.len(),
{
    actions.len() == 0 || ((actions[0] is Command ==> state.focused_window().mode is Command)
        && (state.acted(actions[0]).1 is Ok ==> runnable(
        state.acted(actions[0]).0,
        actions.drop_first(),
    )))
}

/// The state after `actions` were applied in turn, and what the last of them
/// asks of the caller. The first failure ends the run: its words become the
/// message, and nothing is asked of the caller.
pub open spec fn ran(state: EditorView, actions: Seq<Action>) -> (EditorView, EffectModel)
    decreases actions.len(),
{
    if actions.len() == 0 {
        (state, EffectModel::Nothing)
    } else {
        match state.acted(actions[0]).1 {
            Err(e) => (
                EditorView {
                    pending_message: Some((Importance::Error, e.words())),
                    ..state.acted(actions[0]).0
                },
                EffectModel::Nothing,
            ),
            Ok(effect) => if actions.len() == 1 {
                (state.acted(actions[0]).0, effect)
            } else {
                ran(state.acted(actions[0]).0, actions.drop_first())
            },
        }
    }
}

/// Actions that are not on the command line can be run in any state.
pub proof fn lemma_plain_runnable(state: EditorView, actions: Seq<Action>)
    requires
        forall|k: int| 0 <= k < actions.len() ==> !(#[trigger] actions[k] is Command),
    ensures
        runnable(state, actions),
    decreases actions.len(),
{
    if actions.len() > 0 {
        assert forall|k: int| 0 <= k < actions.drop_first().len() implies !(
        #[trigger] actions.drop_first()[k] is Command) by {
            assert(actions.drop_first()[k] == actions[k + 1]);
        }
        lemma_plain_runnable(state.acted(actions[0]).0, actions.drop_first());
    }
}

/// The actions of a key can be run in the mode that they were chosen for.
pub proof fn lemma_key_runnable(state: EditorView, key: KeyModel)
    ensures
        runnable(state, actions_of(state.focused_window().mode, key)),
{
    let mode = state.focused_window().mode;
    let actions = actions_of(mode, key);
    if mode is Command {
        assert(common_actions(mode, key).len() == 0);
        assert(actions =~= mode_actions(mode, key));
        if actions.len() > 0 {
            let rest = actions.drop_first();
            assert forall|k: int| 0 <= k < rest.len() implies !(#[trigger] rest[k] is Command) by {
                assert(rest[k] == actions[k + 1]);
            }
            lemma_plain_runnable(state.acted(actions[0]).0, rest);
        }
    } else {
        let common = common_actions(mode, key);
        let more = mode_actions(mode, key);
        assert forall|k: int| 0 <= k < common.len() implies !(#[trigger] common[k] is Command) by {}
        assert forall|k: int| 0 <= k < more.len() implies !(#[trigger] more[k] is Command) by {
            match key {
                KeyModel::Char(c) => {
                    assert(forall|j: int|
                        0 <= j < normal_actions(c).len() ==> !(
                        #[trigger] normal_actions(c)[j] is Command));
                },
                _ => {},
            }
        }
        assert forall|k: int| 0 <= k < actions.len() implies !(
        #[trigger] actions[k] is Command) by {
            if k < common.len() {
                assert(actions[k] == common[k]);
            } else {
                assert(actions[k] == more[k - common.len()]);
            }
        }
        lemma_plain_runnable(state, actions);
    }
}

/// Applies `actions` in turn. The first failure ends the run and becomes the
/// message that is shown next; the actions before it stay applied.
pub fn do_actions(state: &mut EditorData, actions: &Vec<Action>) -> (effect: Effect)
    requires
        old(state).wf(),
        runnable(old(state)@, actions@),
    ensures
        final(state)@ == ran(old(state)@, actions@).0,
        effect@ == ran(old(state)@, actions@).1,
        final(state).wf(),
{
    let mut effect = Effect::Nothing;
    let mut i: usize = 0;
    assert(actions@.skip(0) =~= actions@);
    while i < actions.len()
        invariant
            i <= actions.len(),
            state.wf(),
            i < actions.len() ==> runnable(state@, actions@.skip(i as int)),
            ran(old(state)@, actions@) == if i < actions.len() {
                ran(state@, actions@.skip(i as int))
            } else {
                (state@, effect@)
            },
            i == 0 ==> effect@ == EffectModel::Nothing,
        decreases actions.len() - i,
    {
        let ghost rest = actions@.skip(i as int);
        proof {
            assert(rest[0] == actions@[i as int]);
            assert(rest.drop_first() =~= actions@.skip(i + 1));
        }
        match do_action(state, actions[i]) {
            Err(e) => {
                show_message(state, Importance::Error, e.message());
                return Effect::Nothing;
            },
            Ok(asked) => {
                effect = asked;
            },
        }
        i += 1;
    }
    effect
}

/// Applies the actions that `key` stands for in the mode of the focused
/// window.
pub fn handle_key(state: &mut EditorData, key: &Key) -> (effect: Effect)
    requires
        old(state).wf(),
    ensures
        final(state)@ == ran(
            old(state)@,
            actions_of(old(state)@.focused_window().mode, key@),
        ).0,
        effect@ == ran(old(state)@, actions_of(old(state)@.focused_window().mode, key@)).1,
        final(state).wf(),
{
    let actions = actions_for(state.mode(), key);
    proof {
        lemma_key_runnable(state@, key@);
    }
    do_actions(state, &actions)
}

} // verus!
