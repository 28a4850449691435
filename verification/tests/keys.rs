use editor::{EditorData, Effect, Mode};
use editor::id_vec::{Id, IdVec};
use editor::keymap::{actions_for, do_actions, handle_key, Key};
use editor::{Action, CommandAction, WindowAction};
use editor::location::{ColumnIndex, LineIndex, Movement, Position};
use editor::terminal::{Point, Rect};
use ropey::Rope;
use std::path::PathBuf;

fn at(line: usize, column: usize) -> Position {
    Position { line: LineIndex(line), column: ColumnIndex(column) }
}

fn editor_with(content: &str) -> EditorData {
    let mut state = EditorData::new();
    state.open(String::from("doc"), PathBuf::from("/tmp/doc"), Rope::from_str(content));
    state
}

fn text_of(state: &EditorData) -> String {
    let window = &state.windows[state.open_tabs[state.focused_tab]];
    state.buffers[window.buffer].content.to_string()
}

fn ends(state: &EditorData) -> (Position, Position) {
    let selection = state.primary_selection(state.open_tabs[state.focused_tab]);
    (selection.start, selection.end)
}

fn names(mode: Mode, key: Key) -> String {
    format!("{:?}", actions_for(mode, &key))
}

fn press(state: &mut EditorData, keys: &str) {
    for c in keys.chars() {
        assert_eq!(handle_key(state, &Key::Char(c)), Effect::Nothing);
    }
}

#[test]
fn arrows_move_in_normal_insert_and_append_mode() {
    for mode in [Mode::Normal, Mode::Insert, Mode::Append] {
        assert_eq!(names(mode, Key::Left), "[Window(Move(Left(1)))]");
        assert_eq!(names(mode, Key::Down), "[Window(Move(Down(1)))]");
        assert_eq!(names(mode, Key::Up), "[Window(Move(Up(1)))]");
        assert_eq!(names(mode, Key::Right), "[Window(Move(Right(1)))]");
        assert_eq!(names(mode, Key::Home), "[Window(Move(LineStart))]");
        assert_eq!(names(mode, Key::End), "[Window(Move(LineEnd))]");
        assert_eq!(names(mode, Key::PageUp), "[Window(ScrollPageUp)]");
        assert_eq!(names(mode, Key::PageDown), "[Window(ScrollPageDown)]");
        assert_eq!(names(mode, Key::Ctrl(b'u')), "[Window(ScrollHalfPageUp)]");
        assert_eq!(names(mode, Key::Ctrl(b'd')), "[Window(ScrollHalfPageDown)]");
        assert_eq!(names(mode, Key::Ctrl(b'b')), "[Window(ScrollPageUp)]");
        assert_eq!(names(mode, Key::Ctrl(b'f')), "[Window(ScrollPageDown)]");
        assert_eq!(names(mode, Key::Ctrl(b'p')), "[Editor(PreviousTab)]");
        assert_eq!(names(mode, Key::Ctrl(b'n')), "[Editor(NextTab)]");
        assert_eq!(names(mode, Key::Ctrl(b'x')), "[]");
        assert_eq!(names(mode, Key::Other), "[]");
    }
}

#[test]
fn shift_arrows_extend() {
    let arrow = |last: u8| Key::Bytes(vec![27, 91, 49, 59, 50, last]);
    assert_eq!(names(Mode::Normal, arrow(65)), "[Window(ShiftEnd(Up(1)))]");
    assert_eq!(names(Mode::Insert, arrow(66)), "[Window(ShiftEnd(Down(1)))]");
    assert_eq!(names(Mode::Append, arrow(67)), "[Window(ShiftEnd(Right(1)))]");
    assert_eq!(names(Mode::Normal, arrow(68)), "[Window(ShiftEnd(Left(1)))]");
    assert_eq!(names(Mode::Normal, arrow(69)), "[]");
    assert_eq!(names(Mode::Normal, Key::Bytes(vec![27, 91, 49, 59, 50])), "[]");
    assert_eq!(names(Mode::Normal, Key::Bytes(vec![27, 91, 49, 59, 50, 65, 0])), "[]");
    assert_eq!(names(Mode::Command, arrow(65)), "[]");
}

#[test]
fn normal_mode_keys() {
    let n = |c: char| names(Mode::Normal, Key::Char(c));
    assert_eq!(n('i'), "[Window(OrderSelections), Window(SwitchToMode(Insert))]");
    assert_eq!(n('c'), "[Window(Delete), Window(SwitchToMode(Insert))]");
    assert_eq!(n('a'), "[Window(OrderSelections), Window(SwitchToMode(Append))]");
    assert_eq!(n('A'), "[Window(Move(LineEnd)), Window(SwitchToMode(Insert))]");
    assert_eq!(
        n('o'),
        "[Window(Move(LineEnd)), Window(InsertAtSelectionEnd('\\n')), Window(Move(Down(1))), \
         Window(Move(LineStart)), Window(SwitchToMode(Insert))]"
    );
    assert_eq!(n('g'), "[Window(SwitchToMode(Goto { selecting: false }))]");
    assert_eq!(n('G'), "[Window(SwitchToMode(Goto { selecting: true }))]");
    assert_eq!(n(':'), "[Window(SwitchToMode(Command))]");
    assert_eq!(n('h'), "[Window(Move(Left(1)))]");
    assert_eq!(n('j'), "[Window(Move(Down(1)))]");
    assert_eq!(n('k'), "[Window(Move(Up(1)))]");
    assert_eq!(n('l'), "[Window(Move(Right(1)))]");
    assert_eq!(n('H'), "[Window(ShiftEnd(Left(1)))]");
    assert_eq!(n('J'), "[Window(ShiftEnd(Down(1)))]");
    assert_eq!(n('K'), "[Window(ShiftEnd(Up(1)))]");
    assert_eq!(n('L'), "[Window(ShiftEnd(Right(1)))]");
    assert_eq!(n('d'), "[Window(Delete)]");
    assert_eq!(n('u'), "[Buffer(Undo)]");
    assert_eq!(n('U'), "[Buffer(Redo)]");
    assert_eq!(n('x'), "[]");
    assert_eq!(names(Mode::Normal, Key::Escape), "[]");
    assert_eq!(names(Mode::Normal, Key::Backspace), "[]");
}

#[test]
fn goto_mode_takes_one_key() {
    let g = |selecting: bool, c: char| names(Mode::Goto { selecting }, Key::Char(c));
    assert_eq!(g(false, 'h'), "[Window(Move(LineStart)), Window(SwitchToMode(Normal))]");
    assert_eq!(g(false, 'j'), "[Window(Move(FileEnd)), Window(SwitchToMode(Normal))]");
    assert_eq!(g(false, 'k'), "[Window(Move(FileStart)), Window(SwitchToMode(Normal))]");
    assert_eq!(g(false, 'l'), "[Window(Move(LineEnd)), Window(SwitchToMode(Normal))]");
    assert_eq!(g(true, 'j'), "[Window(ShiftEnd(FileEnd)), Window(SwitchToMode(Normal))]");
    assert_eq!(g(true, 'x'), "[Window(SwitchToMode(Normal))]");
    assert_eq!(names(Mode::Goto { selecting: false }, Key::Left), "[Window(SwitchToMode(Normal))]");
}

#[test]
fn insert_and_append_mode_keys() {
    assert_eq!(names(Mode::Insert, Key::Escape), "[Window(SwitchToMode(Normal))]");
    assert_eq!(names(Mode::Append, Key::Escape), "[Window(SwitchToMode(Normal))]");
    assert_eq!(
        names(Mode::Insert, Key::Char('q')),
        "[Window(InsertAtSelectionStart('q')), Window(ShiftStart(Right(1))), \
         Window(ShiftEnd(Right(1)))]"
    );
    assert_eq!(
        names(Mode::Append, Key::Char('q')),
        "[Window(ShiftEnd(Right(1))), Window(InsertAtSelectionEnd('q'))]"
    );
    assert_eq!(names(Mode::Insert, Key::Backspace), "[Window(Move(Left(1))), Window(Delete)]");
    assert_eq!(names(Mode::Append, Key::Backspace), "[Window(Move(Left(1))), Window(Delete)]");
    assert_eq!(names(Mode::Insert, Key::Ctrl(b'm')), "[]");
}

#[test]
fn command_mode_keys() {
    assert_eq!(
        names(Mode::Command, Key::Escape),
        "[Command(Clear), Window(SwitchToMode(Normal))]"
    );
    assert_eq!(names(Mode::Command, Key::Char('\t')), "[Command(Tab)]");
    assert_eq!(names(Mode::Command, Key::Char('\n')), "[Command(Return)]");
    assert_eq!(names(Mode::Command, Key::Ctrl(b'm')), "[Command(Return)]");
    assert_eq!(names(Mode::Command, Key::Char('w')), "[Command(Character('w'))]");
    assert_eq!(names(Mode::Command, Key::Backspace), "[Command(Backspace)]");
    assert_eq!(names(Mode::Command, Key::Left), "[]");
    assert_eq!(names(Mode::Command, Key::Ctrl(b'n')), "[]");
}

#[test]
fn typing_in_insert_mode() {
    let mut state = EditorData::new();
    press(&mut state, "ihi");
    assert_eq!(text_of(&state), "hi\n");
    assert_eq!(ends(&state), (at(1, 3), at(1, 3)));
    assert!(matches!(state.mode(), Mode::Insert));
    assert_eq!(handle_key(&mut state, &Key::Backspace), Effect::Nothing);
    assert_eq!(text_of(&state), "h\n");
    assert_eq!(ends(&state), (at(1, 2), at(1, 2)));
    assert_eq!(handle_key(&mut state, &Key::Escape), Effect::Nothing);
    assert!(matches!(state.mode(), Mode::Normal));
    press(&mut state, "uu");
    assert_eq!(text_of(&state), "h\n");
    press(&mut state, "u");
    assert_eq!(text_of(&state), "\n");
    assert!(state.pending_message.is_none());
}

#[test]
fn opening_a_line_below() {
    let mut state = editor_with("ab\ncd\n");
    press(&mut state, "o");
    assert_eq!(text_of(&state), "ab\n\ncd\n");
    assert_eq!(ends(&state), (at(2, 1), at(2, 1)));
    assert!(matches!(state.mode(), Mode::Insert));
}

#[test]
fn goto_keys_move_and_end_goto_mode() {
    let mut state = editor_with("ab\ncd\nef\n");
    press(&mut state, "gj");
    assert_eq!(ends(&state), (at(3, 1), at(3, 1)));
    assert!(matches!(state.mode(), Mode::Normal));
    press(&mut state, "Gk");
    assert_eq!(ends(&state), (at(3, 1), at(1, 1)));
    press(&mut state, "gl");
    assert_eq!(ends(&state), (at(1, 3), at(1, 3)));
    press(&mut state, "gx");
    assert!(matches!(state.mode(), Mode::Normal));
    assert_eq!(ends(&state), (at(1, 3), at(1, 3)));
}

#[test]
fn a_failure_becomes_the_message_and_ends_the_key() {
    let mut state = editor_with("ab\n");
    press(&mut state, "h");
    let message = state.pending_message.take().map(|(_, text)| text);
    assert_eq!(message, Some(String::from("no previous line")));
    let actions = vec![
        Action::Window(WindowAction::Move(Movement::Right(1))),
        Action::Window(WindowAction::Move(Movement::Down(1))),
        Action::Window(WindowAction::SwitchToMode(Mode::Insert)),
    ];
    assert_eq!(do_actions(&mut state, &actions), Effect::Nothing);
    assert_eq!(ends(&state), (at(1, 2), at(1, 2)));
    assert!(matches!(state.mode(), Mode::Normal));
    let message = state.pending_message.take().map(|(_, text)| text);
    assert_eq!(message, Some(String::from("no next line")));
    press(&mut state, "U");
    let message = state.pending_message.take().map(|(_, text)| text);
    assert_eq!(message, Some(String::from("redo is not available")));
}

#[test]
fn commands_are_typed_and_submitted() {
    let mut state = EditorData::new();
    press(&mut state, ":q");
    assert!(matches!(state.mode(), Mode::Command));
    assert_eq!(state.command_line(), "q");
    assert_eq!(handle_key(&mut state, &Key::Char('\n')), Effect::Nothing);
    assert!(state.want_quit);
    assert!(matches!(state.mode(), Mode::Normal));
    let mut state = EditorData::new();
    press(&mut state, ":e f.txt");
    assert_eq!(
        handle_key(&mut state, &Key::Ctrl(b'm')),
        Effect::Open { name: String::from("f.txt") }
    );
    press(&mut state, ":w");
    assert_eq!(handle_key(&mut state, &Key::Char('\n')), Effect::Nothing);
    let message = state.pending_message.take().map(|(_, text)| text);
    assert_eq!(message, Some(String::from("cannot save a scratch buffer")));
    press(&mut state, ":abc");
    assert_eq!(handle_key(&mut state, &Key::Escape), Effect::Nothing);
    assert_eq!(state.command_line(), "");
    assert!(matches!(state.mode(), Mode::Normal));
    let actions = vec![Action::Command(CommandAction::Tab)];
    press(&mut state, ":");
    assert_eq!(do_actions(&mut state, &actions), Effect::Nothing);
    assert_eq!(do_actions(&mut state, &vec![]), Effect::Nothing);
}

#[test]
fn rectangles_measure_their_sides() {
    let rect = Rect { start: Point { x: 1, y: 2 }, end: Point { x: 80, y: 23 } };
    assert_eq!(rect.width(), 79);
    assert_eq!(rect.height(), 21);
    assert_eq!(rect.range_x(), 1..=80);
    assert_eq!(rect.range_y(), 2..=23);
    let cell = Rect { start: Point { x: 5, y: 5 }, end: Point { x: 5, y: 5 } };
    assert_eq!(cell.width(), 0);
    assert_eq!(cell.height(), 0);
    assert_eq!(cell.range_y().count(), 1);
}

#[derive(Clone, Copy)]
struct Slot(usize);

impl Id for Slot {
    fn index(self) -> usize {
        self.0
    }

    fn id(self) -> usize {
        self.0
    }
}

#[test]
fn id_vec_finds_items_by_identity() {
    let mut items: IdVec<Slot, u8> = IdVec::from(vec![10, 20, 30]);
    assert_eq!(*items.index(Slot(1)), 20);
    *items.index_mut(Slot(2)) = 31;
    assert_eq!(items.deref(), &vec![10, 20, 31]);
    items.deref_mut().push(40);
    assert_eq!(*items.index(Slot(3)), 40);
    assert_eq!(items.deref().len(), 4);
}
