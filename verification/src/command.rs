//! The command line of a window and the commands that it runs.
//!
//! A submitted line is split into words as a shell splits them. The first
//! word names the command. Reading a file and writing one is left to the
//! caller: the command says what is to be done.

use crate::action::{
    outcome_of, Action, CommandAction, EditorError, Effect, EffectModel, ErrorModel,
};
use crate::arena::{buffer_ref, window_mut, window_ref};
use crate::state::{quit, EditorData, EditorView, Mode, WindowView};
use vstd::prelude::*;

verus! {

/// The words that a command line is split into by the rules of a shell, or
/// none where the line cannot be split.
pub uninterp spec fn shell_words(line: Seq<char>) -> Option<Seq<Seq<char>>>;

/// The words of a split command line as sequences of characters.
pub open spec fn words_of(words: Option<Vec<String>>) -> Option<Seq<Seq<char>>> {
    match words {
        Some(words) => Some(words@.map_values(|word: String| word@)),
        None => None,
    }
}

/// `shlex::split`: the words of a line, split as a shell splits them, or none
/// where the line is erroneous.
#[verifier::external_body]
pub(crate) fn split_words(line: &str) -> (words: Option<Vec<String>>)
    ensures
        words_of(words) == shell_words(line@),
{
    shlex::split(line)
}

fn is_word(word: &String, literal: &str) -> (same: bool)
    ensures
        same == (word@ == literal@),
{
    let other = literal.to_owned();
    *word == other
}

/// The words of a command as sequences of characters.
pub open spec fn words_in(args: Seq<String>) -> Seq<Seq<char>> {
    args.map_values(|word: String| word@)
}

/// A command of the command line.
#[derive(Debug, Copy, Clone, PartialEq, Eq, Structural)]
pub enum Command {
    /// Asks for the editor to end.
    Quit,
    /// Loads a file into a new buffer with a window of its own.
    Open,
    /// Writes the buffer of the focused window to its file.
    Write,
}

/// What the command line knows of a command.
pub struct CommandDesc {
    pub name: &'static str,
    pub aliases: &'static [&'static str],
    pub description: &'static str,
    pub required_arguments: usize,
}

impl Command {
    /// The name of the command.
    pub open spec fn name(self) -> Seq<char> {
        match self {
            Command::Quit => "quit"@,
            Command::Open => "open"@,
            Command::Write => "write"@,
        }
    }

    /// The short name of the command.
    pub open spec fn alias(self) -> Seq<char> {
        match self {
            Command::Quit => "q"@,
            Command::Open => "e"@,
            Command::Write => "w"@,
        }
    }

    /// What the command does, in a few words.
    pub open spec fn summary(self) -> Seq<char> {
        match self {
            Command::Quit => "quit the editor"@,
            Command::Open => "open a file"@,
            Command::Write => "write the current buffer contents to disk"@,
        }
    }

    /// The number of arguments that the command cannot do without.
    pub open spec fn required(self) -> nat {
        match self {
            Command::Quit => 0,
            Command::Open => 1,
            Command::Write => 0,
        }
    }

    /// Whether `word` is the name or the short name of the command.
    pub open spec fn answers_to(self, word: Seq<char>) -> bool {
        word == self.name() || word == self.alias()
    }

    /// The command that `word` names, if it names one.
    pub open spec fn named(word: Seq<char>) -> Option<Command> {
        if Command::Quit.answers_to(word) {
            Some(Command::Quit)
        } else if Command::Open.answers_to(word) {
            Some(Command::Open)
        } else if Command::Write.answers_to(word) {
            Some(Command::Write)
        } else {
            None
        }
    }

    /// What the command line knows of the command.
    pub fn desc(self) -> (desc: CommandDesc)
        ensures
            desc.name@ == self.name(),
            desc.aliases@.len() == 1,
            desc.aliases@[0]@ == self.alias(),
            desc.description@ == self.summary(),
            desc.required_arguments == self.required(),
    {
        match self {
            Command::Quit => CommandDesc {
                name: "quit",
                aliases: &["q"],
                description: "quit the editor",
                required_arguments: 0,
            },
            Command::Open => CommandDesc {
                name: "open",
                aliases: &["e"],
                description: "open a file",
                required_arguments: 1,
            },
            Command::Write => CommandDesc {
                name: "write",
                aliases: &["w"],
                description: "write the current buffer contents to disk",
                required_arguments: 0,
            },
        }
    }

    fn is_called(self, word: &String) -> (yes: bool)
        ensures
            yes == self.answers_to(word@),
    {
        let desc = self.desc();
        is_word(word, desc.name) || is_word(word, desc.aliases[0])
    }

    /// The command that `word` names, if it names one.
    pub fn find(word: &String) -> (found: Option<Command>)
        ensures
            found == Command::named(word@),
    {
        if Command::Quit.is_called(word) {
            Some(Command::Quit)
        } else if Command::Open.is_called(word) {
            Some(Command::Open)
        } else if Command::Write.is_called(word) {
            Some(Command::Write)
        } else {
            None
        }
    }
}

impl EditorView {
    /// The state after the command of the words `args` was run on it, and
    /// what the command asks of the caller, or why it was not run: no word
    /// was given, the first word names no command, or the command has too
    /// few arguments.
    pub open spec fn commanded(self, args: Seq<Seq<char>>) -> (
        EditorView,
        Result<EffectModel, ErrorModel>,
    ) {
        if args.len() == 0 {
            (self, Err(ErrorModel::NoCommand))
        } else {
            match Command::named(args[0]) {
                None => (self, Err(ErrorModel::UnknownCommand(args[0]))),
                Some(command) => if args.len() - 1 < command.required() {
                    (self, Err(ErrorModel::MissingArgument(args[0])))
                } else {
                    self.run(command, args)
                },
            }
        }
    }

    /// The state after `command` was run with the words `args`, the first of
    /// which is its name. `quit` asks for the editor to end. `open` asks the
    /// caller to read the file that its argument names. `write` asks the
    /// caller to write the buffer of the focused window, which fails for a
    /// buffer without a file.
    pub open spec fn run(self, command: Command, args: Seq<Seq<char>>) -> (
        EditorView,
        Result<EffectModel, ErrorModel>,
    ) {
        match command {
            Command::Quit => (EditorView { want_quit: true, ..self }, Ok(EffectModel::Nothing)),
            Command::Open => (self, Ok(EffectModel::Open { name: args[1] })),
            Command::Write => if self.focused_buffer().path is None {
                (self, Err(ErrorModel::ScratchBuffer))
            } else {
                (self, Ok(EffectModel::Write { buffer: self.focused_window().buffer }))
            },
        }
    }

    /// The state after the command line `line` was submitted with the words
    /// `words` it was split into.
    pub open spec fn submitted(self, line: Seq<char>, words: Option<Seq<Seq<char>>>) -> (
        EditorView,
        Result<EffectModel, ErrorModel>,
    ) {
        match words {
            Some(args) => self.commanded(args),
            None => (self, Err(ErrorModel::Unparsable(line))),
        }
    }
}

/// Runs the command that the words `args` name: the first is its name, the
/// others are its arguments. `quit` asks for the editor to end; `open` and
/// `write` leave the reading and the writing to the caller.
pub fn run_command(state: &mut EditorData, args: &Vec<String>) -> (result: Result<
    Effect,
    EditorError,
>)
    requires
        old(state).wf(),
    ensures
        final(state)@ == old(state)@.commanded(words_in(args@)).0,
        outcome_of(result) == old(state)@.commanded(words_in(args@)).1,
        final(state).wf(),
{
    if args.len() == 0 {
        return Err(EditorError::NoCommand);
    }
    let name = &args[0];
    assert(words_in(args@)[0] == name@);
    let command = match Command::find(name) {
        Some(command) => command,
        None => {
            return Err(EditorError::UnknownCommand(name.clone()));
        },
    };
    if args.len() - 1 < command.desc().required_arguments {
        return Err(EditorError::MissingArgument(name.clone()));
    }
    match command {
        Command::Quit => {
            quit(state);
            Ok(Effect::Nothing)
        },
        Command::Open => {
            assert(words_in(args@)[1] == args@[1]@);
            Ok(Effect::Open { name: args[1].clone() })
        },
        Command::Write => {
            let id = state.focused();
            let buffer_id = window_ref(&state.windows, id).buffer;
            let has_path = buffer_ref(&state.buffers, buffer_id).path.is_some();
            if has_path {
                Ok(Effect::Write { buffer: buffer_id })
            } else {
                Err(EditorError::ScratchBuffer)
            }
        },
    }
}

/// Runs the command line `line` that was split into `words`: a line that
/// could not be split is an error, the words of one that could are run as a
/// command.
pub fn submit(state: &mut EditorData, line: String, words: Option<Vec<String>>) -> (result:
    Result<Effect, EditorError>)
    requires
        old(state).wf(),
    ensures
        final(state)@ == old(state)@.submitted(line@, words_of(words)).0,
        outcome_of(result) == old(state)@.submitted(line@, words_of(words)).1,
        final(state).wf(),
{
    match words {
        Some(args) => run_command(state, &args),
        None => Err(EditorError::Unparsable(line)),
    }
}

/// Changes the command line of the focused window, which is in command mode:
/// a character is appended, the line is cleared, or its last character is
/// taken off; taking one off the empty line ends command mode.
pub(crate) fn edit_command(state: &mut EditorData, action: CommandAction)
    requires
        old(state).wf(),
        action is Character || action is Clear || action is Backspace,
    ensures
        final(state)@ == old(state)@.acted(Action::Command(action)).0,
        final(state).wf(),
{
    let ghost before = state@;
    let id = state.focused();
    let window = window_mut(&mut state.windows, id);
    match action {
        CommandAction::Character(c) => {
            window.command.push(c);
        },
        CommandAction::Clear => {
            window.command.clear();
        },
        _ => {
            if window.command.pop().is_none() {
                window.mode = Mode::Normal;
            }
        },
    }
    proof {
        assert(state@.windows =~= before.acted(Action::Command(action)).0.windows);
        assert(state@.buffers =~= before.buffers);
    }
}

/// Takes the command line of the focused window, which goes back to normal
/// mode with an empty line.
pub(crate) fn take_command(state: &mut EditorData) -> (line: String)
    requires
        old(state).wf(),
    ensures
        line@ == old(state)@.focused_window().command,
        final(state)@ == old(state)@.with_window(
            old(state)@.focused(),
            WindowView {
                command: Seq::empty(),
                mode: Mode::Normal,
                ..old(state)@.focused_window()
            },
        ),
        final(state).wf(),
{
    let ghost before = state@;
    let id = state.focused();
    let window = window_mut(&mut state.windows, id);
    let mut line = String::new();
    core::mem::swap(&mut window.command, &mut line);
    window.mode = Mode::Normal;
    proof {
        assert(state@.windows =~= before.with_window(
            id,
            WindowView {
                command: Seq::empty(),
                mode: Mode::Normal,
                ..before.focused_window()
            },
        ).windows);
        assert(state@.buffers =~= before.buffers);
    }
    line
}

} // verus!
