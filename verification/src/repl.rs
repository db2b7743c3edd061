//! The read-eval loop as a state machine. The loop itself, which waits for
//! the terminal and for the store, is run by the caller; what it does with
//! each thing that happens is decided here.

use vstd::prelude::*;
use crate::grammar::{is_help_flag, is_version_flag, parse_of, rejection, verb_of, ParseErrorKind};
use crate::tokenizer::{shell_words_of, tokenize};

verus! {

/// Why no line was read.
#[derive(Debug, Clone, PartialEq, Eq)]
pub enum EditError {
    /// The user cancelled the input.
    Interrupted,
    /// The input has ended.
    EndOfInput,
    /// Anything else, with its description.
    Other(String),
}

/// What reading a line gave, as a mathematical value.
pub enum InputModel {
    Line(Seq<char>),
    Interrupted,
    EndOfInput,
    Other(Seq<char>),
}

/// The view of what reading a line gave.
pub open spec fn input_model(input: Result<String, EditError>) -> InputModel {
    match input {
        Ok(line) => InputModel::Line(line@),
        Err(EditError::Interrupted) => InputModel::Interrupted,
        Err(EditError::EndOfInput) => InputModel::EndOfInput,
        Err(EditError::Other(text)) => InputModel::Other(text@),
    }
}

/// Where the loop stands.
#[derive(Debug, Clone, Copy, PartialEq, Eq, Structural)]
pub enum ReplState {
    /// The next thing to happen is a line of input.
    Prompting,
    /// A command line was handed out; its outcome is awaited.
    Dispatching,
    /// The loop was left in good order; the history is to be saved.
    Terminated,
    /// A command failed and the failure was passed on; nothing is saved.
    Failed,
}

/// What the caller does next.
#[derive(Debug, Clone, PartialEq, Eq)]
pub enum Turn {
    /// Show the prompt and read the next line.
    Again,
    /// Log the message, then show the prompt and read the next line.
    Complain { message: String },
    /// Parse the command line and run the command, then report the outcome.
    Dispatch { argv: Vec<String> },
    /// Save the history and leave the loop.
    Leave,
    /// Leave the loop with the command's error.
    Abort,
}

/// A turn as a mathematical value.
pub enum TurnModel {
    Again,
    Complain { message: Seq<char> },
    Dispatch { argv: Seq<Seq<char>> },
    Leave,
    Abort,
}

impl View for Turn {
    type V = TurnModel;

    open spec fn view(&self) -> TurnModel {
        match *self {
            Turn::Again => TurnModel::Again,
            Turn::Complain { message } => TurnModel::Complain { message: message@ },
            Turn::Dispatch { argv } => TurnModel::Dispatch { argv: argv.deep_view() },
            Turn::Leave => TurnModel::Leave,
            Turn::Abort => TurnModel::Abort,
        }
    }
}

/// How a dispatched command line ended.
#[derive(Debug, Clone, Copy, PartialEq, Eq, Structural)]
pub enum Outcome {
    /// The command ran, or the usage text or the version was shown.
    Done,
    /// The grammar rejected the line; the message was shown.
    Rejected,
    /// The command processor reported an error.
    Failed,
}

/// The one who runs the commands: the loop is written against this and
/// knows no particular processor.
pub trait ReplCommandProcessor {
    /// A parsed command.
    type Command;

    /// What running a command gives.
    type Effect;

    /// The words that end the session.
    spec fn quits_on(&self, token: Seq<char>) -> bool;

    /// The prompt for the processor's present state.
    spec fn prompt_text(&self) -> Seq<char>;

    /// Tells whether the word, given in lower case, ends the session.
    fn is_quit(&self, command: &str) -> (quit: bool)
        ensures
            quit == self.quits_on(command@),
    ;

    /// The prompt to show before the next line is read.
    fn get_prompt(&self) -> (prompt: String)
        ensures
            prompt@ == self.prompt_text(),
    ;

    /// Runs one parsed command.
    fn process_command(&mut self, command: Self::Command) -> (effect: Self::Effect);
}

/// What `str::to_lowercase` makes of a text.
pub uninterp spec fn lowercase_of(text: Seq<char>) -> Seq<char>;

/// Calls `str::to_lowercase`, whose result depends on the text alone.
#[verifier::external_body]
fn lowercase(text: &str) -> (lower: String)
    ensures
        lower@ == lowercase_of(text@),
{
    text.to_lowercase()
}

/// The first word in lower case, or the empty text where there is no word.
pub open spec fn head_of(words: Seq<Seq<char>>) -> Seq<char> {
    if words.len() == 0 {
        Seq::empty()
    } else {
        lowercase_of(words[0])
    }
}

/// The words after the first.
pub open spec fn rest_of(words: Seq<Seq<char>>) -> Seq<Seq<char>> {
    if words.len() == 0 {
        words
    } else {
        words.skip(1)
    }
}

/// The command line made of a line's words and of their head, which is the
/// first word in lower case: the head, once in the program's place and once
/// as the command, then the other words as they are.
pub open spec fn argv_of(words: Seq<Seq<char>>, head: Seq<char>) -> Seq<Seq<char>> {
    seq![head, head] + rest_of(words)
}

/// What the loop does with the words of a line and their head: nothing
/// where the head is empty, it ends where the head is a quit word, else the
/// words are handed out as a command line.
pub open spec fn turn_for<P: ReplCommandProcessor>(
    processor: &P,
    words: Seq<Seq<char>>,
    head: Seq<char>,
) -> TurnModel {
    if head.len() == 0 {
        TurnModel::Again
    } else if processor.quits_on(head) {
        TurnModel::Leave
    } else {
        TurnModel::Dispatch { argv: argv_of(words, head) }
    }
}

/// The message logged for a line that cannot be split into words.
pub open spec fn unsplit_message() -> Seq<char> {
    "missing closing quote"@
}

/// What the loop does on an input while it is prompting.
pub open spec fn turn_of<P: ReplCommandProcessor>(processor: &P, input: InputModel) -> TurnModel {
    match input {
        InputModel::Interrupted => TurnModel::Leave,
        InputModel::EndOfInput => TurnModel::Leave,
        InputModel::Other(text) => TurnModel::Complain { message: text },
        InputModel::Line(line) => match shell_words_of(line) {
            None => TurnModel::Complain { message: unsplit_message() },
            Some(words) => turn_for(processor, words, head_of(words)),
        },
    }
}

/// The state after a turn that was decided while prompting.
pub open spec fn state_after(turn: TurnModel) -> ReplState {
    match turn {
        TurnModel::Again => ReplState::Prompting,
        TurnModel::Complain { .. } => ReplState::Prompting,
        TurnModel::Dispatch { .. } => ReplState::Dispatching,
        TurnModel::Leave => ReplState::Terminated,
        TurnModel::Abort => ReplState::Failed,
    }
}

/// The history after an input: the line is recorded if and only if it is
/// handed out as a command line.
pub open spec fn history_after(
    history: Seq<Seq<char>>,
    input: InputModel,
    turn: TurnModel,
) -> Seq<Seq<char>> {
    match (input, turn) {
        (InputModel::Line(line), TurnModel::Dispatch { .. }) => history.push(line),
        _ => history,
    }
}

/// The turn that leaves a loop which has ended.
pub open spec fn ended_turn(state: ReplState) -> TurnModel {
    if state == ReplState::Failed {
        TurnModel::Abort
    } else {
        TurnModel::Leave
    }
}

/// The loop's own state: where it stands, and the lines recorded so far,
/// oldest first.
#[derive(Debug, Clone, PartialEq, Eq)]
pub struct Repl {
    pub state: ReplState,
    pub history: Vec<String>,
}

fn command_line(words: &Vec<String>, head: String) -> (argv: Vec<String>)
    ensures
        argv.deep_view() == argv_of(words.deep_view(), head@),
{
    let mut argv: Vec<String> = Vec::new();
    argv.push(head.clone());
    argv.push(head);
    let mut i: usize = 1;
    while i < words.len()
        invariant
            1 <= i,
            i <= words.len() || words.len() == 0,
            argv.len() == (if words.len() == 0 {
                2
            } else {
                i + 1
            }),
            argv@[0]@ == head@,
            argv@[1]@ == head@,
            forall|j: int| 1 <= j < i && j < words.len() ==> (#[trigger] argv@[j + 1])@ == words@[j]@,
        decreases words.len() - i,
    {
        argv.push(words[i].clone());
        i += 1;
    }
    proof {
        let made = argv.deep_view();
        let wanted = argv_of(words.deep_view(), head@);
        assert(made.len() == wanted.len());
        assert forall|k: int| 0 <= k < made.len() implies made[k] == wanted[k] by {
            if k >= 2 {
                assert(argv@[(k - 1) + 1]@ == words@[k - 1]@);
                assert(wanted[k] == words.deep_view().skip(1)[k - 2]);
            }
        }
        assert(made =~= wanted);
    }
    argv
}

impl Repl {
    /// A loop that is about to prompt, with the history of earlier sessions.
    pub fn new(history: Vec<String>) -> (repl: Repl)
        ensures
            repl.state == ReplState::Prompting,
            repl.history == history,
    {
        Repl { state: ReplState::Prompting, history }
    }

    /// Decides what follows an input. While the loop is prompting, the
    /// input is split into words and the first word, in lower case, decides:
    /// no word, nothing happens; a quit word, the loop is left; any other,
    /// the line is recorded and handed out as a command line. A loop that
    /// has ended stays ended, and one that awaits a command's outcome is
    /// not moved by an input.
    pub fn process_command<P: ReplCommandProcessor>(
        &mut self,
        processor: &P,
        input: Result<String, EditError>,
    ) -> (turn: Turn)
        ensures
            old(self).state == ReplState::Prompting ==> {
                &&& turn@ == turn_of(processor, input_model(input))
                &&& final(self).state == state_after(turn@)
                &&& final(self).history.deep_view() == history_after(
                    old(self).history.deep_view(),
                    input_model(input),
                    turn@,
                )
            },
            old(self).state == ReplState::Dispatching ==> turn@ == TurnModel::Again && *final(self)
                == *old(self),
            old(self).state == ReplState::Terminated || old(self).state == ReplState::Failed ==> {
                turn@ == ended_turn(old(self).state) && *final(self) == *old(self)
            },
    {
        match self.state {
            ReplState::Prompting => {},
            ReplState::Dispatching => {
                return Turn::Again;
            },
            ReplState::Terminated => {
                return Turn::Leave;
            },
            ReplState::Failed => {
                return Turn::Abort;
            },
        }
        let line: String = match input {
            Ok(line) => line,
            Err(EditError::Interrupted) => {
                self.state = ReplState::Terminated;
                return Turn::Leave;
            },
            Err(EditError::EndOfInput) => {
                self.state = ReplState::Terminated;
                return Turn::Leave;
            },
            Err(EditError::Other(message)) => {
                return Turn::Complain { message };
            },
        };
        let words: Vec<String> = match tokenize(line.as_str()) {
            Ok(words) => words,
            Err(why) => {
                return Turn::Complain { message: why.message() };
            },
        };
        let head: String = if words.len() == 0 {
            String::new()
        } else {
            lowercase(words[0].as_str())
        };
        assert(head@ == head_of(words.deep_view()));
        self.take_words(processor, line, words, head)
    }

    /// Decides what follows a line that was split into `words`, of which
    /// `head` is the first in lower case (empty where there is no word).
    /// An empty head leads back to the prompt; a quit word ends the loop
    /// without a command line and without a record; any other head has the
    /// line recorded and the words handed out as a command line, the head
    /// standing for the program and for the command. Outside the prompting
    /// state nothing changes.
    pub fn take_words<P: ReplCommandProcessor>(
        &mut self,
        processor: &P,
        line: String,
        words: Vec<String>,
        head: String,
    ) -> (turn: Turn)
        ensures
            old(self).state == ReplState::Prompting ==> {
                &&& turn@ == turn_for(processor, words.deep_view(), head@)
                &&& final(self).state == state_after(turn@)
                &&& final(self).history.deep_view() == history_after(
                    old(self).history.deep_view(),
                    InputModel::Line(line@),
                    turn@,
                )
            },
            old(self).state == ReplState::Dispatching ==> turn@ == TurnModel::Again && *final(self)
                == *old(self),
            old(self).state == ReplState::Terminated || old(self).state == ReplState::Failed ==> {
                turn@ == ended_turn(old(self).state) && *final(self) == *old(self)
            },
    {
        match self.state {
            ReplState::Prompting => {},
            ReplState::Dispatching => {
                return Turn::Again;
            },
            ReplState::Terminated => {
                return Turn::Leave;
            },
            ReplState::Failed => {
                return Turn::Abort;
            },
        }
        if head.as_str().is_empty() {
            return Turn::Again;
        }
        if processor.is_quit(head.as_str()) {
            self.state = ReplState::Terminated;
            return Turn::Leave;
        }
        let argv = command_line(&words, head);
        let ghost before = self.history.deep_view();
        self.history.push(line);
        proof {
            assert(self.history.deep_view() =~= before.push(line@));
        }
        self.state = ReplState::Dispatching;
        Turn::Dispatch { argv }
    }

    /// Decides what follows the outcome of a dispatched command line: a
    /// command that failed ends the loop with its error, any other outcome
    /// leads back to the prompt. Outside a dispatch nothing changes.
    pub fn finish_command(&mut self, outcome: Outcome) -> (turn: Turn)
        ensures
            final(self).history == old(self).history,
            old(self).state == ReplState::Dispatching ==> {
                &&& outcome == Outcome::Failed ==> turn@ == TurnModel::Abort && final(self).state
                    == ReplState::Failed
                &&& outcome != Outcome::Failed ==> turn@ == TurnModel::Again && final(self).state
                    == ReplState::Prompting
            },
            old(self).state == ReplState::Prompting ==> {
                turn@ == TurnModel::Again && final(self).state == ReplState::Prompting
            },
            old(self).state == ReplState::Terminated || old(self).state == ReplState::Failed ==> {
                turn@ == ended_turn(old(self).state) && final(self).state == old(self).state
            },
    {
        match self.state {
            ReplState::Prompting => Turn::Again,
            ReplState::Dispatching => match outcome {
                Outcome::Failed => {
                    self.state = ReplState::Failed;
                    Turn::Abort
                },
                _ => {
                    self.state = ReplState::Prompting;
                    Turn::Again
                },
            },
            ReplState::Terminated => Turn::Leave,
            ReplState::Failed => Turn::Abort,
        }
    }

    /// Tells whether the loop has ended.
    pub fn is_finished(&self) -> (finished: bool)
        ensures
            finished == (self.state == ReplState::Terminated || self.state == ReplState::Failed),
    {
        matches!(self.state, ReplState::Terminated | ReplState::Failed)
    }
}

/// A quit word ends the session: the loop is left, no command line is
/// handed out, and the history is as it was.
pub proof fn lemma_quit_word_leaves<P: ReplCommandProcessor>(
    processor: &P,
    history: Seq<Seq<char>>,
    line: Seq<char>,
)
    requires
        shell_words_of(line) is Some,
        head_of(shell_words_of(line).unwrap()).len() > 0,
        processor.quits_on(head_of(shell_words_of(line).unwrap())),
    ensures
        turn_of(processor, InputModel::Line(line)) == TurnModel::Leave,
        state_after(turn_of(processor, InputModel::Line(line))) == ReplState::Terminated,
        history_after(history, InputModel::Line(line), turn_of(processor, InputModel::Line(line)))
            == history,
{
}

/// A single word that is no quit word and names nothing the grammar knows
/// is handed out, rejected by the grammar as an unknown command, and the
/// rejection leads back to the prompt.
pub proof fn lemma_unknown_word_is_rejected<P: ReplCommandProcessor>(
    processor: &P,
    line: Seq<char>,
    word: Seq<char>,
)
    requires
        shell_words_of(line) == Some(seq![word]),
        lowercase_of(word).len() > 0,
        !processor.quits_on(lowercase_of(word)),
        verb_of(lowercase_of(word)) is None,
        lowercase_of(word) != "help"@,
        !is_help_flag(lowercase_of(word)),
        !is_version_flag(lowercase_of(word)),
    ensures
        turn_of(processor, InputModel::Line(line)) == (TurnModel::Dispatch {
            argv: seq![lowercase_of(word), lowercase_of(word)],
        }),
        parse_of(seq![lowercase_of(word), lowercase_of(word)]) == Err::<
            crate::grammar::Request,
            crate::grammar::Rejection,
        >(rejection(ParseErrorKind::UnknownCommand, lowercase_of(word))),
{
    let words = seq![word];
    assert(head_of(words) == lowercase_of(word));
    assert(argv_of(words, head_of(words)) =~= seq![lowercase_of(word), lowercase_of(word)]);
}

} // verus!
