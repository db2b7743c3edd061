//! The command grammar: which words make which command.
//!
//! A command line is a list of words. The first word stands for the program
//! and is ignored; the second names the command; the rest are its arguments.
//! An argument is a flag, the value of the flag before it, or a positional
//! argument. A flag is given by its long name (`--limit`) or, after a
//! single hyphen, by its letter (`-l`); several letters may stand in one
//! word (`-wa`). A flag that takes a value takes it from its own word, after
//! `=` (`--limit=5`, `-l=5`) or right after the letter (`-l5`), else it takes
//! the next word, whatever it is. After the word `--` every word is a
//! positional argument. `help`, `--help` and `-h` ask for the usage text,
//! `--version` and `-V` in the command's place for the version.

use vstd::prelude::*;
use vstd::string::{StrSliceExecFns, StringExecFns};
use crate::command::{CommandModel, DBCommand};
use crate::number::{limit_of, parse_limit};
use crate::text::same_text;

verus! {

/// The commands by name.
#[derive(Debug, Clone, Copy, PartialEq, Eq, Structural)]
pub enum Verb {
    List,
    Info,
    Use,
    Get,
    Keys,
    ContainsKey,
    SearchValue,
    SearchKey,
    Put,
    Delete,
    Scan,
    Prefix,
    Exit,
}

/// The flags of all commands.
#[derive(Debug, Clone, Copy, PartialEq, Eq, Structural)]
pub enum Flag {
    Json,
    Limit,
    Key,
    Value,
    WithHighlight,
    All,
    Output,
    Start,
    End,
    Reverse,
    Prefix,
}

/// Why a command line is no command.
#[derive(Debug, Clone, Copy, PartialEq, Eq, Structural)]
pub enum ParseErrorKind {
    /// The word in the command's place names no command.
    UnknownCommand,
    /// The word looks like a flag and is none of the command's.
    UnknownFlag,
    /// The flag was given before.
    DuplicateFlag,
    /// The flag takes a value and is the last word.
    MissingValue,
    /// The flag takes no value and was given one.
    UnexpectedValue,
    /// The command takes no further positional argument.
    UnexpectedArgument,
    /// A required argument is absent; the word is its name.
    MissingArgument,
    /// The value of `--limit` is no number, or too large.
    InvalidNumber,
}

/// A rejected command line: the reason, and the word it is about.
#[derive(Debug, Clone, PartialEq, Eq)]
pub struct ParseError {
    pub kind: ParseErrorKind,
    pub word: String,
}

/// A rejection as a mathematical value.
pub struct Rejection {
    pub kind: ParseErrorKind,
    pub word: Seq<char>,
}

impl View for ParseError {
    type V = Rejection;

    open spec fn view(&self) -> Rejection {
        Rejection { kind: self.kind, word: self.word@ }
    }
}

/// What an accepted command line asks for.
#[derive(Debug, Clone, PartialEq, Eq)]
pub enum Parsed {
    /// Run the command.
    Command(DBCommand),
    /// Show the usage text.
    Help,
    /// Show the version.
    Version,
}

/// A request as a mathematical value.
pub enum Request {
    Command(CommandModel),
    Help,
    Version,
}

impl View for Parsed {
    type V = Request;

    open spec fn view(&self) -> Request {
        match *self {
            Parsed::Command(command) => Request::Command(command@),
            Parsed::Help => Request::Help,
            Parsed::Version => Request::Version,
        }
    }
}

/// The number of flags.
pub open spec fn flag_count() -> nat {
    11
}

/// Where the value of a flag stands: in which word, and from which
/// character of it on. For a flag without value it is the flag's own word.
pub type Slot = Option<(usize, usize)>;

/// The arguments found so far, each by its place in the command line: the
/// positional arguments in order, and for each flag where its value stands.
struct Found {
    positionals: Vec<usize>,
    slots: Vec<Slot>,
    literal: bool,
}

/// The arguments found so far, as a mathematical value.
pub struct FoundModel {
    pub positionals: Seq<usize>,
    pub slots: Seq<Slot>,
    pub literal: bool,
}

impl View for Found {
    type V = FoundModel;

    closed spec fn view(&self) -> FoundModel {
        FoundModel { positionals: self.positionals@, slots: self.slots@, literal: self.literal }
    }
}

/// Every place recorded for a flag lies within the command line.
pub open spec fn slots_within(slots: Seq<Slot>, argv: Seq<Seq<char>>) -> bool {
    &&& slots.len() == flag_count()
    &&& forall|i: int|
        0 <= i < slots.len() ==> match #[trigger] slots[i] {
            Some(place) => place.0 < argv.len() && place.1 <= argv[place.0 as int].len(),
            None => true,
        }
}

impl FoundModel {
    /// Nothing found yet.
    pub open spec fn empty() -> FoundModel {
        FoundModel {
            positionals: Seq::empty(),
            slots: Seq::new(flag_count(), |i: int| None::<(usize, usize)>),
            literal: false,
        }
    }

    /// Every place recorded lies within the command line.
    pub open spec fn within(self, argv: Seq<Seq<char>>) -> bool {
        &&& slots_within(self.slots, argv)
        &&& forall|i: int|
            0 <= i < self.positionals.len() ==> #[trigger] self.positionals[i] < argv.len()
    }

    /// The place recorded for a flag.
    pub open spec fn slot(self, flag: Flag) -> Slot {
        self.slots[flag_slot(flag)]
    }

    pub open spec fn with_slots(self, slots: Seq<Slot>) -> FoundModel {
        FoundModel { slots, ..self }
    }

    pub open spec fn with_positional(self, at: usize) -> FoundModel {
        FoundModel { positionals: self.positionals.push(at), ..self }
    }

    pub open spec fn with_literal(self) -> FoundModel {
        FoundModel { literal: true, ..self }
    }
}

/// The slots with the place of one more flag.
pub open spec fn placed(slots: Seq<Slot>, flag: Flag, word: int, from: int) -> Seq<Slot> {
    slots.update(flag_slot(flag), Some((word as usize, from as usize)))
}

/// What reading one word of flags gives.
pub enum Move {
    /// The flags are recorded; `next` tells whether the next word was taken
    /// as a value.
    Go { next: bool, slots: Seq<Slot> },
    /// The word asks for the usage text.
    Help,
    /// The word cannot stand where it stands.
    Fail(Rejection),
}

/// How far reading the arguments got.
pub enum Pass {
    /// All words were read.
    Done(FoundModel),
    /// A word asks for the usage text.
    Help,
    /// A word cannot stand where it stands.
    Fail(Rejection),
}

/// The place of a flag among the slots.
pub open spec fn flag_slot(flag: Flag) -> int {
    match flag {
        Flag::Json => 0,
        Flag::Limit => 1,
        Flag::Key => 2,
        Flag::Value => 3,
        Flag::WithHighlight => 4,
        Flag::All => 5,
        Flag::Output => 6,
        Flag::Start => 7,
        Flag::End => 8,
        Flag::Reverse => 9,
        Flag::Prefix => 10,
    }
}

/// The command that a word names.
pub open spec fn verb_of(word: Seq<char>) -> Option<Verb> {
    if word == "list"@ {
        Some(Verb::List)
    } else if word == "info"@ {
        Some(Verb::Info)
    } else if word == "use"@ {
        Some(Verb::Use)
    } else if word == "get"@ {
        Some(Verb::Get)
    } else if word == "keys"@ {
        Some(Verb::Keys)
    } else if word == "contains-key"@ {
        Some(Verb::ContainsKey)
    } else if word == "search-value"@ {
        Some(Verb::SearchValue)
    } else if word == "search-key"@ {
        Some(Verb::SearchKey)
    } else if word == "put"@ {
        Some(Verb::Put)
    } else if word == "delete"@ {
        Some(Verb::Delete)
    } else if word == "scan"@ {
        Some(Verb::Scan)
    } else if word == "prefix"@ {
        Some(Verb::Prefix)
    } else if word == "exit"@ {
        Some(Verb::Exit)
    } else {
        None
    }
}

/// The flag that a long name, its two hyphens included, stands for.
pub open spec fn long_flag_of(name: Seq<char>) -> Option<Flag> {
    if name == "--json"@ {
        Some(Flag::Json)
    } else if name == "--limit"@ {
        Some(Flag::Limit)
    } else if name == "--key"@ {
        Some(Flag::Key)
    } else if name == "--value"@ {
        Some(Flag::Value)
    } else if name == "--with-highlight"@ {
        Some(Flag::WithHighlight)
    } else if name == "--all"@ {
        Some(Flag::All)
    } else if name == "--output"@ {
        Some(Flag::Output)
    } else if name == "--start"@ {
        Some(Flag::Start)
    } else if name == "--end"@ {
        Some(Flag::End)
    } else if name == "--reverse"@ {
        Some(Flag::Reverse)
    } else if name == "--prefix"@ {
        Some(Flag::Prefix)
    } else {
        None
    }
}

/// The flag that a letter stands for after a single hyphen.
pub open spec fn short_flag_of(letter: char) -> Option<Flag> {
    if letter == 'j' {
        Some(Flag::Json)
    } else if letter == 'l' {
        Some(Flag::Limit)
    } else if letter == 'k' {
        Some(Flag::Key)
    } else if letter == 'v' {
        Some(Flag::Value)
    } else if letter == 'w' {
        Some(Flag::WithHighlight)
    } else if letter == 'a' {
        Some(Flag::All)
    } else if letter == 'o' {
        Some(Flag::Output)
    } else if letter == 's' {
        Some(Flag::Start)
    } else if letter == 'e' {
        Some(Flag::End)
    } else if letter == 'r' {
        Some(Flag::Reverse)
    } else if letter == 'p' {
        Some(Flag::Prefix)
    } else {
        None
    }
}

/// The first position at or after `from` at which `c` stands in the word,
/// or the word's length where it stands nowhere.
pub open spec fn position_of(word: Seq<char>, c: char, from: int) -> int
    decreases word.len() - from,
{
    if from < 0 || from >= word.len() {
        word.len() as int
    } else if word[from] == c {
        from
    } else {
        position_of(word, c, from + 1)
    }
}

/// The word begins with two hyphens: it holds a long name.
pub open spec fn is_long(word: Seq<char>) -> bool {
    word.len() >= 2 && word[0] == '-' && word[1] == '-'
}

/// Where the value begins that follows a letter in the letter's own word:
/// after one `=`, where there is one, else right after the letter.
pub open spec fn value_start(word: Seq<char>, after: int) -> int {
    if after < word.len() && word[after] == '=' {
        after + 1
    } else {
        after
    }
}

/// The long form of a flag, by which a missing one is reported.
pub open spec fn flag_name(flag: Flag) -> Seq<char> {
    match flag {
        Flag::Json => "--json"@,
        Flag::Limit => "--limit"@,
        Flag::Key => "--key"@,
        Flag::Value => "--value"@,
        Flag::WithHighlight => "--with-highlight"@,
        Flag::All => "--all"@,
        Flag::Output => "--output"@,
        Flag::Start => "--start"@,
        Flag::End => "--end"@,
        Flag::Reverse => "--reverse"@,
        Flag::Prefix => "--prefix"@,
    }
}

/// The flag is followed by a value.
pub open spec fn takes_value(flag: Flag) -> bool {
    match flag {
        Flag::Json | Flag::WithHighlight | Flag::All | Flag::Reverse => false,
        _ => true,
    }
}

/// The command knows the flag.
pub open spec fn allowed(verb: Verb, flag: Flag) -> bool {
    match verb {
        Verb::Get => flag == Flag::Json,
        Verb::Keys => flag == Flag::Limit,
        Verb::ContainsKey => flag == Flag::Key,
        Verb::SearchValue => flag == Flag::Value || flag == Flag::WithHighlight || flag
            == Flag::Limit || flag == Flag::All || flag == Flag::Output,
        Verb::SearchKey => flag == Flag::Key || flag == Flag::WithHighlight || flag == Flag::Limit
            || flag == Flag::All || flag == Flag::Output,
        Verb::Scan => flag == Flag::Start || flag == Flag::End || flag == Flag::Reverse || flag
            == Flag::Limit || flag == Flag::All || flag == Flag::Output,
        Verb::Prefix => flag == Flag::Prefix || flag == Flag::WithHighlight || flag == Flag::Limit
            || flag == Flag::All || flag == Flag::Output,
        _ => false,
    }
}

/// The names of the command's positional arguments, in order.
pub open spec fn positional_names(verb: Verb) -> Seq<Seq<char>> {
    match verb {
        Verb::Use => seq!["name"@],
        Verb::Get => seq!["key"@],
        Verb::Put => seq!["key"@, "value"@],
        Verb::Delete => seq!["key"@],
        _ => Seq::empty(),
    }
}

/// The flag that the command cannot do without.
pub open spec fn required_flag(verb: Verb) -> Option<Flag> {
    match verb {
        Verb::ContainsKey => Some(Flag::Key),
        Verb::SearchValue => Some(Flag::Value),
        Verb::SearchKey => Some(Flag::Key),
        Verb::Prefix => Some(Flag::Prefix),
        _ => None,
    }
}

/// The limit of a listing where none is given.
pub open spec fn default_limit(verb: Verb) -> usize {
    match verb {
        Verb::Keys => 10000,
        Verb::SearchValue => 1000,
        Verb::SearchKey => 1000,
        _ => 100,
    }
}

/// The word has the shape of a flag: a hyphen and something after it.
pub open spec fn looks_like_flag(word: Seq<char>) -> bool {
    word.len() > 1 && word[0] == '-'
}

/// The word asks for the usage text wherever a flag may stand.
pub open spec fn is_help_flag(word: Seq<char>) -> bool {
    word == "--help"@ || word == "-h"@
}

/// The word asks for the version in the command's place.
pub open spec fn is_version_flag(word: Seq<char>) -> bool {
    word == "--version"@ || word == "-V"@
}

pub open spec fn rejection(kind: ParseErrorKind, word: Seq<char>) -> Rejection {
    Rejection { kind, word }
}

/// Reads the word at `at`, which holds a long name: the name ends at the
/// first `=`, after which the value stands, or fills the word.
pub open spec fn long_move_of(verb: Verb, argv: Seq<Seq<char>>, at: int, slots: Seq<Slot>) -> Move {
    let word = argv[at];
    let cut = position_of(word, '=', 0);
    if is_help_flag(word) {
        Move::Help
    } else {
        match long_flag_of(word.take(cut)) {
            None => Move::Fail(rejection(ParseErrorKind::UnknownFlag, word)),
            Some(flag) => {
                if !allowed(verb, flag) {
                    Move::Fail(rejection(ParseErrorKind::UnknownFlag, word))
                } else if slots[flag_slot(flag)] is Some {
                    Move::Fail(rejection(ParseErrorKind::DuplicateFlag, word))
                } else if cut < word.len() {
                    if takes_value(flag) {
                        Move::Go { next: false, slots: placed(slots, flag, at, cut + 1) }
                    } else {
                        Move::Fail(rejection(ParseErrorKind::UnexpectedValue, word))
                    }
                } else if !takes_value(flag) {
                    Move::Go { next: false, slots: placed(slots, flag, at, 0) }
                } else if at + 1 >= argv.len() {
                    Move::Fail(rejection(ParseErrorKind::MissingValue, word))
                } else {
                    Move::Go { next: true, slots: placed(slots, flag, at + 1, 0) }
                }
            },
        }
    }
}

/// Reads the letters of the word at `at` from position `pos` on. Each
/// letter is a flag; the first that takes a value takes the rest of the
/// word, or the next word where nothing is left.
pub open spec fn short_move_of(
    verb: Verb,
    argv: Seq<Seq<char>>,
    at: int,
    pos: int,
    slots: Seq<Slot>,
) -> Move
    decreases argv[at].len() - pos,
{
    let word = argv[at];
    if pos < 0 || pos >= word.len() {
        Move::Go { next: false, slots }
    } else if word[pos] == 'h' {
        Move::Help
    } else {
        match short_flag_of(word[pos]) {
            None => Move::Fail(rejection(ParseErrorKind::UnknownFlag, word)),
            Some(flag) => {
                if !allowed(verb, flag) {
                    Move::Fail(rejection(ParseErrorKind::UnknownFlag, word))
                } else if slots[flag_slot(flag)] is Some {
                    Move::Fail(rejection(ParseErrorKind::DuplicateFlag, word))
                } else if !takes_value(flag) {
                    short_move_of(verb, argv, at, pos + 1, placed(slots, flag, at, 0))
                } else if pos + 1 < word.len() {
                    Move::Go {
                        next: false,
                        slots: placed(slots, flag, at, value_start(word, pos + 1)),
                    }
                } else if at + 1 >= argv.len() {
                    Move::Fail(rejection(ParseErrorKind::MissingValue, word))
                } else {
                    Move::Go { next: true, slots: placed(slots, flag, at + 1, 0) }
                }
            },
        }
    }
}

/// Reads the word at `at`, which has the shape of a flag.
pub open spec fn flag_move_of(verb: Verb, argv: Seq<Seq<char>>, at: int, slots: Seq<Slot>) -> Move {
    if is_long(argv[at]) {
        long_move_of(verb, argv, at, slots)
    } else {
        short_move_of(verb, argv, at, 1, slots)
    }
}

/// Reads the words from position `at` on, having found `found` before.
pub open spec fn scan_of(verb: Verb, argv: Seq<Seq<char>>, at: int, found: FoundModel) -> Pass
    decreases argv.len() - at,
{
    if at < 0 || at >= argv.len() {
        Pass::Done(found)
    } else {
        let word = argv[at];
        if found.literal || !looks_like_flag(word) {
            if found.positionals.len() >= positional_names(verb).len() {
                Pass::Fail(rejection(ParseErrorKind::UnexpectedArgument, word))
            } else {
                scan_of(verb, argv, at + 1, found.with_positional(at as usize))
            }
        } else if word == "--"@ {
            scan_of(verb, argv, at + 1, found.with_literal())
        } else {
            match flag_move_of(verb, argv, at, found.slots) {
                Move::Help => Pass::Help,
                Move::Fail(why) => Pass::Fail(why),
                Move::Go { next, slots } => if next && at + 2 <= argv.len() {
                    scan_of(verb, argv, at + 2, found.with_slots(slots))
                } else {
                    scan_of(verb, argv, at + 1, found.with_slots(slots))
                },
            }
        }
    }
}

/// The text of a positional argument.
pub open spec fn positional_of(argv: Seq<Seq<char>>, found: FoundModel, i: int) -> Seq<char> {
    argv[found.positionals[i] as int]
}

/// The value given for a flag, if any.
pub open spec fn value_of(argv: Seq<Seq<char>>, found: FoundModel, flag: Flag) -> Option<
    Seq<char>,
> {
    match found.slot(flag) {
        Some(place) => Some(argv[place.0 as int].skip(place.1 as int)),
        None => None,
    }
}

/// The flag without value was given.
pub open spec fn switch_of(found: FoundModel, flag: Flag) -> bool {
    found.slot(flag) is Some
}

/// The name of the first required argument that was not given.
pub open spec fn missing_of(verb: Verb, found: FoundModel) -> Option<Seq<char>> {
    if found.positionals.len() < positional_names(verb).len() {
        Some(positional_names(verb)[found.positionals.len() as int])
    } else {
        match required_flag(verb) {
            Some(flag) => if found.slot(flag) is None {
                Some(flag_name(flag))
            } else {
                None
            },
            None => None,
        }
    }
}

/// The limit of the listing: the default where `--limit` was not given.
pub open spec fn chosen_limit(verb: Verb, argv: Seq<Seq<char>>, found: FoundModel) -> Option<
    usize,
> {
    match value_of(argv, found, Flag::Limit) {
        Some(text) => limit_of(text),
        None => Some(default_limit(verb)),
    }
}

/// The command made of the arguments found, all required ones being there
/// and the limit being a number.
pub open spec fn command_of(verb: Verb, argv: Seq<Seq<char>>, found: FoundModel) -> CommandModel {
    let limit = chosen_limit(verb, argv, found).unwrap();
    let with_highlight = switch_of(found, Flag::WithHighlight);
    let all = switch_of(found, Flag::All);
    let output = value_of(argv, found, Flag::Output);
    match verb {
        Verb::List => CommandModel::List,
        Verb::Info => CommandModel::Info,
        Verb::Use => CommandModel::Use { name: positional_of(argv, found, 0) },
        Verb::Get => CommandModel::Get {
            key: positional_of(argv, found, 0),
            json: switch_of(found, Flag::Json),
        },
        Verb::Keys => CommandModel::Keys { limit },
        Verb::ContainsKey => CommandModel::ContainsKey {
            key: value_of(argv, found, Flag::Key).unwrap(),
        },
        Verb::SearchValue => CommandModel::SearchValue {
            value: value_of(argv, found, Flag::Value).unwrap(),
            with_highlight,
            limit,
            all,
            output,
        },
        Verb::SearchKey => CommandModel::SearchKey {
            key: value_of(argv, found, Flag::Key).unwrap(),
            with_highlight,
            limit,
            all,
            output,
        },
        Verb::Put => CommandModel::Put {
            key: positional_of(argv, found, 0),
            value: positional_of(argv, found, 1),
        },
        Verb::Delete => CommandModel::Delete { key: positional_of(argv, found, 0) },
        Verb::Scan => CommandModel::Scan {
            start: value_of(argv, found, Flag::Start),
            end: value_of(argv, found, Flag::End),
            reverse: switch_of(found, Flag::Reverse),
            limit,
            all,
            output,
        },
        Verb::Prefix => CommandModel::Prefix {
            prefix: value_of(argv, found, Flag::Prefix).unwrap(),
            with_highlight,
            limit,
            all,
            output,
        },
        Verb::Exit => CommandModel::Exit,
    }
}

/// The command that the arguments found make, or why they make none: a
/// required argument is missing, or the limit is no number.
pub open spec fn build_of(verb: Verb, argv: Seq<Seq<char>>, found: FoundModel) -> Result<
    CommandModel,
    Rejection,
> {
    match missing_of(verb, found) {
        Some(name) => Err(rejection(ParseErrorKind::MissingArgument, name)),
        None => if chosen_limit(verb, argv, found) is None {
            Err(
                rejection(
                    ParseErrorKind::InvalidNumber,
                    value_of(argv, found, Flag::Limit).unwrap(),
                ),
            )
        } else {
            Ok(command_of(verb, argv, found))
        },
    }
}

/// What a command line asks for, or why it is rejected.
pub open spec fn parse_of(argv: Seq<Seq<char>>) -> Result<Request, Rejection> {
    if argv.len() < 2 {
        Err(rejection(ParseErrorKind::MissingArgument, "command"@))
    } else if argv[1] == "help"@ || is_help_flag(argv[1]) {
        Ok(Request::Help)
    } else if is_version_flag(argv[1]) {
        Ok(Request::Version)
    } else {
        match verb_of(argv[1]) {
            None => Err(rejection(ParseErrorKind::UnknownCommand, argv[1])),
            Some(verb) => match scan_of(verb, argv, 2, FoundModel::empty()) {
                Pass::Help => Ok(Request::Help),
                Pass::Fail(why) => Err(why),
                Pass::Done(found) => match build_of(verb, argv, found) {
                    Ok(command) => Ok(Request::Command(command)),
                    Err(why) => Err(why),
                },
            },
        }
    }
}

/// How far reading the arguments got.
enum Scanned {
    Done(Found),
    Help,
    Fail(ParseError),
}

impl View for Scanned {
    type V = Pass;

    closed spec fn view(&self) -> Pass {
        match *self {
            Scanned::Done(found) => Pass::Done(found@),
            Scanned::Help => Pass::Help,
            Scanned::Fail(why) => Pass::Fail(why@),
        }
    }
}

/// The outcome of parsing and what the grammar prescribes are the same.
pub open spec fn agrees(outcome: Result<Parsed, ParseError>, expected: Result<Request, Rejection>) -> bool {
    match outcome {
        Ok(parsed) => expected == Ok::<Request, Rejection>(parsed@),
        Err(why) => expected == Err::<Request, Rejection>(why@),
    }
}

/// The command that a word names.
pub fn verb_named(word: &str) -> (verb: Option<Verb>)
    ensures
        verb == verb_of(word@),
{
    if same_text(word, "list") {
        Some(Verb::List)
    } else if same_text(word, "info") {
        Some(Verb::Info)
    } else if same_text(word, "use") {
        Some(Verb::Use)
    } else if same_text(word, "get") {
        Some(Verb::Get)
    } else if same_text(word, "keys") {
        Some(Verb::Keys)
    } else if same_text(word, "contains-key") {
        Some(Verb::ContainsKey)
    } else if same_text(word, "search-value") {
        Some(Verb::SearchValue)
    } else if same_text(word, "search-key") {
        Some(Verb::SearchKey)
    } else if same_text(word, "put") {
        Some(Verb::Put)
    } else if same_text(word, "delete") {
        Some(Verb::Delete)
    } else if same_text(word, "scan") {
        Some(Verb::Scan)
    } else if same_text(word, "prefix") {
        Some(Verb::Prefix)
    } else if same_text(word, "exit") {
        Some(Verb::Exit)
    } else {
        None
    }
}

/// The flag that a long name stands for.
pub fn long_flag_named(name: &str) -> (flag: Option<Flag>)
    ensures
        flag == long_flag_of(name@),
{
    if same_text(name, "--json") {
        Some(Flag::Json)
    } else if same_text(name, "--limit") {
        Some(Flag::Limit)
    } else if same_text(name, "--key") {
        Some(Flag::Key)
    } else if same_text(name, "--value") {
        Some(Flag::Value)
    } else if same_text(name, "--with-highlight") {
        Some(Flag::WithHighlight)
    } else if same_text(name, "--all") {
        Some(Flag::All)
    } else if same_text(name, "--output") {
        Some(Flag::Output)
    } else if same_text(name, "--start") {
        Some(Flag::Start)
    } else if same_text(name, "--end") {
        Some(Flag::End)
    } else if same_text(name, "--reverse") {
        Some(Flag::Reverse)
    } else if same_text(name, "--prefix") {
        Some(Flag::Prefix)
    } else {
        None
    }
}

/// The flag that a letter stands for.
pub fn short_flag_named(letter: char) -> (flag: Option<Flag>)
    ensures
        flag == short_flag_of(letter),
{
    if letter == 'j' {
        Some(Flag::Json)
    } else if letter == 'l' {
        Some(Flag::Limit)
    } else if letter == 'k' {
        Some(Flag::Key)
    } else if letter == 'v' {
        Some(Flag::Value)
    } else if letter == 'w' {
        Some(Flag::WithHighlight)
    } else if letter == 'a' {
        Some(Flag::All)
    } else if letter == 'o' {
        Some(Flag::Output)
    } else if letter == 's' {
        Some(Flag::Start)
    } else if letter == 'e' {
        Some(Flag::End)
    } else if letter == 'r' {
        Some(Flag::Reverse)
    } else if letter == 'p' {
        Some(Flag::Prefix)
    } else {
        None
    }
}

fn slot_index(flag: Flag) -> (slot: usize)
    ensures
        slot == flag_slot(flag),
        slot < flag_count(),
{
    match flag {
        Flag::Json => 0,
        Flag::Limit => 1,
        Flag::Key => 2,
        Flag::Value => 3,
        Flag::WithHighlight => 4,
        Flag::All => 5,
        Flag::Output => 6,
        Flag::Start => 7,
        Flag::End => 8,
        Flag::Reverse => 9,
        Flag::Prefix => 10,
    }
}

fn flag_long_name(flag: Flag) -> (name: &'static str)
    ensures
        name@ == flag_name(flag),
{
    match flag {
        Flag::Json => "--json",
        Flag::Limit => "--limit",
        Flag::Key => "--key",
        Flag::Value => "--value",
        Flag::WithHighlight => "--with-highlight",
        Flag::All => "--all",
        Flag::Output => "--output",
        Flag::Start => "--start",
        Flag::End => "--end",
        Flag::Reverse => "--reverse",
        Flag::Prefix => "--prefix",
    }
}

fn flag_takes_value(flag: Flag) -> (takes: bool)
    ensures
        takes == takes_value(flag),
{
    match flag {
        Flag::Json | Flag::WithHighlight | Flag::All | Flag::Reverse => false,
        _ => true,
    }
}

fn verb_allows(verb: Verb, flag: Flag) -> (known: bool)
    ensures
        known == allowed(verb, flag),
{
    match verb {
        Verb::Get => matches!(flag, Flag::Json),
        Verb::Keys => matches!(flag, Flag::Limit),
        Verb::ContainsKey => matches!(flag, Flag::Key),
        Verb::SearchValue => matches!(
            flag,
            Flag::Value | Flag::WithHighlight | Flag::Limit | Flag::All | Flag::Output
        ),
        Verb::SearchKey => matches!(
            flag,
            Flag::Key | Flag::WithHighlight | Flag::Limit | Flag::All | Flag::Output
        ),
        Verb::Scan => matches!(
            flag,
            Flag::Start | Flag::End | Flag::Reverse | Flag::Limit | Flag::All | Flag::Output
        ),
        Verb::Prefix => matches!(
            flag,
            Flag::Prefix | Flag::WithHighlight | Flag::Limit | Flag::All | Flag::Output
        ),
        _ => false,
    }
}

fn positional_count(verb: Verb) -> (count: usize)
    ensures
        count == positional_names(verb).len(),
{
    match verb {
        Verb::Use | Verb::Get | Verb::Delete => 1,
        Verb::Put => 2,
        _ => 0,
    }
}

fn positional_name(verb: Verb, i: usize) -> (name: &'static str)
    requires
        i < positional_names(verb).len(),
    ensures
        name@ == positional_names(verb)[i as int],
{
    match verb {
        Verb::Use => "name",
        Verb::Put => if i == 0 {
            "key"
        } else {
            "value"
        },
        _ => "key",
    }
}

fn verb_required_flag(verb: Verb) -> (flag: Option<Flag>)
    ensures
        flag == required_flag(verb),
{
    match verb {
        Verb::ContainsKey => Some(Flag::Key),
        Verb::SearchValue => Some(Flag::Value),
        Verb::SearchKey => Some(Flag::Key),
        Verb::Prefix => Some(Flag::Prefix),
        _ => None,
    }
}

fn verb_default_limit(verb: Verb) -> (limit: usize)
    ensures
        limit == default_limit(verb),
{
    match verb {
        Verb::Keys => 10000,
        Verb::SearchValue => 1000,
        Verb::SearchKey => 1000,
        _ => 100,
    }
}

fn word_looks_like_flag(word: &str) -> (flag: bool)
    ensures
        flag == looks_like_flag(word@),
{
    word.unicode_len() > 1 && word.get_char(0) == '-'
}

fn reject(kind: ParseErrorKind, word: &str) -> (why: ParseError)
    ensures
        why@ == rejection(kind, word@),
{
    ParseError { kind, word: word.to_string() }
}

fn no_slots() -> (slots: Vec<Slot>)
    ensures
        slots@ == FoundModel::empty().slots,
{
    let mut slots: Vec<Slot> = Vec::new();
    let mut i: usize = 0;
    while i < 11
        invariant
            i <= 11,
            slots@.len() == i,
            forall|j: int| 0 <= j < i ==> slots@[j] == None::<(usize, usize)>,
        decreases 11 - i,
    {
        slots.push(None);
        i += 1;
    }
    proof {
        assert(slots@ =~= FoundModel::empty().slots);
    }
    slots
}

/// What reading one word of flags gave.
enum Moved {
    Go { next: bool, slots: Vec<Slot> },
    Help,
    Fail(ParseError),
}

impl View for Moved {
    type V = Move;

    closed spec fn view(&self) -> Move {
        match *self {
            Moved::Go { next, slots } => Move::Go { next, slots: slots@ },
            Moved::Help => Move::Help,
            Moved::Fail(why) => Move::Fail(why@),
        }
    }
}

fn equals_sign_of(word: &str) -> (cut: usize)
    ensures
        cut == position_of(word@, '=', 0),
        cut <= word@.len(),
{
    let len: usize = word.unicode_len();
    let mut i: usize = 0;
    while i < len
        invariant
            i <= len,
            len == word@.len(),
            position_of(word@, '=', 0) == position_of(word@, '=', i as int),
        decreases len - i,
    {
        if word.get_char(i) == '=' {
            return i;
        }
        i += 1;
    }
    len
}

/// Records where the value of a flag stands.
fn place(slots: Vec<Slot>, flag: Flag, word: usize, from: usize, Ghost(argv): Ghost<
    Seq<Seq<char>>,
>) -> (placed_slots: Vec<Slot>)
    requires
        slots_within(slots@, argv),
        word < argv.len(),
        from <= argv[word as int].len(),
    ensures
        placed_slots@ == placed(slots@, flag, word as int, from as int),
        slots_within(placed_slots@, argv),
{
    let mut slots = slots;
    slots.set(slot_index(flag), Some((word, from)));
    slots
}

fn long_move(verb: Verb, argv: &Vec<String>, at: usize, slots: Vec<Slot>) -> (moved: Moved)
    requires
        at < argv.len(),
        slots_within(slots@, argv.deep_view()),
    ensures
        moved@ == long_move_of(verb, argv.deep_view(), at as int, slots@),
        match moved {
            Moved::Go { next, slots } => slots_within(slots@, argv.deep_view()) && (next ==> at
                + 1 < argv.len()),
            _ => true,
        },
{
    let ghost model = argv.deep_view();
    let word: &str = argv[at].as_str();
    assert(model[at as int] == word@);
    let cut = equals_sign_of(word);
    let len = word.unicode_len();
    if same_text(word, "--help") || same_text(word, "-h") {
        return Moved::Help;
    }
    let name: &str = word.substring_char(0, cut);
    let flag = match long_flag_named(name) {
        None => {
            return Moved::Fail(reject(ParseErrorKind::UnknownFlag, word));
        },
        Some(flag) => flag,
    };
    if !verb_allows(verb, flag) {
        Moved::Fail(reject(ParseErrorKind::UnknownFlag, word))
    } else if slots[slot_index(flag)].is_some() {
        Moved::Fail(reject(ParseErrorKind::DuplicateFlag, word))
    } else if cut < len {
        if flag_takes_value(flag) {
            Moved::Go { next: false, slots: place(slots, flag, at, cut + 1, Ghost(model)) }
        } else {
            Moved::Fail(reject(ParseErrorKind::UnexpectedValue, word))
        }
    } else if !flag_takes_value(flag) {
        Moved::Go { next: false, slots: place(slots, flag, at, 0, Ghost(model)) }
    } else if at + 1 >= argv.len() {
        Moved::Fail(reject(ParseErrorKind::MissingValue, word))
    } else {
        Moved::Go { next: true, slots: place(slots, flag, at + 1, 0, Ghost(model)) }
    }
}

fn short_move(verb: Verb, argv: &Vec<String>, at: usize, given: Vec<Slot>) -> (moved: Moved)
    requires
        at < argv.len(),
        slots_within(given@, argv.deep_view()),
    ensures
        moved@ == short_move_of(verb, argv.deep_view(), at as int, 1, given@),
        match moved {
            Moved::Go { next, slots } => slots_within(slots@, argv.deep_view()) && (next ==> at
                + 1 < argv.len()),
            _ => true,
        },
{
    let ghost model = argv.deep_view();
    let ghost first = given@;
    let word: &str = argv[at].as_str();
    assert(model[at as int] == word@);
    let len = word.unicode_len();
    let mut slots = given;
    let mut pos: usize = 1;
    while pos < len
        invariant
            1 <= pos,
            first == given@,
            at < argv.len(),
            len == word@.len(),
            model == argv.deep_view(),
            model[at as int] == word@,
            slots_within(slots@, model),
            short_move_of(verb, model, at as int, 1, first) == short_move_of(
                verb,
                model,
                at as int,
                pos as int,
                slots@,
            ),
        decreases len - pos,
    {
        let letter = word.get_char(pos);
        if letter == 'h' {
            return Moved::Help;
        }
        let flag = match short_flag_named(letter) {
            None => {
                return Moved::Fail(reject(ParseErrorKind::UnknownFlag, word));
            },
            Some(flag) => flag,
        };
        if !verb_allows(verb, flag) {
            return Moved::Fail(reject(ParseErrorKind::UnknownFlag, word));
        } else if slots[slot_index(flag)].is_some() {
            return Moved::Fail(reject(ParseErrorKind::DuplicateFlag, word));
        } else if !flag_takes_value(flag) {
            slots = place(slots, flag, at, 0, Ghost(model));
            pos += 1;
        } else if pos + 1 < len {
            let from: usize = if word.get_char(pos + 1) == '=' {
                pos + 2
            } else {
                pos + 1
            };
            return Moved::Go { next: false, slots: place(slots, flag, at, from, Ghost(model)) };
        } else if at + 1 >= argv.len() {
            return Moved::Fail(reject(ParseErrorKind::MissingValue, word));
        } else {
            return Moved::Go { next: true, slots: place(slots, flag, at + 1, 0, Ghost(model)) };
        }
    }
    Moved::Go { next: false, slots }
}

fn word_is_long(word: &str) -> (long: bool)
    ensures
        long == is_long(word@),
{
    word.unicode_len() >= 2 && word.get_char(0) == '-' && word.get_char(1) == '-'
}

/// Reads the arguments of a command: the words after the command's name.
fn scan_arguments(verb: Verb, argv: &Vec<String>) -> (pass: Scanned)
    ensures
        pass@ == scan_of(verb, argv.deep_view(), 2, FoundModel::empty()),
        match pass {
            Scanned::Done(found) => found@.within(argv.deep_view()),
            _ => true,
        },
{
    let ghost model = argv.deep_view();
    let mut positionals: Vec<usize> = Vec::new();
    let mut slots: Vec<Slot> = no_slots();
    let mut literal: bool = false;
    if argv.len() < 2 {
        return Scanned::Done(Found { positionals, slots, literal });
    }
    let mut at: usize = 2;
    while at < argv.len()
        invariant
            2 <= at <= argv.len(),
            model == argv.deep_view(),
            (FoundModel { positionals: positionals@, slots: slots@, literal }).within(model),
            scan_of(verb, model, 2, FoundModel::empty()) == scan_of(
                verb,
                model,
                at as int,
                FoundModel { positionals: positionals@, slots: slots@, literal },
            ),
        decreases argv.len() - at,
    {
        let ghost found = FoundModel { positionals: positionals@, slots: slots@, literal };
        let word: &str = argv[at].as_str();
        assert(model[at as int] == word@);
        if literal || !word_looks_like_flag(word) {
            if positionals.len() >= positional_count(verb) {
                return Scanned::Fail(reject(ParseErrorKind::UnexpectedArgument, word));
            }
            positionals.push(at);
            assert(positionals@ == found.with_positional(at).positionals);
            at += 1;
        } else if same_text(word, "--") {
            literal = true;
            at += 1;
        } else {
            let mut taken: Vec<Slot> = Vec::new();
            std::mem::swap(&mut slots, &mut taken);
            let moved = if word_is_long(word) {
                long_move(verb, argv, at, taken)
            } else {
                short_move(verb, argv, at, taken)
            };
            match moved {
                Moved::Help => {
                    return Scanned::Help;
                },
                Moved::Fail(why) => {
                    return Scanned::Fail(why);
                },
                Moved::Go { next, slots: placed_slots } => {
                    slots = placed_slots;
                    assert(FoundModel { positionals: positionals@, slots: slots@, literal }
                        == found.with_slots(slots@));
                    if next {
                        at += 2;
                    } else {
                        at += 1;
                    }
                },
            }
        }
    }
    Scanned::Done(Found { positionals, slots, literal })
}

fn word_at(argv: &Vec<String>, at: usize) -> (word: String)
    requires
        at < argv.len(),
    ensures
        word@ == argv.deep_view()[at as int],
{
    argv[at].clone()
}

fn value_at<'a>(argv: &'a Vec<String>, place: (usize, usize)) -> (value: &'a str)
    requires
        place.0 < argv.len(),
        place.1 <= argv.deep_view()[place.0 as int].len(),
    ensures
        value@ == argv.deep_view()[place.0 as int].skip(place.1 as int),
{
    let word: &str = argv[place.0].as_str();
    assert(argv.deep_view()[place.0 as int] == word@);
    word.substring_char(place.1, word.unicode_len())
}

fn flag_value(argv: &Vec<String>, found: &Found, flag: Flag) -> (value: Option<String>)
    requires
        found@.within(argv.deep_view()),
    ensures
        crate::command::text_of(value) == value_of(argv.deep_view(), found@, flag),
{
    match found.slots[slot_index(flag)] {
        Some(place) => Some(String::from_str(value_at(argv, place))),
        None => None,
    }
}

fn flag_given(found: &Found, flag: Flag) -> (given: bool)
    requires
        found.slots@.len() == flag_count(),
    ensures
        given == switch_of(found@, flag),
{
    found.slots[slot_index(flag)].is_some()
}

fn missing_argument(verb: Verb, found: &Found) -> (name: Option<&'static str>)
    requires
        found.slots@.len() == flag_count(),
    ensures
        match name {
            Some(text) => missing_of(verb, found@) == Some(text@),
            None => missing_of(verb, found@) is None,
        },
{
    if found.positionals.len() < positional_count(verb) {
        Some(positional_name(verb, found.positionals.len()))
    } else {
        match verb_required_flag(verb) {
            Some(flag) => if found.slots[slot_index(flag)].is_none() {
                Some(flag_long_name(flag))
            } else {
                None
            },
            None => None,
        }
    }
}

/// Makes the command of the arguments found.
fn build_command(verb: Verb, argv: &Vec<String>, found: &Found) -> (built: Result<
    DBCommand,
    ParseError,
>)
    requires
        found@.within(argv.deep_view()),
    ensures
        match built {
            Ok(command) => build_of(verb, argv.deep_view(), found@) == Ok::<
                CommandModel,
                Rejection,
            >(command@),
            Err(why) => build_of(verb, argv.deep_view(), found@) == Err::<
                CommandModel,
                Rejection,
            >(why@),
        },
{
    if let Some(name) = missing_argument(verb, found) {
        return Err(reject(ParseErrorKind::MissingArgument, name));
    }
    let limit: usize = match found.slots[slot_index(Flag::Limit)] {
        Some(place) => {
            let text: &str = value_at(argv, place);
            match parse_limit(text) {
                Some(limit) => limit,
                None => {
                    return Err(reject(ParseErrorKind::InvalidNumber, text));
                },
            }
        },
        None => verb_default_limit(verb),
    };
    let with_highlight = flag_given(found, Flag::WithHighlight);
    let all = flag_given(found, Flag::All);
    let command = match verb {
        Verb::List => DBCommand::List,
        Verb::Info => DBCommand::Info,
        Verb::Use => DBCommand::Use { name: word_at(argv, found.positionals[0]) },
        Verb::Get => DBCommand::Get {
            key: word_at(argv, found.positionals[0]),
            json: flag_given(found, Flag::Json),
        },
        Verb::Keys => DBCommand::Keys { limit },
        Verb::ContainsKey => DBCommand::ContainsKey {
            key: flag_value(argv, found, Flag::Key).unwrap(),
        },
        Verb::SearchValue => DBCommand::SearchValue {
            value: flag_value(argv, found, Flag::Value).unwrap(),
            with_highlight,
            limit,
            all,
            output: flag_value(argv, found, Flag::Output),
        },
        Verb::SearchKey => DBCommand::SearchKey {
            key: flag_value(argv, found, Flag::Key).unwrap(),
            with_highlight,
            limit,
            all,
            output: flag_value(argv, found, Flag::Output),
        },
        Verb::Put => DBCommand::Put {
            key: word_at(argv, found.positionals[0]),
            value: word_at(argv, found.positionals[1]),
        },
        Verb::Delete => DBCommand::Delete { key: word_at(argv, found.positionals[0]) },
        Verb::Scan => DBCommand::Scan {
            start: flag_value(argv, found, Flag::Start),
            end: flag_value(argv, found, Flag::End),
            reverse: flag_given(found, Flag::Reverse),
            limit,
            all,
            output: flag_value(argv, found, Flag::Output),
        },
        Verb::Prefix => DBCommand::Prefix {
            prefix: flag_value(argv, found, Flag::Prefix).unwrap(),
            with_highlight,
            limit,
            all,
            output: flag_value(argv, found, Flag::Output),
        },
        Verb::Exit => DBCommand::Exit,
    };
    Ok(command)
}

/// Parses a command line: the program's name, the command's name, and the
/// command's arguments.
pub fn parse_command(argv: &Vec<String>) -> (outcome: Result<Parsed, ParseError>)
    ensures
        agrees(outcome, parse_of(argv.deep_view())),
{
    if argv.len() < 2 {
        return Err(reject(ParseErrorKind::MissingArgument, "command"));
    }
    let head: &str = argv[1].as_str();
    assert(argv.deep_view()[1] == head@);
    if same_text(head, "help") || same_text(head, "--help") || same_text(head, "-h") {
        return Ok(Parsed::Help);
    }
    if same_text(head, "--version") || same_text(head, "-V") {
        return Ok(Parsed::Version);
    }
    match verb_named(head) {
        None => Err(reject(ParseErrorKind::UnknownCommand, head)),
        Some(verb) => match scan_arguments(verb, argv) {
            Scanned::Help => Ok(Parsed::Help),
            Scanned::Fail(why) => Err(why),
            Scanned::Done(found) => match build_command(verb, argv, &found) {
                Ok(command) => Ok(Parsed::Command(command)),
                Err(why) => Err(why),
            },
        },
    }
}

/// What stands before the word in the message of a rejection.
pub open spec fn message_head(kind: ParseErrorKind) -> Seq<char> {
    match kind {
        ParseErrorKind::UnknownCommand => "unrecognized command '"@,
        ParseErrorKind::UnknownFlag => "unexpected flag '"@,
        ParseErrorKind::DuplicateFlag => "the flag '"@,
        ParseErrorKind::MissingValue => "a value is required for '"@,
        ParseErrorKind::UnexpectedValue => "unexpected value in '"@,
        ParseErrorKind::UnexpectedArgument => "unexpected argument '"@,
        ParseErrorKind::MissingArgument => "the required argument '"@,
        ParseErrorKind::InvalidNumber => "invalid number '"@,
    }
}

/// What stands after the word in the message of a rejection.
pub open spec fn message_tail(kind: ParseErrorKind) -> Seq<char> {
    match kind {
        ParseErrorKind::UnknownCommand => "'"@,
        ParseErrorKind::UnknownFlag => "' found"@,
        ParseErrorKind::DuplicateFlag => "' cannot be used multiple times"@,
        ParseErrorKind::MissingValue => "' but none was supplied"@,
        ParseErrorKind::UnexpectedValue => "' for a flag that takes none"@,
        ParseErrorKind::UnexpectedArgument => "' found"@,
        ParseErrorKind::MissingArgument => "' was not provided"@,
        ParseErrorKind::InvalidNumber => "' for '--limit'"@,
    }
}

/// The message of a rejection: the word it is about, framed by the reason.
pub open spec fn message_of(why: Rejection) -> Seq<char> {
    message_head(why.kind) + why.word + message_tail(why.kind)
}

impl ParseError {
    /// The text shown to the user.
    pub fn message(&self) -> (text: String)
        ensures
            text@ == message_of(self@),
    {
        let head: &'static str = match self.kind {
            ParseErrorKind::UnknownCommand => "unrecognized command '",
            ParseErrorKind::UnknownFlag => "unexpected flag '",
            ParseErrorKind::DuplicateFlag => "the flag '",
            ParseErrorKind::MissingValue => "a value is required for '",
            ParseErrorKind::UnexpectedValue => "unexpected value in '",
            ParseErrorKind::UnexpectedArgument => "unexpected argument '",
            ParseErrorKind::MissingArgument => "the required argument '",
            ParseErrorKind::InvalidNumber => "invalid number '",
        };
        let tail: &'static str = match self.kind {
            ParseErrorKind::UnknownCommand => "'",
            ParseErrorKind::UnknownFlag => "' found",
            ParseErrorKind::DuplicateFlag => "' cannot be used multiple times",
            ParseErrorKind::MissingValue => "' but none was supplied",
            ParseErrorKind::UnexpectedValue => "' for a flag that takes none",
            ParseErrorKind::UnexpectedArgument => "' found",
            ParseErrorKind::MissingArgument => "' was not provided",
            ParseErrorKind::InvalidNumber => "' for '--limit'",
        };
        let mut text = String::from_str(head);
        text.append(self.word.as_str());
        text.append(tail);
        text
    }
}

/// The usage text: one line for each command.
pub open spec fn usage_text() -> Seq<char> {
    "commands:\n  list\n  info\n  use <name>\n  get <key> [--json]\n  keys [--limit N]\n  contains-key --key <key>\n  search-value --value <pattern> [--with-highlight] [--limit N] [--all] [--output <file>]\n  search-key --key <pattern> [--with-highlight] [--limit N] [--all] [--output <file>]\n  put <key> <value>\n  delete <key>\n  scan [--start S] [--end E] [--reverse] [--limit N] [--all] [--output <file>]\n  prefix --prefix <prefix> [--with-highlight] [--limit N] [--all] [--output <file>]\n  exit\n  help"@
}

/// The usage text that `help` asks for.
pub fn usage() -> (text: String)
    ensures
        text@ == usage_text(),
{
    String::from_str(
        "commands:\n  list\n  info\n  use <name>\n  get <key> [--json]\n  keys [--limit N]\n  contains-key --key <key>\n  search-value --value <pattern> [--with-highlight] [--limit N] [--all] [--output <file>]\n  search-key --key <pattern> [--with-highlight] [--limit N] [--all] [--output <file>]\n  put <key> <value>\n  delete <key>\n  scan [--start S] [--end E] [--reverse] [--limit N] [--all] [--output <file>]\n  prefix --prefix <prefix> [--with-highlight] [--limit N] [--all] [--output <file>]\n  exit\n  help",
    )
}

} // verus!
