//! The commands of the shell, and the arguments the program is started with.

use vstd::prelude::*;

verus! {

/// The view of an optional text.
pub open spec fn text_of(text: Option<String>) -> Option<Seq<char>> {
    match text {
        Some(t) => Some(t@),
        None => None,
    }
}

/// What the program is started with: where the store lies, and whether it
/// is opened for reading only (the default) or for reading and writing.
#[derive(Debug, Clone, PartialEq, Eq)]
pub struct Cli {
    pub path: String,
    pub readonly: Option<bool>,
}

/// One interactive input, parsed.
#[derive(Debug, Clone, PartialEq, Eq)]
pub struct InterCli {
    pub command: DBCommand,
}

/// A command of the shell. `limit` bounds the rows of a listing and counts
/// for nothing where `all` is set.
#[derive(Debug, Clone, PartialEq, Eq)]
pub enum DBCommand {
    /// List all column families.
    List,
    /// Describe the store.
    Info,
    /// Make another column family the active one.
    Use { name: String },
    /// Look one key up.
    Get { key: String, json: bool },
    /// List the first keys of the active column family.
    Keys { limit: usize },
    /// Tell whether a key is present.
    ContainsKey { key: String },
    /// List the pairs whose value holds a pattern.
    SearchValue { value: String, with_highlight: bool, limit: usize, all: bool, output: Option<String> },
    /// List the pairs whose key holds a pattern.
    SearchKey { key: String, with_highlight: bool, limit: usize, all: bool, output: Option<String> },
    /// Store a pair.
    Put { key: String, value: String },
    /// Remove a key.
    Delete { key: String },
    /// List the pairs of a key range.
    Scan {
        start: Option<String>,
        end: Option<String>,
        reverse: bool,
        limit: usize,
        all: bool,
        output: Option<String>,
    },
    /// List the pairs whose key begins with a prefix.
    Prefix { prefix: String, with_highlight: bool, limit: usize, all: bool, output: Option<String> },
    /// Leave the shell.
    Exit,
}

/// A command as a mathematical value: texts are sequences of characters.
pub enum CommandModel {
    List,
    Info,
    Use { name: Seq<char> },
    Get { key: Seq<char>, json: bool },
    Keys { limit: usize },
    ContainsKey { key: Seq<char> },
    SearchValue {
        value: Seq<char>,
        with_highlight: bool,
        limit: usize,
        all: bool,
        output: Option<Seq<char>>,
    },
    SearchKey {
        key: Seq<char>,
        with_highlight: bool,
        limit: usize,
        all: bool,
        output: Option<Seq<char>>,
    },
    Put { key: Seq<char>, value: Seq<char> },
    Delete { key: Seq<char> },
    Scan {
        start: Option<Seq<char>>,
        end: Option<Seq<char>>,
        reverse: bool,
        limit: usize,
        all: bool,
        output: Option<Seq<char>>,
    },
    Prefix {
        prefix: Seq<char>,
        with_highlight: bool,
        limit: usize,
        all: bool,
        output: Option<Seq<char>>,
    },
    Exit,
}

impl View for DBCommand {
    type V = CommandModel;

    open spec fn view(&self) -> CommandModel {
        match *self {
            DBCommand::List => CommandModel::List,
            DBCommand::Info => CommandModel::Info,
            DBCommand::Use { name } => CommandModel::Use { name: name@ },
            DBCommand::Get { key, json } => CommandModel::Get { key: key@, json },
            DBCommand::Keys { limit } => CommandModel::Keys { limit },
            DBCommand::ContainsKey { key } => CommandModel::ContainsKey { key: key@ },
            DBCommand::SearchValue { value, with_highlight, limit, all, output } => {
                CommandModel::SearchValue {
                    value: value@,
                    with_highlight,
                    limit,
                    all,
                    output: text_of(output),
                }
            },
            DBCommand::SearchKey { key, with_highlight, limit, all, output } => {
                CommandModel::SearchKey {
                    key: key@,
                    with_highlight,
                    limit,
                    all,
                    output: text_of(output),
                }
            },
            DBCommand::Put { key, value } => CommandModel::Put { key: key@, value: value@ },
            DBCommand::Delete { key } => CommandModel::Delete { key: key@ },
            DBCommand::Scan { start, end, reverse, limit, all, output } => CommandModel::Scan {
                start: text_of(start),
                end: text_of(end),
                reverse,
                limit,
                all,
                output: text_of(output),
            },
            DBCommand::Prefix { prefix, with_highlight, limit, all, output } => {
                CommandModel::Prefix {
                    prefix: prefix@,
                    with_highlight,
                    limit,
                    all,
                    output: text_of(output),
                }
            },
            DBCommand::Exit => CommandModel::Exit,
        }
    }
}

impl View for InterCli {
    type V = CommandModel;

    open spec fn view(&self) -> CommandModel {
        self.command@
    }
}

impl Cli {
    /// Tells whether the store is opened for reading only: it is, unless
    /// the program was told otherwise.
    pub fn opens_read_only(&self) -> (read_only: bool)
        ensures
            read_only == (self.readonly == Some(true)),
    {
        match self.readonly {
            Some(flag) => flag,
            None => false,
        }
    }
}

} // verus!
