//! The command processor: what the shell does for each command. A command
//! that needs the store is answered in two steps: the processor says what
//! to ask of the store, and, given the store's answer, what to show.

use vstd::prelude::*;
use vstd::string::{StringExecFns, StringSliceAdditionalSpecFns};
use crate::command::{text_of, CommandModel, DBCommand};
use crate::db::{
    displays, first_keys, get_report_of, scanned, selection, Criterion, DBHelper,
    DeleteReport, GetReport, GetReportModel, Lookup, Pair, Row, StoreError,
};
use crate::display::{
    batches_of, batches_view, column_family_rows, database_info_rows, family_rows_of,
    family_rows_view, info_rows_of, key_value_batches, list_rows_of, output_line_of, output_lines,
    FamilyRow, StoreProperties, TextRow, TextRowModel,
};
use crate::listing::{is_list_command, is_listing, Listing};
use crate::repl::ReplCommandProcessor;
use crate::text::{same_text, trimmed, trimmed_of};

verus! {

/// The processor of the shell's commands: the session's state, and the
/// command that waits for the store's answer.
#[derive(Debug, Clone, PartialEq, Eq)]
pub struct CliProcessor {
    pub db_helper: DBHelper,
    pub pending: Option<DBCommand>,
}

/// What to ask of the store, always of the active column family.
#[derive(Debug, Clone, PartialEq, Eq)]
pub enum StoreRequest {
    /// Look the key up.
    Lookup { key: Vec<u8> },
    /// Write the value under the key.
    Write { key: Vec<u8>, value: Vec<u8> },
    /// Tell whether the key is there, then remove it.
    Remove { key: Vec<u8> },
    /// Hand over the pairs: all of them, or at least those whose key is
    /// not below `lower` and is below `upper`. An answer that holds all
    /// pairs at once gives them in the store's ascending order. Where the
    /// pairs are taken one by one, `reverse` asks for them from the last
    /// to the first.
    Pairs { lower: Option<Vec<u8>>, upper: Option<Vec<u8>>, reverse: bool },
    /// Report the store's properties.
    Properties,
}

/// A request as a mathematical value.
pub enum RequestModel {
    Lookup { key: Seq<u8> },
    Write { key: Seq<u8>, value: Seq<u8> },
    Remove { key: Seq<u8> },
    Pairs { lower: Option<Seq<u8>>, upper: Option<Seq<u8>>, reverse: bool },
    Properties,
}

/// The view of optional bytes.
pub open spec fn bytes_view(bytes: Option<Vec<u8>>) -> Option<Seq<u8>> {
    match bytes {
        Some(b) => Some(b@),
        None => None,
    }
}

impl View for StoreRequest {
    type V = RequestModel;

    open spec fn view(&self) -> RequestModel {
        match *self {
            StoreRequest::Lookup { key } => RequestModel::Lookup { key: key@ },
            StoreRequest::Write { key, value } => RequestModel::Write { key: key@, value: value@ },
            StoreRequest::Remove { key } => RequestModel::Remove { key: key@ },
            StoreRequest::Pairs { lower, upper, reverse } => RequestModel::Pairs {
                lower: bytes_view(lower),
                upper: bytes_view(upper),
                reverse,
            },
            StoreRequest::Properties => RequestModel::Properties,
        }
    }
}

/// What the store answered.
#[derive(Debug, Clone, PartialEq, Eq)]
pub enum StoreAnswer {
    /// The outcome of a lookup.
    Lookup(Lookup),
    /// Whether the pair was written.
    Written { done: bool },
    /// Whether the key was there, and whether the store removed it.
    Removed { present: bool, removed: bool },
    /// The pairs of the active column family, in the store's order.
    Pairs(Vec<Pair>),
    /// The store's properties, or `None` where it failed to report them.
    Properties(Option<StoreProperties>),
    /// The store could not be asked at all.
    Failed,
}

/// What is shown to the user.
#[derive(Debug, Clone, PartialEq, Eq)]
pub enum Shown {
    /// The column families, the active one flagged.
    Families(Vec<FamilyRow>),
    /// The column family is now the active one.
    Switched { name: String },
    /// There is no such column family; nothing changed.
    NotSwitched { name: String },
    /// The command is none that the processor runs.
    Unknown,
    /// The outcome of `get`.
    Got(GetReport),
    /// Keys, one on each line.
    Keys(Vec<String>),
    /// Whether the key is there.
    Exists { key: String, present: bool },
    /// The pair was written.
    Stored { key: String, value: String },
    /// The outcome of `delete`.
    Removed { key: String, report: DeleteReport },
    /// The description of the store.
    Info(Vec<TextRow>),
    /// A listing as a table, printed batch by batch.
    Table(Vec<Vec<TextRow>>),
    /// A listing as lines to be written to the file.
    File { path: String, lines: Vec<String> },
}

/// What is shown, as a mathematical value.
pub enum ShownModel {
    Families(Seq<(Seq<char>, bool)>),
    Switched { name: Seq<char> },
    NotSwitched { name: Seq<char> },
    Unknown,
    Got(GetReportModel),
    Keys(Seq<Seq<char>>),
    Exists { key: Seq<char>, present: bool },
    Stored { key: Seq<char>, value: Seq<char> },
    Removed { key: Seq<char>, report: DeleteReport },
    Info(Seq<TextRowModel>),
    Table(Seq<Seq<TextRowModel>>),
    File { path: Seq<char>, lines: Seq<Seq<char>> },
}

impl View for Shown {
    type V = ShownModel;

    open spec fn view(&self) -> ShownModel {
        match *self {
            Shown::Families(rows) => ShownModel::Families(family_rows_view(rows@)),
            Shown::Switched { name } => ShownModel::Switched { name: name@ },
            Shown::NotSwitched { name } => ShownModel::NotSwitched { name: name@ },
            Shown::Unknown => ShownModel::Unknown,
            Shown::Got(report) => ShownModel::Got(report@),
            Shown::Keys(keys) => ShownModel::Keys(keys.deep_view()),
            Shown::Exists { key, present } => ShownModel::Exists { key: key@, present },
            Shown::Stored { key, value } => ShownModel::Stored { key: key@, value: value@ },
            Shown::Removed { key, report } => ShownModel::Removed { key: key@, report },
            Shown::Info(rows) => ShownModel::Info(rows.deep_view()),
            Shown::Table(batches) => ShownModel::Table(batches_view(batches@)),
            Shown::File { path, lines } => ShownModel::File {
                path: path@,
                lines: lines.deep_view(),
            },
        }
    }
}

/// What the processor does next for a command.
#[derive(Debug, Clone, PartialEq, Eq)]
pub enum Action {
    /// Show this; the command is done.
    Show(Shown),
    /// Ask this of the store, in the column family named, and hand its
    /// answer to `complete`.
    Ask { family: String, request: StoreRequest },
}

/// An action as a mathematical value.
pub enum ActionModel {
    Show(ShownModel),
    Ask { family: Seq<char>, request: RequestModel },
}

impl View for Action {
    type V = ActionModel;

    open spec fn view(&self) -> ActionModel {
        match *self {
            Action::Show(shown) => ActionModel::Show(shown@),
            Action::Ask { family, request } => ActionModel::Ask {
                family: family@,
                request: request@,
            },
        }
    }
}

/// The rows of a listing that are shown: all of them where `all` is set,
/// else the first `limit`.
pub open spec fn limited_of(rows: Seq<Row>, all: bool, limit: int) -> Seq<Row> {
    if all || limit >= rows.len() {
        rows
    } else {
        rows.take(limit)
    }
}

/// Where a listing goes: to the file, as lines, where one is named, else to
/// the table, in batches. Never both.
pub open spec fn routed_of(rows: Seq<Row>, all: bool, limit: int, output: Option<Seq<char>>) -> ShownModel {
    let kept = limited_of(rows, all, limit);
    match output {
        Some(path) => ShownModel::File {
            path,
            lines: kept.map_values(|row: Row| output_line_of(row)),
        },
        None => ShownModel::Table(batches_of(list_rows_of(kept))),
    }
}

/// What a command asks of the store, or `None` where it needs no store.
/// Keys and values go to the store as the bytes of their text; a range scan
/// names its bounds, every other listing asks for all pairs.
pub open spec fn request_of(command: CommandModel) -> Option<RequestModel> {
    match command {
        CommandModel::List => None,
        CommandModel::Use { .. } => None,
        CommandModel::Exit => None,
        CommandModel::Get { key, .. } => Some(
            RequestModel::Lookup { key: vstd::utf8::encode_utf8(key) },
        ),
        CommandModel::ContainsKey { key } => Some(
            RequestModel::Lookup { key: vstd::utf8::encode_utf8(key) },
        ),
        CommandModel::Put { key, value } => Some(
            RequestModel::Write {
                key: vstd::utf8::encode_utf8(key),
                value: vstd::utf8::encode_utf8(value),
            },
        ),
        CommandModel::Delete { key } => Some(
            RequestModel::Remove { key: vstd::utf8::encode_utf8(key) },
        ),
        CommandModel::Info => Some(RequestModel::Properties),
        CommandModel::Scan { start, end, reverse, .. } => Some(
            RequestModel::Pairs { lower: encoded(start), upper: encoded(end), reverse },
        ),
        _ => Some(RequestModel::Pairs { lower: None, upper: None, reverse: false }),
    }
}

/// What the processor does for a command in a session: it shows the column
/// families, switches to a known column family, declines `exit`, or asks
/// the store in the active column family.
pub open spec fn action_of(helper: DBHelper, command: CommandModel) -> ActionModel {
    match command {
        CommandModel::List => ActionModel::Show(
            ShownModel::Families(family_rows_of(helper.cf_list.deep_view(), helper.current_cf@)),
        ),
        CommandModel::Use { name } => if helper.cf_list.deep_view().contains(name) {
            ActionModel::Show(ShownModel::Switched { name })
        } else {
            ActionModel::Show(ShownModel::NotSwitched { name })
        },
        CommandModel::Exit => ActionModel::Show(ShownModel::Unknown),
        _ => ActionModel::Ask {
            family: helper.current_cf@,
            request: request_of(command).unwrap(),
        },
    }
}

/// The active column family after a command: the one named by `use` where
/// it is known, else the one before.
pub open spec fn current_after(helper: DBHelper, command: CommandModel) -> Seq<char> {
    match command {
        CommandModel::Use { name } => if helper.cf_list.deep_view().contains(name) {
            name
        } else {
            helper.current_cf@
        },
        _ => helper.current_cf@,
    }
}

/// The rows that a listing command displays are `shown`, given the pairs
/// that the store handed over.
pub open spec fn lists(command: CommandModel, pairs: Seq<Row>, shown: Seq<Row>) -> bool {
    match command {
        CommandModel::Scan { start, end, reverse, .. } => shown == scanned(
            pairs,
            encoded(start),
            encoded(end),
            reverse,
        ),
        CommandModel::Prefix { prefix, with_highlight, .. } => displays(
            shown,
            selection(pairs, Criterion::KeyPrefix { prefix: vstd::utf8::encode_utf8(prefix) }),
            prefix,
            with_highlight,
            false,
        ),
        CommandModel::SearchKey { key, with_highlight, .. } => displays(
            shown,
            selection(pairs, Criterion::KeyHolds { pattern: vstd::utf8::encode_utf8(key) }),
            key,
            false,
            with_highlight,
        ),
        CommandModel::SearchValue { value, with_highlight, .. } => displays(
            shown,
            selection(pairs, Criterion::ValueHolds { pattern: vstd::utf8::encode_utf8(value) }),
            value,
            false,
            with_highlight,
        ),
        _ => false,
    }
}

/// The bytes of an optional text.
pub open spec fn encoded(text: Option<Seq<char>>) -> Option<Seq<u8>> {
    match text {
        Some(t) => Some(vstd::utf8::encode_utf8(t)),
        None => None,
    }
}

/// The limit, `all` and the output file of a listing command.
pub open spec fn routing_of(command: CommandModel) -> (bool, int, Option<Seq<char>>) {
    match command {
        CommandModel::Keys { limit } => (false, limit as int, None),
        CommandModel::Scan { limit, all, output, .. } => (all, limit as int, output),
        CommandModel::Prefix { limit, all, output, .. } => (all, limit as int, output),
        CommandModel::SearchKey { limit, all, output, .. } => (all, limit as int, output),
        CommandModel::SearchValue { limit, all, output, .. } => (all, limit as int, output),
        _ => (false, 0, None),
    }
}

/// `shown` is what the command shows for the store's answer, and `Err` what
/// it ends with where the store failed or the answer is none to what the
/// command asked.
pub open spec fn completes(
    helper: DBHelper,
    command: CommandModel,
    answer: StoreAnswer,
    outcome: Result<Shown, StoreError>,
) -> bool {
    match (command, answer) {
        (CommandModel::Get { key, json }, StoreAnswer::Lookup(Lookup::Found(value))) => {
            outcome is Ok && outcome.unwrap()@ == ShownModel::Got(
                get_report_of(vstd::utf8::encode_utf8(key), value@, json),
            )
        },
        (CommandModel::Get { .. }, StoreAnswer::Lookup(Lookup::Absent)) => {
            outcome is Ok && outcome.unwrap()@ == ShownModel::Got(GetReportModel::NotFound)
        },
        (CommandModel::ContainsKey { key }, StoreAnswer::Lookup(Lookup::Found(_))) => {
            outcome is Ok && outcome.unwrap()@ == (ShownModel::Exists { key, present: true })
        },
        (CommandModel::ContainsKey { key }, StoreAnswer::Lookup(Lookup::Absent)) => {
            outcome is Ok && outcome.unwrap()@ == (ShownModel::Exists { key, present: false })
        },
        (CommandModel::Put { key, value }, StoreAnswer::Written { done: true }) => {
            outcome is Ok && outcome.unwrap()@ == (ShownModel::Stored { key, value })
        },
        (CommandModel::Delete { key }, StoreAnswer::Removed { present, removed: true }) => {
            outcome is Ok && outcome.unwrap()@ == (ShownModel::Removed {
                key,
                report: if present {
                    DeleteReport::Deleted
                } else {
                    DeleteReport::NotFound
                },
            })
        },
        (CommandModel::Keys { limit }, StoreAnswer::Pairs(pairs)) => {
            outcome is Ok && outcome.unwrap()@ == ShownModel::Keys(
                first_keys(pairs.deep_view(), limit as int),
            )
        },
        (CommandModel::Info, StoreAnswer::Properties(Some(properties))) => {
            outcome is Ok && outcome.unwrap()@ == ShownModel::Info(
                info_rows_of(
                    helper.path@,
                    helper.current_cf@,
                    text_of(properties.creation_time),
                    text_of(properties.version),
                    text_of(properties.level0_files),
                    text_of(properties.sst_size),
                ),
            )
        },
        (CommandModel::Scan { .. }, StoreAnswer::Pairs(pairs)) => shows_listing(
            command,
            pairs.deep_view(),
            outcome,
        ),
        (CommandModel::Prefix { .. }, StoreAnswer::Pairs(pairs)) => shows_listing(
            command,
            pairs.deep_view(),
            outcome,
        ),
        (CommandModel::SearchKey { .. }, StoreAnswer::Pairs(pairs)) => shows_listing(
            command,
            pairs.deep_view(),
            outcome,
        ),
        (CommandModel::SearchValue { .. }, StoreAnswer::Pairs(pairs)) => shows_listing(
            command,
            pairs.deep_view(),
            outcome,
        ),
        _ => outcome is Err,
    }
}

/// The outcome is the listing of the command over the pairs, cut to the
/// limit and sent to the table or to the file.
pub open spec fn shows_listing(
    command: CommandModel,
    pairs: Seq<Row>,
    outcome: Result<Shown, StoreError>,
) -> bool {
    &&& outcome is Ok
    &&& exists|shown: Seq<Row>|
        #![trigger lists(command, pairs, shown)]
        {
            &&& lists(command, pairs, shown)
            &&& outcome.unwrap()@ == routed_of(
                shown,
                routing_of(command).0,
                routing_of(command).1,
                routing_of(command).2,
            )
        }
}

/// The first rows of a listing: all of them where `all` is set, else at
/// most `limit`.
pub fn limited(rows: Vec<Pair>, all: bool, limit: usize) -> (kept: Vec<Pair>)
    ensures
        kept.deep_view() == limited_of(rows.deep_view(), all, limit as int),
{
    if all || limit >= rows.len() {
        return rows;
    }
    let ghost whole = rows.deep_view();
    let mut kept = rows;
    kept.truncate(limit);
    proof {
        assert(kept.deep_view() =~= whole.take(limit as int));
    }
    kept
}

impl CliProcessor {
    /// A processor for a session that has just begun.
    pub fn new(db_helper: DBHelper) -> (processor: CliProcessor)
        ensures
            processor.db_helper == db_helper,
            processor.pending is None,
    {
        CliProcessor { db_helper, pending: None }
    }

    /// The list of column families, the active one flagged.
    pub fn handle_list(&self) -> (rows: Vec<FamilyRow>)
        ensures
            family_rows_view(rows@) == family_rows_of(
                self.db_helper.cf_list.deep_view(),
                self.db_helper.current_cf@,
            ),
    {
        column_family_rows(&self.db_helper.cf_list, self.db_helper.current_cf.as_str())
    }

    /// Makes the column family of that name the active one, if there is
    /// one; else nothing changes.
    pub fn handle_use(&mut self, name: String) -> (switched: bool)
        ensures
            switched == old(self).db_helper.cf_list.deep_view().contains(name@),
            switched ==> final(self).db_helper.current_cf@ == name@,
            !switched ==> final(self).db_helper.current_cf == old(self).db_helper.current_cf,
            final(self).db_helper.cf_list == old(self).db_helper.cf_list,
            final(self).db_helper.path == old(self).db_helper.path,
            final(self).pending == old(self).pending,
            old(self).db_helper.wf() ==> final(self).db_helper.wf(),
    {
        if self.db_helper.knows(name.as_str()) {
            self.db_helper.current_cf = name;
            true
        } else {
            false
        }
    }

    /// Sends a listing to the file, as lines, where one is named, else to
    /// the table, in batches; cut to `limit` rows unless `all` is set.
    pub fn print_or_output_to_file(
        &self,
        key_values: Vec<Pair>,
        all: bool,
        limit: usize,
        output: Option<&str>,
    ) -> (shown: Shown)
        ensures
            shown@ == routed_of(
                key_values.deep_view(),
                all,
                limit as int,
                match output {
                    Some(path) => Some(path@),
                    None => None,
                },
            ),
    {
        let kept = limited(key_values, all, limit);
        match output {
            Some(path) => Shown::File { path: String::from_str(path), lines: output_lines(&kept) },
            None => Shown::Table(key_value_batches(&kept)),
        }
    }
}

fn text_bytes(text: &str) -> (bytes: Vec<u8>)
    ensures
        bytes@ == text.spec_bytes(),
{
    vstd::string::StrSliceExecFns::as_bytes_vec(text)
}

fn optional_bytes(text: &Option<String>) -> (bytes: Option<Vec<u8>>)
    ensures
        bytes_view(bytes) == encoded(text_of(*text)),
{
    match text {
        Some(t) => Some(text_bytes(t.as_str())),
        None => None,
    }
}

impl CliProcessor {
    /// Begins to take the pairs of the command that waits for the store
    /// one by one, where that command is a listing: the listing is handed
    /// out and nothing waits any more. For any other command, and where
    /// none waits, nothing changes.
    pub fn start_listing(&mut self) -> (listing: Option<Listing>)
        ensures
            final(self).db_helper == old(self).db_helper,
            match old(self).pending {
                Some(command) => if is_listing(command@) {
                    &&& final(self).pending is None
                    &&& listing is Some
                    &&& listing.unwrap().wf()
                    &&& listing.unwrap().command == command
                    &&& listing.unwrap().offered@ == Seq::<Option<Row>>::empty()
                    &&& listing.unwrap().shown@ == Seq::<Row>::empty()
                } else {
                    listing is None && final(self).pending == old(self).pending
                },
                None => listing is None && final(self).pending is None,
            },
    {
        let listing = match &self.pending {
            Some(command) => is_list_command(command),
            None => false,
        };
        if !listing {
            return None;
        }
        let mut waiting: Option<DBCommand> = None;
        std::mem::swap(&mut self.pending, &mut waiting);
        Listing::new(waiting.unwrap())
    }

    /// Ends the command that waits for the store: says what is shown for
    /// the store's answer. An absent key is reported, not failed on. The
    /// command ends with an error where the store failed (it could not look
    /// a key up, write, remove, or report its properties), where no command
    /// waits, or where the answer is none to what the command asked.
    /// Nothing waits afterwards.
    pub fn complete(&mut self, answer: StoreAnswer) -> (outcome: Result<Shown, StoreError>)
        ensures
            final(self).db_helper == old(self).db_helper,
            final(self).pending is None,
            match old(self).pending {
                Some(command) => completes(old(self).db_helper, command@, answer, outcome),
                None => outcome is Err,
            },
    {
        let mut waiting: Option<DBCommand> = None;
        std::mem::swap(&mut self.pending, &mut waiting);
        let command: DBCommand = match waiting {
            Some(command) => command,
            None => {
                return Err(StoreError);
            },
        };
        match (command, answer) {
            (DBCommand::Get { key, json }, StoreAnswer::Lookup(found)) => {
                match self.db_helper.get(key.as_str(), found, json) {
                    Ok(report) => Ok(Shown::Got(report)),
                    Err(why) => Err(why),
                }
            },
            (DBCommand::ContainsKey { key }, StoreAnswer::Lookup(found)) => {
                match self.db_helper.contains_stringkey(&found) {
                    Ok(present) => Ok(Shown::Exists { key, present }),
                    Err(why) => Err(why),
                }
            },
            (DBCommand::Put { key, value }, StoreAnswer::Written { done }) => {
                if done {
                    Ok(Shown::Stored { key, value })
                } else {
                    Err(StoreError)
                }
            },
            (DBCommand::Delete { key }, StoreAnswer::Removed { present, removed }) => {
                match self.db_helper.delete(key.as_str(), present, removed) {
                    Ok(report) => Ok(Shown::Removed { key, report }),
                    Err(why) => Err(why),
                }
            },
            (DBCommand::Keys { limit }, StoreAnswer::Pairs(pairs)) => {
                Ok(Shown::Keys(self.db_helper.get_keys(&pairs, limit)))
            },
            (DBCommand::Info, StoreAnswer::Properties(Some(properties))) => {
                Ok(
                    Shown::Info(
                        database_info_rows(
                            self.db_helper.path.as_str(),
                            self.db_helper.current_cf.as_str(),
                            &properties,
                        ),
                    ),
                )
            },
            (DBCommand::Scan { start, end, reverse, limit, all, output }, StoreAnswer::Pairs(pairs)) => {
                let low: Option<&str> = match &start {
                    Some(text) => Some(text.as_str()),
                    None => None,
                };
                let high: Option<&str> = match &end {
                    Some(text) => Some(text.as_str()),
                    None => None,
                };
                let rows = self.db_helper.scan(&pairs, low, high, reverse);
                let ghost command = CommandModel::Scan {
                    start: text_of(start),
                    end: text_of(end),
                    reverse,
                    limit,
                    all,
                    output: text_of(output),
                };
                assert(lists(command, pairs.deep_view(), rows.deep_view()));
                let file: Option<&str> = match &output {
                    Some(path) => Some(path.as_str()),
                    None => None,
                };
                Ok(self.print_or_output_to_file(rows, all, limit, file))
            },
            (
                DBCommand::Prefix { prefix, with_highlight, limit, all, output },
                StoreAnswer::Pairs(pairs),
            ) => {
                let rows = self.db_helper.prefix(&pairs, prefix.as_str(), with_highlight);
                let ghost command = CommandModel::Prefix {
                    prefix: prefix@,
                    with_highlight,
                    limit,
                    all,
                    output: text_of(output),
                };
                assert(lists(command, pairs.deep_view(), rows.deep_view()));
                let file: Option<&str> = match &output {
                    Some(path) => Some(path.as_str()),
                    None => None,
                };
                Ok(self.print_or_output_to_file(rows, all, limit, file))
            },
            (
                DBCommand::SearchKey { key, with_highlight, limit, all, output },
                StoreAnswer::Pairs(pairs),
            ) => {
                let rows = self.db_helper.search_key(&pairs, key.as_str(), with_highlight);
                let ghost command = CommandModel::SearchKey {
                    key: key@,
                    with_highlight,
                    limit,
                    all,
                    output: text_of(output),
                };
                assert(lists(command, pairs.deep_view(), rows.deep_view()));
                let file: Option<&str> = match &output {
                    Some(path) => Some(path.as_str()),
                    None => None,
                };
                Ok(self.print_or_output_to_file(rows, all, limit, file))
            },
            (
                DBCommand::SearchValue { value, with_highlight, limit, all, output },
                StoreAnswer::Pairs(pairs),
            ) => {
                let rows = self.db_helper.search_value(&pairs, value.as_str(), with_highlight);
                let ghost command = CommandModel::SearchValue {
                    value: value@,
                    with_highlight,
                    limit,
                    all,
                    output: text_of(output),
                };
                assert(lists(command, pairs.deep_view(), rows.deep_view()));
                let file: Option<&str> = match &output {
                    Some(path) => Some(path.as_str()),
                    None => None,
                };
                Ok(self.print_or_output_to_file(rows, all, limit, file))
            },
            _ => Err(StoreError),
        }
    }
}

/// The prompt for an active column family: its name, without white space
/// around it, in square brackets, and the prompt sign.
pub open spec fn prompt_of(current_cf: Seq<char>) -> Seq<char> {
    "["@ + trimmed_of(current_cf) + "] >>"@
}

/// The words that end the session.
pub open spec fn is_quit_word(token: Seq<char>) -> bool {
    token == "quit"@ || token == "exit"@
}

impl ReplCommandProcessor for CliProcessor {
    type Command = DBCommand;

    type Effect = Action;

    open spec fn quits_on(&self, token: Seq<char>) -> bool {
        is_quit_word(token)
    }

    open spec fn prompt_text(&self) -> Seq<char> {
        prompt_of(self.db_helper.current_cf@)
    }

    fn is_quit(&self, command: &str) -> (quit: bool) {
        same_text(command, "quit") || same_text(command, "exit")
    }

    fn get_prompt(&self) -> (prompt: String) {
        let mut prompt = String::from_str("[");
        prompt.append(trimmed(self.db_helper.current_cf.as_str()));
        prompt.append("] >>");
        prompt
    }

    /// Begins a command. A command that needs no store is done at once:
    /// `list` shows the column families, `use` switches to a known column
    /// family and to no other, `exit` is none of the processor's commands.
    /// Any other command is kept until the store has answered.
    fn process_command(&mut self, command: DBCommand) -> (action: Action)
        ensures
            old(self).db_helper.wf() ==> final(self).db_helper.wf(),
            final(self).db_helper.cf_list == old(self).db_helper.cf_list,
            final(self).db_helper.path == old(self).db_helper.path,
            final(self).db_helper.current_cf@ == current_after(old(self).db_helper, command@),
            action@ == action_of(old(self).db_helper, command@),
            final(self).pending == if request_of(command@) is Some {
                Some(command)
            } else {
                None
            },
    {
        let request = match &command {
            DBCommand::List => {
                self.pending = None;
                return Action::Show(Shown::Families(self.handle_list()));
            },
            DBCommand::Use { name } => {
                self.pending = None;
                return if self.handle_use(name.clone()) {
                    Action::Show(Shown::Switched { name: name.clone() })
                } else {
                    Action::Show(Shown::NotSwitched { name: name.clone() })
                };
            },
            DBCommand::Exit => {
                self.pending = None;
                return Action::Show(Shown::Unknown);
            },
            DBCommand::Get { key, .. } => StoreRequest::Lookup { key: text_bytes(key.as_str()) },
            DBCommand::ContainsKey { key } => StoreRequest::Lookup {
                key: text_bytes(key.as_str()),
            },
            DBCommand::Put { key, value } => {
                let pair = self.db_helper.put(key.as_str(), value.as_str());
                StoreRequest::Write { key: pair.0, value: pair.1 }
            },
            DBCommand::Delete { key } => StoreRequest::Remove { key: text_bytes(key.as_str()) },
            DBCommand::Info => StoreRequest::Properties,
            DBCommand::Scan { start, end, reverse, .. } => StoreRequest::Pairs {
                lower: optional_bytes(start),
                upper: optional_bytes(end),
                reverse: *reverse,
            },
            _ => StoreRequest::Pairs { lower: None, upper: None, reverse: false },
        };
        let family = self.db_helper.current_cf.clone();
        self.pending = Some(command);
        Action::Ask { family, request }
    }
}

/// A listing is cut to exactly `limit` rows where it has more and `all`
/// is not set; with `all` set every row is shown, whatever the limit.
pub proof fn lemma_limit_is_exact(rows: Seq<Row>, all: bool, limit: nat)
    ensures
        all ==> limited_of(rows, all, limit as int) == rows,
        !all && limit <= rows.len() ==> limited_of(rows, all, limit as int).len() == limit,
        !all && limit > rows.len() ==> limited_of(rows, all, limit as int) == rows,
        limited_of(rows, all, limit as int).is_prefix_of(rows),
        !all ==> limited_of(rows, all, limit as int).len() <= limit,
{
    if !all && limit < rows.len() {
        assert(rows.take(limit as int).is_prefix_of(rows));
    } else if !all && limit == rows.len() {
        assert(rows.take(limit as int) =~= rows);
    }
}

/// What `put` writes is what a plain `get` of the same key shows, byte for
/// byte: `put` asks the store to write the bytes of its key and value,
/// `get` asks for the same key, and the value that a store then holds for
/// it is shown as it is.
pub proof fn lemma_put_then_get(
    family: crate::db::Family,
    key: Seq<char>,
    value: Seq<char>,
)
    ensures
        request_of(CommandModel::Put { key, value }) == Some(
            RequestModel::Write {
                key: vstd::utf8::encode_utf8(key),
                value: vstd::utf8::encode_utf8(value),
            },
        ),
        request_of(CommandModel::Get { key, json: false }) == Some(
            RequestModel::Lookup { key: vstd::utf8::encode_utf8(key) },
        ),
        crate::db::looked_up(
            crate::db::after_put(family, crate::db::put_row(key, value)),
            vstd::utf8::encode_utf8(key),
        ) == Some(vstd::utf8::encode_utf8(value)),
        get_report_of(vstd::utf8::encode_utf8(key), vstd::utf8::encode_utf8(value), false)
            == (GetReportModel::Row {
            key: vstd::utf8::encode_utf8(key),
            value: vstd::utf8::encode_utf8(value),
        }),
{
    crate::db::lemma_get_after_put(family, key, value);
}

} // verus!
