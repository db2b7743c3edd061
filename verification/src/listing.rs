//! A listing taken pair by pair. The store hands its pairs over one at a
//! time; for each the listing says whether it is shown, whether the table
//! is to be printed, and when nothing more will be shown, so that a listing
//! reads no more of the store than it shows and keeps no more rows than one
//! batch.

use vstd::prelude::*;
use vstd::utf8::encode_utf8;
use crate::cli_processor::{encoded, limited_of, routing_of};
use crate::command::{CommandModel, DBCommand};
use crate::db::{
    displays, lemma_selection_of_reversed, lossy_text, lossy_text_of, meets, read_pairs_of,
    scanned, selection, test_of, Criterion, Filter, Pair, Row,
};
use crate::display::{
    list_row_of, output_line, output_line_of, value_text, TextRowModel, BATCH_ROWS,
};
use crate::highlight::{highlight_pattern, is_highlight_of};

verus! {

/// The command shows a list of pairs or of keys.
pub open spec fn is_listing(command: CommandModel) -> bool {
    match command {
        CommandModel::Keys { .. } => true,
        CommandModel::Scan { .. } => true,
        CommandModel::Prefix { .. } => true,
        CommandModel::SearchKey { .. } => true,
        CommandModel::SearchValue { .. } => true,
        _ => false,
    }
}

/// Which pairs the command lists.
pub open spec fn criterion_of(command: CommandModel) -> Criterion {
    match command {
        CommandModel::Scan { start, end, .. } => Criterion::Range {
            start: encoded(start),
            end: encoded(end),
        },
        CommandModel::Prefix { prefix, .. } => Criterion::KeyPrefix { prefix: encode_utf8(prefix) },
        CommandModel::SearchKey { key, .. } => Criterion::KeyHolds { pattern: encode_utf8(key) },
        CommandModel::SearchValue { value, .. } => Criterion::ValueHolds {
            pattern: encode_utf8(value),
        },
        _ => Criterion::Range { start: None, end: None },
    }
}

/// What the command highlights: the pattern, and whether in the keys or
/// in the values. A prefix is highlighted in the key, a search pattern in
/// the value, whichever side it was searched in.
pub open spec fn marks_of(command: CommandModel) -> (Seq<char>, bool, bool) {
    match command {
        CommandModel::Prefix { prefix, with_highlight, .. } => (prefix, with_highlight, false),
        CommandModel::SearchKey { key, with_highlight, .. } => (key, false, with_highlight),
        CommandModel::SearchValue { value, with_highlight, .. } => (value, false, with_highlight),
        _ => (Seq::empty(), false, false),
    }
}

/// The pairs that the command shows of those offered so far: the readable
/// ones that meet its criterion, in the order offered, cut to the limit
/// unless `all` is set.
pub open spec fn kept_of(command: CommandModel, offered: Seq<Option<Row>>) -> Seq<Row> {
    limited_of(
        selection(read_pairs_of(offered), criterion_of(command)),
        routing_of(command).0,
        routing_of(command).1,
    )
}

/// What is shown for one pair.
#[derive(Debug, Clone, PartialEq, Eq)]
pub enum Emitted {
    /// The key, for a list of keys.
    Key(String),
    /// A row of the table.
    Row { key: String, value: String },
    /// A line of the file.
    Line(String),
}

/// What is shown for one pair, as a mathematical value.
pub enum EmittedModel {
    Key(Seq<char>),
    Row(TextRowModel),
    Line(Seq<char>),
}

impl View for Emitted {
    type V = EmittedModel;

    open spec fn view(&self) -> EmittedModel {
        match *self {
            Emitted::Key(key) => EmittedModel::Key(key@),
            Emitted::Row { key, value } => EmittedModel::Row((key@, value@)),
            Emitted::Line(line) => EmittedModel::Line(line@),
        }
    }
}

/// What the command shows for a pair as it is displayed: the key for a
/// list of keys, a line where the listing goes to a file, else a row.
pub open spec fn emitted_of(command: CommandModel, shown: Row) -> EmittedModel {
    match command {
        CommandModel::Keys { .. } => EmittedModel::Key(lossy_text_of(shown.0)),
        _ => match routing_of(command).2 {
            Some(_) => EmittedModel::Line(output_line_of(shown)),
            None => EmittedModel::Row(list_row_of(shown)),
        },
    }
}

/// The listing goes to the table, which is printed batch by batch.
pub open spec fn fills_table(command: CommandModel) -> bool {
    !(command is Keys) && routing_of(command).2 is None
}

/// What to do with the item that was offered.
#[derive(Debug, Clone, PartialEq, Eq)]
pub enum Step {
    /// Nothing is shown for it; go on.
    Skip,
    /// Show this; go on.
    Emit { row: Emitted },
    /// Show this, then print the table and empty it; go on.
    EmitAndFlush { row: Emitted },
    /// The listing is complete: the item is not shown, and no further one
    /// need be read.
    Stop,
}

/// An item as a mathematical value: a pair, or `None` for what the store
/// failed to read.
pub open spec fn item_model(item: Option<Pair>) -> Option<Row> {
    match item {
        Some(pair) => Some((pair.0@, pair.1@)),
        None => None,
    }
}

/// A listing under way: its command, how many pairs it has shown, and how
/// many rows stand in the table since it was last printed. `offered` are
/// the items offered so far and `shown` the pairs shown of them, as they
/// are displayed. A listing made by `new` and moved on by `offer` alone is
/// well-formed; what the functions promise, they promise of such a one.
pub struct Listing {
    pub command: DBCommand,
    pub count: usize,
    pub in_batch: usize,
    pub offered: Ghost<Seq<Option<Row>>>,
    pub shown: Ghost<Seq<Row>>,
}

impl Listing {
    /// What was shown is what the command shows of what was offered, and
    /// the counts agree with it.
    pub open spec fn wf(&self) -> bool {
        &&& is_listing(self.command@)
        &&& displays(
            self.shown@,
            kept_of(self.command@, self.offered@),
            marks_of(self.command@).0,
            marks_of(self.command@).1,
            marks_of(self.command@).2,
        )
        &&& !routing_of(self.command@).0 ==> self.count == self.shown@.len()
        &&& self.in_batch == self.shown@.len() % (BATCH_ROWS as nat)
    }

    /// The limit is reached: nothing more will be shown.
    pub open spec fn is_full(&self) -> bool {
        !routing_of(self.command@).0 && self.shown@.len() >= routing_of(self.command@).1
    }
}

/// What the command shows of the items offered, when one more is offered:
/// nothing new once the limit is reached, for an unreadable item, or for a
/// pair that does not meet the criterion; else that pair as well.
pub proof fn lemma_kept_grows(command: CommandModel, offered: Seq<Option<Row>>, item: Option<Row>)
    ensures
        kept_of(command, offered.push(item)) == if (!routing_of(command).0 && kept_of(
            command,
            offered,
        ).len() >= routing_of(command).1) || item is None || !meets(
            item.unwrap(),
            criterion_of(command),
        ) {
            kept_of(command, offered)
        } else {
            kept_of(command, offered).push(item.unwrap())
        },
{
    let criterion = criterion_of(command);
    let all = routing_of(command).0;
    let limit = routing_of(command).1;
    let read = read_pairs_of(offered);
    let longer = offered.push(item);
    assert(longer.drop_last() =~= offered);
    assert(longer.last() == item);
    let chosen = selection(read, criterion);
    match item {
        None => {
            assert(read_pairs_of(longer) == read);
        },
        Some(row) => {
            assert(read_pairs_of(longer) == read.push(row));
            read.lemma_filter_push(row, test_of(criterion));
            if meets(row, criterion) {
                let more = chosen.push(row);
                assert(selection(read.push(row), criterion) == more);
                if !all && limit < more.len() {
                    if limit < chosen.len() {
                        assert(more.take(limit) =~= chosen.take(limit));
                    } else {
                        assert(more.take(limit) =~= chosen);
                    }
                }
            } else {
                assert(selection(read.push(row), criterion) == chosen);
            }
        },
    }
}

fn filter_of(command: &DBCommand) -> (filter: Filter<'_>)
    ensures
        filter@ == criterion_of(command@),
{
    match command {
        DBCommand::Scan { start, end, .. } => Filter::Range {
            start: match start {
                Some(text) => Some(text.as_str().as_bytes()),
                None => None,
            },
            end: match end {
                Some(text) => Some(text.as_str().as_bytes()),
                None => None,
            },
        },
        DBCommand::Prefix { prefix, .. } => Filter::KeyPrefix { prefix: prefix.as_str().as_bytes() },
        DBCommand::SearchKey { key, .. } => Filter::KeyHolds { pattern: key.as_str().as_bytes() },
        DBCommand::SearchValue { value, .. } => Filter::ValueHolds {
            pattern: value.as_str().as_bytes(),
        },
        _ => Filter::Range { start: None, end: None },
    }
}

fn displayed(command: &DBCommand, pair: Pair) -> (shown: Pair)
    ensures
        if marks_of(command@).1 {
            is_highlight_of(shown.0@, marks_of(command@).0, pair.0@)
        } else {
            shown.0@ == pair.0@
        },
        if marks_of(command@).2 {
            is_highlight_of(shown.1@, marks_of(command@).0, pair.1@)
        } else {
            shown.1@ == pair.1@
        },
{
    match command {
        DBCommand::Prefix { prefix, with_highlight, .. } => if *with_highlight {
            (highlight_pattern(prefix.as_str(), pair.0), pair.1)
        } else {
            pair
        },
        DBCommand::SearchKey { key, with_highlight, .. } => if *with_highlight {
            (pair.0, highlight_pattern(key.as_str(), pair.1))
        } else {
            pair
        },
        DBCommand::SearchValue { value, with_highlight, .. } => if *with_highlight {
            (pair.0, highlight_pattern(value.as_str(), pair.1))
        } else {
            pair
        },
        _ => pair,
    }
}

fn emitted(command: &DBCommand, shown: &Pair) -> (row: Emitted)
    ensures
        row@ == emitted_of(command@, (shown.0@, shown.1@)),
{
    let to_file: bool = match command {
        DBCommand::Scan { output, .. } => output.is_some(),
        DBCommand::Prefix { output, .. } => output.is_some(),
        DBCommand::SearchKey { output, .. } => output.is_some(),
        DBCommand::SearchValue { output, .. } => output.is_some(),
        _ => false,
    };
    match command {
        DBCommand::Keys { .. } => Emitted::Key(lossy_text(shown.0.as_slice())),
        _ => if to_file {
            Emitted::Line(output_line(shown.0.as_slice(), shown.1.as_slice()))
        } else {
            Emitted::Row {
                key: lossy_text(shown.0.as_slice()),
                value: value_text(shown.1.as_slice()),
            }
        },
    }
}

fn cut_of(command: &DBCommand) -> (cut: (bool, usize))
    ensures
        cut.0 == routing_of(command@).0,
        is_listing(command@) ==> cut.1 == routing_of(command@).1,
{
    match command {
        DBCommand::Keys { limit } => (false, *limit),
        DBCommand::Scan { limit, all, .. } => (*all, *limit),
        DBCommand::Prefix { limit, all, .. } => (*all, *limit),
        DBCommand::SearchKey { limit, all, .. } => (*all, *limit),
        DBCommand::SearchValue { limit, all, .. } => (*all, *limit),
        _ => (false, 0),
    }
}

fn to_table(command: &DBCommand) -> (table: bool)
    ensures
        table == fills_table(command@),
{
    match command {
        DBCommand::Scan { output, .. } => output.is_none(),
        DBCommand::Prefix { output, .. } => output.is_none(),
        DBCommand::SearchKey { output, .. } => output.is_none(),
        DBCommand::SearchValue { output, .. } => output.is_none(),
        DBCommand::Keys { .. } => false,
        _ => true,
    }
}

/// Tells whether the command shows a list of pairs or of keys.
pub fn is_list_command(command: &DBCommand) -> (listing: bool)
    ensures
        listing == is_listing(command@),
{
    match command {
        DBCommand::Keys { .. } => true,
        DBCommand::Scan { .. } => true,
        DBCommand::Prefix { .. } => true,
        DBCommand::SearchKey { .. } => true,
        DBCommand::SearchValue { .. } => true,
        _ => false,
    }
}

impl Listing {
    /// Begins the listing of a command; `None` for a command that lists
    /// nothing.
    pub fn new(command: DBCommand) -> (listing: Option<Listing>)
        ensures
            listing is Some <==> is_listing(command@),
            listing is Some ==> {
                &&& listing.unwrap().wf()
                &&& listing.unwrap().command == command
                &&& listing.unwrap().offered@ == Seq::<Option<Row>>::empty()
                &&& listing.unwrap().shown@ == Seq::<Row>::empty()
            },
    {
        if !is_list_command(&command) {
            return None;
        }
        proof {
            reveal(Seq::filter);
            let none = Seq::<Option<Row>>::empty();
            assert(read_pairs_of(none) =~= Seq::<Row>::empty());
            assert(kept_of(command@, none) =~= Seq::<Row>::empty());
        }
        Some(
            Listing {
                command,
                count: 0,
                in_batch: 0,
                offered: Ghost(Seq::empty()),
                shown: Ghost(Seq::empty()),
            },
        )
    }

    /// Tells whether the listing can show more: it can, unless its limit
    /// is reached. Where it cannot, no further item need be read.
    pub fn wants_more(&self) -> (more: bool)
        ensures
            self.wf() ==> more == !self.is_full(),
    {
        let cut = cut_of(&self.command);
        cut.0 || self.count < cut.1
    }

    /// Takes the next item that the store hands over and says what to do
    /// with it. Once the limit is reached the answer is `Stop`. Before
    /// that, an item that the store failed to read and a pair that does
    /// not meet the command's criterion are skipped, and a pair that meets
    /// it is shown: as it is, or with the pattern highlighted. The table
    /// is printed with every `BATCH_ROWS`-th row.
    pub fn offer(&mut self, item: Option<Pair>) -> (step: Step)
        ensures
            final(self).command == old(self).command,
            final(self).offered@ == old(self).offered@.push(item_model(item)),
            old(self).wf() ==> final(self).wf(),
            old(self).wf() ==> match step {
                Step::Stop => old(self).is_full() && final(self).shown@ == old(self).shown@,
                Step::Skip => {
                    &&& !old(self).is_full()
                    &&& item is None || !meets(item_model(item).unwrap(), criterion_of(old(self).command@))
                    &&& final(self).shown@ == old(self).shown@
                },
                Step::Emit { row } => {
                    &&& !old(self).is_full()
                    &&& item is Some && meets(item_model(item).unwrap(), criterion_of(old(self).command@))
                    &&& final(self).shown@.len() == old(self).shown@.len() + 1
                    &&& final(self).shown@.drop_last() == old(self).shown@
                    &&& row@ == emitted_of(old(self).command@, final(self).shown@.last())
                    &&& !(fills_table(old(self).command@) && final(self).shown@.len() % (
                    BATCH_ROWS as nat) == 0)
                },
                Step::EmitAndFlush { row } => {
                    &&& !old(self).is_full()
                    &&& item is Some && meets(item_model(item).unwrap(), criterion_of(old(self).command@))
                    &&& final(self).shown@.len() == old(self).shown@.len() + 1
                    &&& final(self).shown@.drop_last() == old(self).shown@
                    &&& row@ == emitted_of(old(self).command@, final(self).shown@.last())
                    &&& fills_table(old(self).command@)
                    &&& final(self).shown@.len() % (BATCH_ROWS as nat) == 0
                },
            },
    {
        let ghost sound = self.wf();
        let ghost before = self.offered@;
        let ghost kept = kept_of(self.command@, before);
        let ghost shown = self.shown@;
        let cut = cut_of(&self.command);
        proof {
            lemma_kept_grows(self.command@, before, item_model(item));
        }
        self.offered = Ghost(before.push(item_model(item)));
        if !cut.0 && self.count >= cut.1 {
            return Step::Stop;
        }
        let pair: Pair = match item {
            Some(pair) => pair,
            None => {
                return Step::Skip;
            },
        };
        let met = filter_of(&self.command).accepts(pair.0.as_slice(), pair.1.as_slice());
        if !met {
            return Step::Skip;
        }
        let ghost taken: Row = (pair.0@, pair.1@);
        let seen = displayed(&self.command, pair);
        let row = emitted(&self.command, &seen);
        let ghost more = shown.push((seen.0@, seen.1@));
        self.shown = Ghost(more);
        proof {
            let grown = kept.push(taken);
            assert(more.drop_last() =~= shown);
            assert(sound ==> kept_of(self.command@, self.offered@) == grown);
            assert forall|i: int| sound && 0 <= i < more.len() implies {
                &&& if marks_of(self.command@).1 {
                    is_highlight_of((#[trigger] more[i]).0, marks_of(self.command@).0, grown[i].0)
                } else {
                    more[i].0 == grown[i].0
                }
                &&& if marks_of(self.command@).2 {
                    is_highlight_of(more[i].1, marks_of(self.command@).0, grown[i].1)
                } else {
                    more[i].1 == grown[i].1
                }
            } by {
                if i < shown.len() {
                    assert(more[i] == shown[i]);
                    assert(grown[i] == kept[i]);
                }
            }
        }
        if !cut.0 {
            self.count = self.count + 1;
        }
        let flush = if self.in_batch >= BATCH_ROWS - 1 {
            self.in_batch = 0;
            true
        } else {
            self.in_batch = self.in_batch + 1;
            false
        };
        if flush && to_table(&self.command) {
            Step::EmitAndFlush { row }
        } else {
            Step::Emit { row }
        }
    }

    /// Ends the listing: tells whether the table holds rows that were not
    /// printed yet.
    pub fn finish(self) -> (print: bool)
        ensures
            self.wf() ==> print == (fills_table(self.command@) && self.shown@.len() % (
            BATCH_ROWS as nat) != 0),
    {
        to_table(&self.command) && self.in_batch != 0
    }
}

/// The items that a store hands over when it reads every pair.
pub open spec fn all_read(rows: Seq<Row>) -> Seq<Option<Row>> {
    rows.map_values(|row: Row| Some(row))
}

/// Where every pair is read, the readable pairs are all of them.
pub proof fn lemma_all_read_are_readable(rows: Seq<Row>)
    ensures
        read_pairs_of(all_read(rows)) == rows,
    decreases rows.len(),
{
    if rows.len() == 0 {
        assert(read_pairs_of(all_read(rows)) =~= rows);
    } else {
        let init = rows.drop_last();
        lemma_all_read_are_readable(init);
        assert(all_read(rows).drop_last() =~= all_read(init));
        assert(all_read(rows).last() == Some(rows.last()));
        assert(init.push(rows.last()) =~= rows);
    }
}

/// A range scan taken pair by pair shows what the scan of all pairs shows:
/// where the store hands its pairs over in ascending order for a forward
/// scan and from the last to the first for a reverse scan, and reads every
/// one of them, the pairs kept are those of the scan, cut to the limit.
pub proof fn lemma_listing_shows_the_scan(command: CommandModel, rows: Seq<Row>)
    requires
        command is Scan,
    ensures
        kept_of(
            command,
            all_read(
                if command->Scan_reverse {
                    rows.reverse()
                } else {
                    rows
                },
            ),
        ) == limited_of(
            scanned(
                rows,
                encoded(command->Scan_start),
                encoded(command->Scan_end),
                command->Scan_reverse,
            ),
            routing_of(command).0,
            routing_of(command).1,
        ),
{
    let criterion = criterion_of(command);
    if command->Scan_reverse {
        lemma_all_read_are_readable(rows.reverse());
        lemma_selection_of_reversed(rows, criterion);
    } else {
        lemma_all_read_are_readable(rows);
    }
}

} // verus!
