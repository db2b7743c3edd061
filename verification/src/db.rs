//! The store browser: which column family is active, and what each command
//! makes of what the store hands back. The store itself is reached by the
//! caller; the browser works on the pairs and lookups it is given.

use vstd::prelude::*;
use vstd::string::StringSliceAdditionalSpecFns;
use vstd::utf8::{decode_utf8, valid_utf8};
use crate::highlight::{highlight_pattern, is_highlight_of};
use crate::text::{contains, is_prefix_of, less_than, lex_le, lex_lt, occurs_in, starts_with};

verus! {

/// A key and its value, as the store holds them.
pub type Pair = (Vec<u8>, Vec<u8>);

/// A key and its value as mathematical values.
pub type Row = (Seq<u8>, Seq<u8>);

/// The session's state: where the store lies, which column family is
/// active, and which column families there are.
#[derive(Debug, Clone, PartialEq, Eq)]
pub struct DBHelper {
    pub path: String,
    pub current_cf: String,
    pub cf_list: Vec<String>,
}

/// Which pairs a listing shows.
pub enum Criterion {
    /// Keys from `start` on (inclusive) and before `end` (exclusive).
    Range { start: Option<Seq<u8>>, end: Option<Seq<u8>> },
    /// Keys that begin with the prefix.
    KeyPrefix { prefix: Seq<u8> },
    /// Keys in which the pattern occurs.
    KeyHolds { pattern: Seq<u8> },
    /// Values in which the pattern occurs.
    ValueHolds { pattern: Seq<u8> },
}

/// The key lies within the bounds, of which each may be absent.
pub open spec fn in_range(key: Seq<u8>, start: Option<Seq<u8>>, end: Option<Seq<u8>>) -> bool {
    &&& match start {
        Some(low) => lex_le(low, key),
        None => true,
    }
    &&& match end {
        Some(high) => lex_lt(key, high),
        None => true,
    }
}

/// The pair is one that the listing shows.
pub open spec fn meets(row: Row, criterion: Criterion) -> bool {
    match criterion {
        Criterion::Range { start, end } => in_range(row.0, start, end),
        Criterion::KeyPrefix { prefix } => is_prefix_of(prefix, row.0),
        Criterion::KeyHolds { pattern } => occurs_in(row.0, pattern),
        Criterion::ValueHolds { pattern } => occurs_in(row.1, pattern),
    }
}

/// The test that a criterion puts to each pair.
pub open spec fn test_of(criterion: Criterion) -> spec_fn(Row) -> bool {
    |row: Row| meets(row, criterion)
}

/// The pairs of `rows` that the listing shows, in the order of `rows`.
pub open spec fn selection(rows: Seq<Row>, criterion: Criterion) -> Seq<Row> {
    rows.filter(test_of(criterion))
}

/// The bytes of an optional text.
pub open spec fn bytes_of(text: Option<&str>) -> Option<Seq<u8>> {
    match text {
        Some(t) => Some(t.spec_bytes()),
        None => None,
    }
}

/// The pairs of a range scan: those within the bounds, in the store's order
/// or, for a reverse scan, in the opposite order.
pub open spec fn scanned(
    rows: Seq<Row>,
    start: Option<Seq<u8>>,
    end: Option<Seq<u8>>,
    reverse: bool,
) -> Seq<Row> {
    let chosen = selection(rows, Criterion::Range { start, end });
    if reverse {
        chosen.reverse()
    } else {
        chosen
    }
}

/// `shown` are the pairs `chosen` as a listing displays them: with nothing
/// changed, or with the pattern highlighted in each key, or in each value.
pub open spec fn displays(
    shown: Seq<Row>,
    chosen: Seq<Row>,
    pattern: Seq<char>,
    in_keys: bool,
    in_values: bool,
) -> bool {
    &&& shown.len() == chosen.len()
    &&& forall|i: int|
        0 <= i < shown.len() ==> {
            &&& if in_keys {
                is_highlight_of((#[trigger] shown[i]).0, pattern, chosen[i].0)
            } else {
                shown[i].0 == chosen[i].0
            }
            &&& if in_values {
                is_highlight_of(shown[i].1, pattern, chosen[i].1)
            } else {
                shown[i].1 == chosen[i].1
            }
        }
}

/// What `String::from_utf8_lossy` makes of bytes: their text, with each
/// ill-formed run replaced by U+FFFD.
pub uninterp spec fn lossy_text_of(bytes: Seq<u8>) -> Seq<char>;

/// Calls `String::from_utf8_lossy`. Well-formed UTF-8 is decoded as it is;
/// what becomes of other bytes is named by `lossy_text_of`.
#[verifier::external_body]
pub(crate) fn lossy_text(bytes: &[u8]) -> (text: String)
    ensures
        text@ == lossy_text_of(bytes@),
        valid_utf8(bytes@) ==> text@ == decode_utf8(bytes@),
{
    String::from_utf8_lossy(bytes).into_owned()
}

/// The text that `serde_json::from_str::<String>` reads from a JSON
/// document: `Some` where the document is one string literal, between
/// optional blanks, and then the string it denotes.
pub uninterp spec fn json_string_of(document: Seq<char>) -> Option<Seq<char>>;

/// Calls `serde_json::from_str::<String>`; any error becomes `None`.
#[verifier::external_body]
fn json_string(document: &str) -> (text: Option<String>)
    ensures
        crate::command::text_of(text) == json_string_of(document@),
{
    serde_json::from_str::<String>(document).ok()
}

/// What the store answers to a lookup.
#[derive(Debug, Clone, PartialEq, Eq)]
pub enum Lookup {
    /// The key is there, with this value.
    Found(Vec<u8>),
    /// The key is not there.
    Absent,
    /// The store could not tell.
    Failed,
}

/// What `get` shows.
#[derive(Debug, Clone, PartialEq, Eq)]
pub enum GetReport {
    /// The key is not in the active column family.
    NotFound,
    /// The key and what is shown as its value.
    Row { key: Vec<u8>, value: Vec<u8> },
    /// The value as plain text: it was asked for as JSON and is none.
    Text(String),
}

/// What `get` shows, as a mathematical value.
pub enum GetReportModel {
    NotFound,
    Row { key: Seq<u8>, value: Seq<u8> },
    Text(Seq<char>),
}

impl View for GetReport {
    type V = GetReportModel;

    open spec fn view(&self) -> GetReportModel {
        match *self {
            GetReport::NotFound => GetReportModel::NotFound,
            GetReport::Row { key, value } => GetReportModel::Row { key: key@, value: value@ },
            GetReport::Text(text) => GetReportModel::Text(text@),
        }
    }
}

/// The store failed to answer.
#[derive(Debug, Clone, Copy, PartialEq, Eq, Structural)]
pub struct StoreError;

/// What `get` shows for a value that was asked for as JSON, given the
/// value's text and the string that the text denotes as a JSON document, if
/// it denotes one: the string where there is one, else the text.
pub open spec fn json_report_of(
    key: Seq<u8>,
    text: Seq<char>,
    decoded: Option<Seq<char>>,
) -> GetReportModel {
    match decoded {
        Some(string) => GetReportModel::Row { key, value: vstd::utf8::encode_utf8(string) },
        None => GetReportModel::Text(text),
    }
}

/// What `get` shows for a key and the value found for it.
pub open spec fn get_report_of(key: Seq<u8>, value: Seq<u8>, as_json: bool) -> GetReportModel {
    if !as_json {
        GetReportModel::Row { key, value }
    } else {
        json_report_of(key, lossy_text_of(value), json_string_of(lossy_text_of(value)))
    }
}

/// What `get` shows for a value that was asked for as JSON: the string
/// that its text denotes, or the text itself where it denotes none.
pub fn json_report(key: Vec<u8>, text: String, decoded: Option<String>) -> (report: GetReport)
    ensures
        report@ == json_report_of(key@, text@, crate::command::text_of(decoded)),
{
    match decoded {
        Some(string) => GetReport::Row {
            key,
            value: vstd::string::StrSliceExecFns::as_bytes_vec(string.as_str()),
        },
        None => GetReport::Text(text),
    }
}

/// What `delete` reports.
#[derive(Debug, Clone, Copy, PartialEq, Eq, Structural)]
pub enum DeleteReport {
    /// The key was there and is removed.
    Deleted,
    /// There was no such key to remove.
    NotFound,
}

/// The keys of the first `limit` pairs, as text.
pub open spec fn first_keys(rows: Seq<Row>, limit: int) -> Seq<Seq<char>> {
    let count = if limit < rows.len() {
        limit
    } else {
        rows.len() as int
    };
    Seq::new(count as nat, |i: int| lossy_text_of(rows[i].0))
}

fn copy_of(bytes: &Vec<u8>) -> (copy: Vec<u8>)
    ensures
        copy@ == bytes@,
{
    let mut copy: Vec<u8> = Vec::new();
    copy.extend_from_slice(bytes.as_slice());
    copy
}

/// The test of a listing, ready to be put to pairs.
pub enum Filter<'a> {
    Range { start: Option<&'a [u8]>, end: Option<&'a [u8]> },
    KeyPrefix { prefix: &'a [u8] },
    KeyHolds { pattern: &'a [u8] },
    ValueHolds { pattern: &'a [u8] },
}

/// The view of an optional byte string.
pub open spec fn slice_of(bytes: Option<&[u8]>) -> Option<Seq<u8>> {
    match bytes {
        Some(b) => Some(b@),
        None => None,
    }
}

impl<'a> View for Filter<'a> {
    type V = Criterion;

    open spec fn view(&self) -> Criterion {
        match *self {
            Filter::Range { start, end } => Criterion::Range {
                start: slice_of(start),
                end: slice_of(end),
            },
            Filter::KeyPrefix { prefix } => Criterion::KeyPrefix { prefix: prefix@ },
            Filter::KeyHolds { pattern } => Criterion::KeyHolds { pattern: pattern@ },
            Filter::ValueHolds { pattern } => Criterion::ValueHolds { pattern: pattern@ },
        }
    }
}

impl<'a> Filter<'a> {
    /// Puts the test to one pair.
    pub fn accepts(&self, key: &[u8], value: &[u8]) -> (met: bool)
        ensures
            met == meets((key@, value@), self@),
    {
        match self {
            Filter::Range { start, end } => {
                let above = match start {
                    Some(low) => !less_than(key, low),
                    None => true,
                };
                let below = match end {
                    Some(high) => less_than(key, high),
                    None => true,
                };
                above && below
            },
            Filter::KeyPrefix { prefix } => starts_with(key, prefix),
            Filter::KeyHolds { pattern } => contains(key, pattern),
            Filter::ValueHolds { pattern } => contains(value, pattern),
        }
    }
}

/// The pairs that pass the test, in the order in which they were given.
pub fn select(entries: &Vec<Pair>, filter: &Filter) -> (chosen: Vec<Pair>)
    ensures
        chosen.deep_view() == selection(entries.deep_view(), filter@),
{
    let ghost rows = entries.deep_view();
    let ghost test = test_of(filter@);
    let mut chosen: Vec<Pair> = Vec::new();
    let mut i: usize = 0;
    proof {
        assert(rows.take(0) =~= Seq::<Row>::empty());
        reveal(Seq::filter);
        assert(chosen.deep_view() =~= rows.take(0).filter(test));
    }
    while i < entries.len()
        invariant
            i <= entries.len(),
            rows == entries.deep_view(),
            test == test_of(filter@),
            chosen.deep_view() == rows.take(i as int).filter(test),
        decreases entries.len() - i,
    {
        let entry = &entries[i];
        let met = filter.accepts(entry.0.as_slice(), entry.1.as_slice());
        proof {
            assert(rows[i as int] == (entry.0@, entry.1@));
            assert(rows.take(i + 1) =~= rows.take(i as int).push(rows[i as int]));
            rows.take(i as int).lemma_filter_push(rows[i as int], test);
            assert(met == test(rows[i as int]));
        }
        if met {
            let ghost before = chosen.deep_view();
            let pair: Pair = (copy_of(&entry.0), copy_of(&entry.1));
            chosen.push(pair);
            proof {
                assert(chosen.deep_view() =~= before.push(rows[i as int]));
            }
        }
        i += 1;
    }
    proof {
        assert(rows.take(entries.len() as int) =~= rows);
    }
    chosen
}

/// The pairs that the store could read, in their order; what it failed to
/// read, which stands as `None`, is left out.
pub open spec fn read_pairs_of(items: Seq<Option<Row>>) -> Seq<Row>
    decreases items.len(),
{
    if items.len() == 0 {
        Seq::empty()
    } else {
        match items.last() {
            Some(row) => read_pairs_of(items.drop_last()).push(row),
            None => read_pairs_of(items.drop_last()),
        }
    }
}

/// Leaves out what the store failed to read while it handed its pairs
/// over: such an item is skipped and the listing goes on.
pub fn skip_failed(items: Vec<Option<Pair>>) -> (pairs: Vec<Pair>)
    ensures
        pairs.deep_view() == read_pairs_of(items.deep_view()),
{
    let ghost all = items.deep_view();
    let mut pairs: Vec<Pair> = Vec::new();
    let mut i: usize = 0;
    proof {
        assert(all.take(0) =~= Seq::<Option<Row>>::empty());
        assert(pairs.deep_view() =~= read_pairs_of(all.take(0)));
    }
    while i < items.len()
        invariant
            i <= items.len(),
            all == items.deep_view(),
            pairs.deep_view() == read_pairs_of(all.take(i as int)),
        decreases items.len() - i,
    {
        proof {
            let longer = all.take(i + 1);
            assert(longer.drop_last() =~= all.take(i as int));
            assert(longer.last() == all[i as int]);
        }
        match &items[i] {
            Some(pair) => {
                let ghost before = pairs.deep_view();
                let copy: Pair = (copy_of(&pair.0), copy_of(&pair.1));
                pairs.push(copy);
                proof {
                    assert(pair.0.deep_view() =~= pair.0@);
                    assert(pair.1.deep_view() =~= pair.1@);
                    assert(all[i as int] == Some((pair.0@, pair.1@)));
                    assert(pairs.deep_view() =~= before.push((pair.0@, pair.1@)));
                }
            },
            None => {
                proof {
                    assert(all[i as int] is None);
                }
            },
        }
        i += 1;
    }
    proof {
        assert(all.take(items.len() as int) =~= all);
    }
    pairs
}

/// The same pairs in the opposite order.
pub fn reversed(entries: Vec<Pair>) -> (turned: Vec<Pair>)
    ensures
        turned.deep_view() == entries.deep_view().reverse(),
{
    let ghost rows = entries.deep_view();
    let mut rest = entries;
    let mut turned: Vec<Pair> = Vec::new();
    while rest.len() > 0
        invariant
            rest.len() <= rows.len(),
            turned.len() == rows.len() - rest.len(),
            forall|j: int| 0 <= j < rest.len() ==> (#[trigger] rest.deep_view()[j]) == rows[j],
            forall|j: int|
                0 <= j < turned.len() ==> (#[trigger] turned.deep_view()[j]) == rows[rows.len() - 1
                    - j],
        decreases rest.len(),
    {
        let ghost before = turned.deep_view();
        let ghost left = rest.deep_view();
        let pair = rest.pop().unwrap();
        turned.push(pair);
        proof {
            assert((pair.0@, pair.1@) == left[left.len() - 1]);
            assert(turned.deep_view() =~= before.push((pair.0@, pair.1@)));
            assert forall|j: int| 0 <= j < rest.len() implies (#[trigger] rest.deep_view()[j])
                == rows[j] by {
                assert(rest.deep_view()[j] == left[j]);
            }
        }
    }
    proof {
        assert(turned.deep_view() =~= rows.reverse());
    }
    turned
}

/// Highlights the pattern in the key of each pair, or in the value of each.
pub fn highlight_side(rows: Vec<Pair>, pattern: &str, in_keys: bool) -> (shown: Vec<Pair>)
    ensures
        displays(shown.deep_view(), rows.deep_view(), pattern@, in_keys, !in_keys),
{
    let mut shown: Vec<Pair> = Vec::new();
    let mut i: usize = 0;
    while i < rows.len()
        invariant
            i <= rows.len(),
            displays(shown.deep_view(), rows.deep_view().take(i as int), pattern@, in_keys, !in_keys),
        decreases rows.len() - i,
    {
        let ghost before = shown.deep_view();
        let key = copy_of(&rows[i].0);
        let value = copy_of(&rows[i].1);
        let pair: Pair = if in_keys {
            (highlight_pattern(pattern, key), value)
        } else {
            (key, highlight_pattern(pattern, value))
        };
        shown.push(pair);
        proof {
            let now = shown.deep_view();
            let chosen = rows.deep_view().take(i + 1);
            assert(pair.0.deep_view() =~= pair.0@);
            assert(pair.1.deep_view() =~= pair.1@);
            assert(rows@[i as int].0.deep_view() =~= rows@[i as int].0@);
            assert(rows@[i as int].1.deep_view() =~= rows@[i as int].1@);
            assert(chosen[i as int] == (rows@[i as int].0@, rows@[i as int].1@));
            assert(now =~= before.push((pair.0@, pair.1@)));
            assert forall|j: int| 0 <= j < now.len() implies {
                &&& if in_keys {
                    is_highlight_of((#[trigger] now[j]).0, pattern@, chosen[j].0)
                } else {
                    now[j].0 == chosen[j].0
                }
                &&& if !in_keys {
                    is_highlight_of(now[j].1, pattern@, chosen[j].1)
                } else {
                    now[j].1 == chosen[j].1
                }
            } by {
                if j < i {
                    assert(now[j] == before[j]);
                    assert(chosen[j] == rows.deep_view().take(i as int)[j]);
                }
            }
        }
        i += 1;
    }
    proof {
        assert(rows.deep_view().take(rows.len() as int) =~= rows.deep_view());
    }
    shown
}

impl DBHelper {
    /// The active column family is one of those known, or, where none is
    /// known, has the empty name.
    pub open spec fn wf(&self) -> bool {
        if self.cf_list.len() == 0 {
            self.current_cf@.len() == 0
        } else {
            self.cf_list.deep_view().contains(self.current_cf@)
        }
    }

    /// The state at the start of a session: the first column family of the
    /// store is the active one.
    pub fn new(path: &str, cf_list: Vec<String>) -> (helper: DBHelper)
        ensures
            helper.wf(),
            helper.path@ == path@,
            helper.cf_list == cf_list,
            cf_list.len() > 0 ==> helper.current_cf@ == cf_list.deep_view()[0],
            cf_list.len() == 0 ==> helper.current_cf@.len() == 0,
    {
        let current_cf = if cf_list.len() == 0 {
            String::new()
        } else {
            cf_list[0].clone()
        };
        proof {
            if cf_list.len() > 0 {
                assert(cf_list.deep_view()[0] == current_cf@);
            }
        }
        DBHelper { path: path.to_string(), current_cf, cf_list }
    }

    /// The names of all column families.
    pub fn get_cfs_names(&self) -> (names: Vec<String>)
        ensures
            names.deep_view() == self.cf_list.deep_view(),
    {
        let mut names: Vec<String> = Vec::new();
        let mut i: usize = 0;
        while i < self.cf_list.len()
            invariant
                i <= self.cf_list.len(),
                names.len() == i,
                forall|j: int| 0 <= j < i ==> (#[trigger] names@[j])@ == self.cf_list@[j]@,
            decreases self.cf_list.len() - i,
        {
            names.push(self.cf_list[i].clone());
            i += 1;
        }
        proof {
            assert(names.deep_view() =~= self.cf_list.deep_view());
        }
        names
    }

    /// Tells whether a column family of that name is known.
    pub fn knows(&self, name: &str) -> (known: bool)
        ensures
            known == self.cf_list.deep_view().contains(name@),
    {
        let mut i: usize = 0;
        while i < self.cf_list.len()
            invariant
                i <= self.cf_list.len(),
                forall|j: int| 0 <= j < i ==> self.cf_list.deep_view()[j] != name@,
            decreases self.cf_list.len() - i,
        {
            if crate::text::same_text(self.cf_list[i].as_str(), name) {
                proof {
                    assert(self.cf_list.deep_view()[i as int] == name@);
                }
                return true;
            }
            i += 1;
        }
        false
    }

    /// What is shown for a key, given the store's answer for it in the
    /// active column family. A key that is not there is reported as such
    /// and is no error; only the store's failure is one.
    pub fn get(&self, key: &str, found: Lookup, as_json: bool) -> (report: Result<
        GetReport,
        StoreError,
    >)
        ensures
            match found {
                Lookup::Failed => report is Err,
                Lookup::Absent => report is Ok && report.unwrap()@ == GetReportModel::NotFound,
                Lookup::Found(value) => report is Ok && report.unwrap()@ == get_report_of(
                    key.spec_bytes(),
                    value@,
                    as_json,
                ),
            },
    {
        match found {
            Lookup::Failed => Err(StoreError),
            Lookup::Absent => Ok(GetReport::NotFound),
            Lookup::Found(value) => {
                let key_bytes = vstd::string::StrSliceExecFns::as_bytes_vec(key);
                if as_json {
                    let text = lossy_text(value.as_slice());
                    let decoded = json_string(text.as_str());
                    Ok(json_report(key_bytes, text, decoded))
                } else {
                    Ok(GetReport::Row { key: key_bytes, value })
                }
            },
        }
    }

    /// The first keys of the active column family, at most `limit` of them,
    /// as text.
    pub fn get_keys(&self, entries: &Vec<Pair>, limit: usize) -> (keys: Vec<String>)
        ensures
            keys.deep_view() == first_keys(entries.deep_view(), limit as int),
    {
        let count: usize = if limit < entries.len() {
            limit
        } else {
            entries.len()
        };
        let mut keys: Vec<String> = Vec::new();
        let mut i: usize = 0;
        while i < count
            invariant
                i <= count <= entries.len(),
                keys.len() == i,
                forall|j: int|
                    0 <= j < i ==> (#[trigger] keys@[j])@ == lossy_text_of(
                        entries.deep_view()[j].0,
                    ),
            decreases count - i,
        {
            keys.push(lossy_text(entries[i].0.as_slice()));
            proof {
                assert(entries@[i as int].0.deep_view() =~= entries@[i as int].0@);
            }
            i += 1;
        }
        proof {
            assert(keys.deep_view() =~= first_keys(entries.deep_view(), limit as int));
        }
        keys
    }

    /// The pair that `put` writes into the active column family: the bytes
    /// of the key and of the value, unchanged.
    pub fn put(&self, key: &str, value: &str) -> (pair: Pair)
        ensures
            pair.0@ == key.spec_bytes(),
            pair.1@ == value.spec_bytes(),
    {
        (
            vstd::string::StrSliceExecFns::as_bytes_vec(key),
            vstd::string::StrSliceExecFns::as_bytes_vec(value),
        )
    }

    /// The pairs whose key begins with the prefix, the prefix highlighted
    /// in each key where that is asked for.
    pub fn prefix(&self, entries: &Vec<Pair>, prefix: &str, highlight_matched: bool) -> (shown:
        Vec<Pair>)
        ensures
            displays(
                shown.deep_view(),
                selection(
                    entries.deep_view(),
                    Criterion::KeyPrefix { prefix: prefix.spec_bytes() },
                ),
                prefix@,
                highlight_matched,
                false,
            ),
    {
        let chosen = select(entries, &Filter::KeyPrefix { prefix: prefix.as_bytes() });
        if highlight_matched {
            highlight_side(chosen, prefix, true)
        } else {
            chosen
        }
    }

    /// Tells whether the key is there, given the store's answer to a
    /// lookup. A key that is not there is no error; the store's failure to
    /// answer is one.
    pub fn contains_stringkey(&self, found: &Lookup) -> (present: Result<bool, StoreError>)
        ensures
            present == match *found {
                Lookup::Found(_) => Ok::<bool, StoreError>(true),
                Lookup::Absent => Ok::<bool, StoreError>(false),
                Lookup::Failed => Err::<bool, StoreError>(StoreError),
            },
    {
        match found {
            Lookup::Found(_) => Ok(true),
            Lookup::Absent => Ok(false),
            Lookup::Failed => Err(StoreError),
        }
    }

    /// The pairs in whose key the pattern occurs. Where highlighting is
    /// asked for, the pattern is highlighted in each value, not in the key.
    pub fn search_key(&self, entries: &Vec<Pair>, pattern: &str, highlight_matched: bool) -> (shown:
        Vec<Pair>)
        ensures
            displays(
                shown.deep_view(),
                selection(
                    entries.deep_view(),
                    Criterion::KeyHolds { pattern: pattern.spec_bytes() },
                ),
                pattern@,
                false,
                highlight_matched,
            ),
    {
        let chosen = select(entries, &Filter::KeyHolds { pattern: pattern.as_bytes() });
        if highlight_matched {
            highlight_side(chosen, pattern, false)
        } else {
            chosen
        }
    }

    /// The pairs in whose value the pattern occurs, the pattern highlighted
    /// in each value where that is asked for.
    pub fn search_value(&self, entries: &Vec<Pair>, pattern: &str, highlight_matched: bool) -> (shown:
        Vec<Pair>)
        ensures
            displays(
                shown.deep_view(),
                selection(
                    entries.deep_view(),
                    Criterion::ValueHolds { pattern: pattern.spec_bytes() },
                ),
                pattern@,
                false,
                highlight_matched,
            ),
    {
        let chosen = select(entries, &Filter::ValueHolds { pattern: pattern.as_bytes() });
        if highlight_matched {
            highlight_side(chosen, pattern, false)
        } else {
            chosen
        }
    }

    /// What is reported of a deletion, given whether the key was there
    /// before and whether the store carried the removal out. A removal that
    /// the store rejects, as a store opened for reading only does, is the
    /// store's failure and an error. A removal that the store carried out
    /// is reported as a deletion where the key was there and as "not found"
    /// where it was not; the latter is no error.
    pub fn delete(&self, key: &str, present: bool, removed: bool) -> (report: Result<
        DeleteReport,
        StoreError,
    >)
        ensures
            !removed ==> report is Err,
            removed ==> report == Ok::<DeleteReport, StoreError>(
                if present {
                    DeleteReport::Deleted
                } else {
                    DeleteReport::NotFound
                },
            ),
    {
        if !removed {
            Err(StoreError)
        } else if present {
            Ok(DeleteReport::Deleted)
        } else {
            Ok(DeleteReport::NotFound)
        }
    }

    /// The pairs of a range scan over the pairs of the active column
    /// family, which are given in the store's order.
    pub fn scan(
        &self,
        entries: &Vec<Pair>,
        start: Option<&str>,
        end: Option<&str>,
        reverse: bool,
    ) -> (shown: Vec<Pair>)
        ensures
            shown.deep_view() == scanned(
                entries.deep_view(),
                bytes_of(start),
                bytes_of(end),
                reverse,
            ),
    {
        let low: Option<&[u8]> = match start {
            Some(text) => Some(text.as_bytes()),
            None => None,
        };
        let high: Option<&[u8]> = match end {
            Some(text) => Some(text.as_bytes()),
            None => None,
        };
        let chosen = select(entries, &Filter::Range { start: low, end: high });
        if reverse {
            reversed(chosen)
        } else {
            chosen
        }
    }
}

/// The keys stand in strictly ascending order, as the store hands its
/// pairs over.
pub open spec fn ascending(rows: Seq<Row>) -> bool {
    forall|i: int, j: int|
        0 <= i < j < rows.len() ==> lex_lt((#[trigger] rows[i]).0, (#[trigger] rows[j]).0)
}

/// The keys stand in strictly descending order.
pub open spec fn descending(rows: Seq<Row>) -> bool {
    forall|i: int, j: int|
        0 <= i < j < rows.len() ==> lex_lt((#[trigger] rows[j]).0, (#[trigger] rows[i]).0)
}

/// A selection holds exactly the pairs that meet the criterion, and keeps
/// the store's ascending order.
pub proof fn lemma_selection_is_exact(rows: Seq<Row>, criterion: Criterion)
    ensures
        forall|i: int|
            0 <= i < selection(rows, criterion).len() ==> meets(
                #[trigger] selection(rows, criterion)[i],
                criterion,
            ) && rows.contains(selection(rows, criterion)[i]),
        forall|i: int|
            0 <= i < rows.len() && meets(rows[i], criterion) ==> selection(
                rows,
                criterion,
            ).contains(#[trigger] rows[i]),
        ascending(rows) ==> ascending(selection(rows, criterion)),
    decreases rows.len(),
{
    reveal(Seq::filter);
    let test = test_of(criterion);
    let chosen = selection(rows, criterion);
    if rows.len() == 0 {
    } else {
        let init = rows.drop_last();
        let last = rows.last();
        let inner = selection(init, criterion);
        lemma_selection_is_exact(init, criterion);
        assert(chosen == if test(last) {
            inner.push(last)
        } else {
            inner
        });
        assert forall|i: int| 0 <= i < chosen.len() implies meets(#[trigger] chosen[i], criterion)
            && rows.contains(chosen[i]) by {
            if i < inner.len() {
                assert(chosen[i] == inner[i]);
                assert(init.contains(inner[i]));
                let k = choose|k: int| 0 <= k < init.len() && init[k] == inner[i];
                assert(rows[k] == inner[i]);
            } else {
                assert(chosen[i] == last);
                assert(rows[rows.len() - 1] == last);
            }
        }
        assert forall|i: int| 0 <= i < rows.len() && meets(rows[i], criterion) implies chosen.contains(
            #[trigger] rows[i],
        ) by {
            if i < init.len() {
                assert(init[i] == rows[i]);
                assert(inner.contains(init[i]));
                let k = choose|k: int| 0 <= k < inner.len() && inner[k] == init[i];
                assert(chosen[k] == rows[i]);
            } else {
                assert(test(last));
                assert(chosen[chosen.len() - 1] == rows[i]);
            }
        }
        if ascending(rows) {
            assert(ascending(init)) by {
                assert forall|i: int, j: int| 0 <= i < j < init.len() implies lex_lt(
                    (#[trigger] init[i]).0,
                    (#[trigger] init[j]).0,
                ) by {
                    assert(init[i] == rows[i] && init[j] == rows[j]);
                }
            }
            assert forall|i: int, j: int| 0 <= i < j < chosen.len() implies lex_lt(
                (#[trigger] chosen[i]).0,
                (#[trigger] chosen[j]).0,
            ) by {
                if j < inner.len() {
                    assert(chosen[i] == inner[i] && chosen[j] == inner[j]);
                } else {
                    assert(chosen[j] == last);
                    assert(chosen[i] == inner[i]);
                    assert(init.contains(inner[i]));
                    let k = choose|k: int| 0 <= k < init.len() && init[k] == inner[i];
                    assert(rows[k] == inner[i]);
                    assert(rows[rows.len() - 1] == last);
                }
            }
        }
    }
}

/// A range scan over pairs in the store's order shows exactly the pairs
/// whose key lies within the bounds: in ascending order, or, for a reverse
/// scan, in descending order.
pub proof fn lemma_scan_is_exact(
    rows: Seq<Row>,
    start: Option<Seq<u8>>,
    end: Option<Seq<u8>>,
    reverse: bool,
)
    requires
        ascending(rows),
    ensures
        forall|i: int|
            0 <= i < scanned(rows, start, end, reverse).len() ==> in_range(
                (#[trigger] scanned(rows, start, end, reverse)[i]).0,
                start,
                end,
            ) && rows.contains(scanned(rows, start, end, reverse)[i]),
        forall|i: int|
            0 <= i < rows.len() && in_range(rows[i].0, start, end) ==> scanned(
                rows,
                start,
                end,
                reverse,
            ).contains(#[trigger] rows[i]),
        !reverse ==> ascending(scanned(rows, start, end, reverse)),
        reverse ==> descending(scanned(rows, start, end, reverse)),
{
    let criterion = Criterion::Range { start, end };
    let chosen = selection(rows, criterion);
    let shown = scanned(rows, start, end, reverse);
    lemma_selection_is_exact(rows, criterion);
    if reverse {
        assert(shown.len() == chosen.len());
        assert forall|i: int| 0 <= i < shown.len() implies in_range(
            (#[trigger] shown[i]).0,
            start,
            end,
        ) && rows.contains(shown[i]) by {
            assert(shown[i] == chosen[chosen.len() - 1 - i]);
            assert(meets(chosen[chosen.len() - 1 - i], criterion));
        }
        assert forall|i: int| 0 <= i < rows.len() && in_range(rows[i].0, start, end) implies shown.contains(
            #[trigger] rows[i],
        ) by {
            assert(meets(rows[i], criterion));
            assert(chosen.contains(rows[i]));
            let k = choose|k: int| 0 <= k < chosen.len() && chosen[k] == rows[i];
            assert(shown[chosen.len() - 1 - k] == rows[i]);
        }
        assert forall|i: int, j: int| 0 <= i < j < shown.len() implies lex_lt(
            (#[trigger] shown[j]).0,
            (#[trigger] shown[i]).0,
        ) by {
            let a = chosen.len() - 1 - j;
            let b = chosen.len() - 1 - i;
            assert(shown[j] == chosen[a] && shown[i] == chosen[b]);
            assert(lex_lt(chosen[a].0, chosen[b].0));
        }
    } else {
        assert forall|i: int| 0 <= i < shown.len() implies in_range(
            (#[trigger] shown[i]).0,
            start,
            end,
        ) && rows.contains(shown[i]) by {
            assert(meets(chosen[i], criterion));
        }
        assert forall|i: int| 0 <= i < rows.len() && in_range(rows[i].0, start, end) implies shown.contains(
            #[trigger] rows[i],
        ) by {
            assert(meets(rows[i], criterion));
        }
    }
}

/// Selecting from pairs handed over from the last to the first gives the
/// selection in the opposite order: a reverse scan may be taken pair by
/// pair from a store that is read backwards.
pub proof fn lemma_selection_of_reversed(rows: Seq<Row>, criterion: Criterion)
    ensures
        selection(rows.reverse(), criterion) == selection(rows, criterion).reverse(),
    decreases rows.len(),
{
    reveal(Seq::filter);
    let test = test_of(criterion);
    if rows.len() == 0 {
        assert(rows.reverse() =~= rows);
        assert(selection(rows, criterion).reverse() =~= selection(rows, criterion));
    } else {
        let init = rows.drop_last();
        let last = rows.last();
        lemma_selection_of_reversed(init, criterion);
        let one = seq![last];
        assert(rows.reverse() =~= one + init.reverse());
        Seq::filter_distributes_over_add(one, init.reverse(), test);
        assert(one =~= Seq::<Row>::empty().push(last));
        Seq::<Row>::empty().lemma_filter_push(last, test);
        assert(Seq::<Row>::empty().filter(test) =~= Seq::<Row>::empty());
        let inner = init.filter(test);
        if test(last) {
            assert(one.filter(test) =~= one);
            assert(inner.push(last).reverse() =~= one + inner.reverse());
        } else {
            assert(one.filter(test) =~= Seq::<Row>::empty());
            assert(Seq::<Row>::empty() + inner.reverse() =~= inner.reverse());
        }
    }
}

/// A column family as a mathematical value: each key has one value.
pub type Family = Map<Seq<u8>, Seq<u8>>;

/// The column family after a pair was written: the key has the new value,
/// all other keys are as before.
pub open spec fn after_put(family: Family, pair: Row) -> Family {
    family.insert(pair.0, pair.1)
}

/// The store's answer to a lookup.
pub open spec fn looked_up(family: Family, key: Seq<u8>) -> Option<Seq<u8>> {
    if family.contains_key(key) {
        Some(family[key])
    } else {
        None
    }
}

/// The pair that `put` writes for a key and a value.
pub open spec fn put_row(key: Seq<char>, value: Seq<char>) -> Row {
    (vstd::utf8::encode_utf8(key), vstd::utf8::encode_utf8(value))
}

/// What is written by `put` is what a plain `get` of the same key shows,
/// byte for byte, whatever the column family held before.
pub proof fn lemma_get_after_put(family: Family, key: Seq<char>, value: Seq<char>)
    ensures
        looked_up(after_put(family, put_row(key, value)), vstd::utf8::encode_utf8(key)) == Some(
            vstd::utf8::encode_utf8(value),
        ),
        get_report_of(
            vstd::utf8::encode_utf8(key),
            looked_up(after_put(family, put_row(key, value)), vstd::utf8::encode_utf8(key)).unwrap(),
            false,
        ) == (GetReportModel::Row {
            key: vstd::utf8::encode_utf8(key),
            value: vstd::utf8::encode_utf8(value),
        }),
{
}

} // verus!
