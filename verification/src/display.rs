//! What a listing shows: keys and values as text, rows in batches for the
//! table, lines for a file.

use vstd::prelude::*;
use vstd::string::StringExecFns;
use vstd::utf8::{decode_utf8, valid_utf8};
use crate::command::text_of;
use crate::db::{lossy_text, lossy_text_of, Pair, Row};
use crate::highlight::is_utf8;
use crate::text::same_text;

verus! {

/// A row of text: what is shown for a key and for its value.
pub type TextRow = (String, String);

/// A row of text as a mathematical value.
pub type TextRowModel = (Seq<char>, Seq<char>);

/// The number of rows after which the table is printed and emptied.
pub const BATCH_ROWS: usize = 100;

/// The sixteen hexadecimal digits, lower case.
pub open spec fn hex_digits() -> Seq<char> {
    seq!['0', '1', '2', '3', '4', '5', '6', '7', '8', '9', 'a', 'b', 'c', 'd', 'e', 'f']
}

/// Bytes in hexadecimal: two lower-case digits for each byte, the high
/// half first.
pub open spec fn hex_of(bytes: Seq<u8>) -> Seq<char> {
    Seq::new(
        2 * bytes.len(),
        |i: int|
            if i % 2 == 0 {
                hex_digits()[bytes[i / 2] as int / 16]
            } else {
                hex_digits()[bytes[i / 2] as int % 16]
            },
    )
}

/// Calls `hex::encode`, which writes each byte as two lower-case
/// hexadecimal digits.
#[verifier::external_body]
fn hex_text(bytes: &[u8]) -> (text: String)
    ensures
        text@ == hex_of(bytes@),
{
    hex::encode(bytes)
}

/// What `unescaper::unescape` makes of a text: the text with each escape
/// sequence (`\n`, `\t`, `\"`, `\\`, `\u{41}`, `\x41`, octal and the like)
/// replaced by the character it denotes, or `None` where a backslash begins
/// no complete escape sequence.
pub uninterp spec fn unescaped_of(text: Seq<char>) -> Option<Seq<char>>;

/// Calls `unescaper::unescape`; any error becomes `None`. A text without a
/// backslash comes back as it is.
#[verifier::external_body]
fn unescaped(text: &str) -> (plain: Option<String>)
    ensures
        text_of(plain) == unescaped_of(text@),
        !text@.contains('\\') ==> text_of(plain) == Some(text@),
{
    unescaper::unescape(text).ok()
}

/// The text as it is shown, given what resolving its escape sequences
/// gave: the resolved text, or the text as it is where they cannot be
/// resolved.
pub open spec fn resolved_of(text: Seq<char>, plain: Option<Seq<char>>) -> Seq<char> {
    match plain {
        Some(resolved) => resolved,
        None => text,
    }
}

/// The text with its escape sequences resolved, or as it is where they
/// cannot be.
pub open spec fn readable_of(text: Seq<char>) -> Seq<char> {
    resolved_of(text, unescaped_of(text))
}

/// What a listing shows for a value: its text with escape sequences
/// resolved, or, for bytes that are no UTF-8, a marker and the bytes in
/// hexadecimal.
pub open spec fn value_text_of(value: Seq<u8>) -> Seq<char> {
    if valid_utf8(value) {
        readable_of(decode_utf8(value))
    } else {
        "[BINARY] "@ + hex_of(value)
    }
}

/// The row that a listing shows for a pair.
pub open spec fn list_row_of(row: Row) -> TextRowModel {
    (lossy_text_of(row.0), value_text_of(row.1))
}

/// The row that is shown for a single pair.
pub open spec fn single_row_of(row: Row) -> TextRowModel {
    (lossy_text_of(row.0), readable_of(lossy_text_of(row.1)))
}

/// The line that is written to a file for a pair.
pub open spec fn output_line_of(row: Row) -> Seq<char> {
    lossy_text_of(row.0) + ": "@ + lossy_text_of(row.1)
}

/// The text as it is shown, given what resolving its escape sequences gave.
pub fn resolved(text: String, plain: Option<String>) -> (shown: String)
    ensures
        shown@ == resolved_of(text@, text_of(plain)),
{
    match plain {
        Some(resolved) => resolved,
        None => text,
    }
}

/// The text with its escape sequences resolved, or as it is where they
/// cannot be.
pub fn readable(text: String) -> (shown: String)
    ensures
        shown@ == readable_of(text@),
        !text@.contains('\\') ==> shown@ == text@,
{
    let plain = unescaped(text.as_str());
    resolved(text, plain)
}

/// What a listing shows for a value.
pub fn value_text(value: &[u8]) -> (text: String)
    ensures
        text@ == value_text_of(value@),
{
    if is_utf8(value) {
        readable(lossy_text(value))
    } else {
        let mut text = String::from_str("[BINARY] ");
        let hex = hex_text(value);
        text.append(hex.as_str());
        text
    }
}

/// The row shown for a single pair, as `get` displays it.
pub fn key_value_row(key: &[u8], value: &[u8]) -> (row: TextRow)
    ensures
        (row.0@, row.1@) == single_row_of((key@, value@)),
{
    (lossy_text(key), readable(lossy_text(value)))
}

/// The line written to a file for a pair: key, colon, blank, value.
pub fn output_line(key: &[u8], value: &[u8]) -> (line: String)
    ensures
        line@ == output_line_of((key@, value@)),
{
    let mut line = lossy_text(key);
    line.append(": ");
    let shown = lossy_text(value);
    line.append(shown.as_str());
    line
}

/// The lines written to a file for a listing, one for each pair.
pub fn output_lines(entries: &Vec<Pair>) -> (lines: Vec<String>)
    ensures
        lines.deep_view() == entries.deep_view().map_values(|row: Row| output_line_of(row)),
{
    let mut lines: Vec<String> = Vec::new();
    let mut i: usize = 0;
    while i < entries.len()
        invariant
            i <= entries.len(),
            lines.len() == i,
            forall|j: int|
                0 <= j < i ==> (#[trigger] lines@[j])@ == output_line_of(entries.deep_view()[j]),
        decreases entries.len() - i,
    {
        let line = output_line(entries[i].0.as_slice(), entries[i].1.as_slice());
        proof {
            assert(entries@[i as int].0.deep_view() =~= entries@[i as int].0@);
            assert(entries@[i as int].1.deep_view() =~= entries@[i as int].1@);
        }
        lines.push(line);
        i += 1;
    }
    proof {
        assert(lines.deep_view() =~= entries.deep_view().map_values(
            |row: Row| output_line_of(row),
        ));
    }
    lines
}

/// The number of batches that `len` rows make.
pub open spec fn batch_count(len: nat) -> nat {
    (len + BATCH_ROWS - 1) as nat / (BATCH_ROWS as nat)
}

/// The rows in batches: each batch but the last holds `BATCH_ROWS` rows, the
/// last holds the rest, and no batch is empty.
pub open spec fn batches_of(rows: Seq<TextRowModel>) -> Seq<Seq<TextRowModel>> {
    Seq::new(
        batch_count(rows.len()),
        |b: int|
            rows.subrange(
                b * BATCH_ROWS,
                if (b + 1) * BATCH_ROWS <= rows.len() {
                    (b + 1) * BATCH_ROWS
                } else {
                    rows.len() as int
                },
            ),
    )
}

/// No batch is empty or holds more than `BATCH_ROWS` rows, and the batches
/// hold every row once, in order: row `i` is row `i % BATCH_ROWS` of batch
/// `i / BATCH_ROWS`.
pub proof fn lemma_batches_hold_every_row(rows: Seq<TextRowModel>)
    ensures
        forall|b: int|
            0 <= b < batches_of(rows).len() ==> 0 < (#[trigger] batches_of(rows)[b]).len()
                <= BATCH_ROWS,
        forall|i: int|
            0 <= i < rows.len() ==> i / (BATCH_ROWS as int) < batches_of(rows).len()
                && batches_of(rows)[i / (BATCH_ROWS as int)][i % (BATCH_ROWS as int)]
                == #[trigger] rows[i],
        rows.len() == 0 <==> batches_of(rows).len() == 0,
{
}

/// The rows that a listing shows for the pairs, in the same order.
pub open spec fn list_rows_of(rows: Seq<Row>) -> Seq<TextRowModel> {
    rows.map_values(|row: Row| list_row_of(row))
}

/// The view of batches of rows.
pub open spec fn batches_view(batches: Seq<Vec<TextRow>>) -> Seq<Seq<TextRowModel>> {
    batches.map_values(|batch: Vec<TextRow>| batch.deep_view())
}

/// The rows of a listing, in the batches in which the table is printed.
pub fn key_value_batches(entries: &Vec<Pair>) -> (batches: Vec<Vec<TextRow>>)
    ensures
        batches_view(batches@) == batches_of(list_rows_of(entries.deep_view())),
{
    let ghost rows = list_rows_of(entries.deep_view());
    let mut batches: Vec<Vec<TextRow>> = Vec::new();
    let mut batch: Vec<TextRow> = Vec::new();
    let mut i: usize = 0;
    while i < entries.len()
        invariant
            i <= entries.len(),
            rows == list_rows_of(entries.deep_view()),
            rows.len() == entries.len(),
            batch.len() < BATCH_ROWS,
            i == batches.len() * BATCH_ROWS + batch.len(),
            forall|b: int|
                0 <= b < batches.len() ==> (#[trigger] batches@[b]).deep_view() == rows.subrange(
                    b * BATCH_ROWS,
                    (b + 1) * BATCH_ROWS,
                ),
            batch.deep_view() == rows.subrange(batches.len() * BATCH_ROWS, i as int),
        decreases entries.len() - i,
    {
        let ghost before = batch.deep_view();
        let key = lossy_text(entries[i].0.as_slice());
        let value = value_text(entries[i].1.as_slice());
        proof {
            assert(entries@[i as int].0.deep_view() =~= entries@[i as int].0@);
            assert(entries@[i as int].1.deep_view() =~= entries@[i as int].1@);
            assert(rows[i as int] == (key@, value@));
        }
        batch.push((key, value));
        proof {
            assert(batch.deep_view() =~= before.push((key@, value@)));
            assert(batch.deep_view() =~= rows.subrange(batches.len() * BATCH_ROWS, i + 1));
        }
        i += 1;
        if batch.len() == BATCH_ROWS {
            let ghost done = batches@;
            let mut full: Vec<TextRow> = Vec::new();
            std::mem::swap(&mut batch, &mut full);
            batches.push(full);
            proof {
                assert(batch.deep_view() =~= rows.subrange(i as int, i as int));
                assert forall|b: int| 0 <= b < batches.len() implies (#[trigger] batches@[b]).deep_view()
                    == rows.subrange(b * BATCH_ROWS, (b + 1) * BATCH_ROWS) by {
                    if b < done.len() {
                        assert(batches@[b] == done[b]);
                    }
                }
            }
        }
    }
    let ghost whole = batches@;
    let ghost rest = batch.deep_view();
    if batch.len() > 0 {
        batches.push(batch);
    }
    proof {
        let made = batches_view(batches@);
        let wanted = batches_of(rows);
        assert(made.len() == wanted.len());
        assert forall|b: int| 0 <= b < made.len() implies made[b] == wanted[b] by {
            if b < whole.len() {
                assert(batches@[b] == whole[b]);
            }
        }
        assert(made =~= wanted);
    }
    batches
}

/// A column family in the list of all: its name, and whether it is the
/// active one.
pub type FamilyRow = (String, bool);

/// The list of column families, the active one flagged.
pub open spec fn family_rows_of(names: Seq<Seq<char>>, current: Seq<char>) -> Seq<
    (Seq<char>, bool),
> {
    names.map_values(|name: Seq<char>| (name, name == current))
}

/// The view of a list of column families.
pub open spec fn family_rows_view(rows: Seq<FamilyRow>) -> Seq<(Seq<char>, bool)> {
    rows.map_values(|row: FamilyRow| (row.0@, row.1))
}

/// The rows of the list of column families.
pub fn column_family_rows(cfs: &Vec<String>, current: &str) -> (rows: Vec<FamilyRow>)
    ensures
        family_rows_view(rows@) == family_rows_of(cfs.deep_view(), current@),
{
    let mut rows: Vec<FamilyRow> = Vec::new();
    let mut i: usize = 0;
    while i < cfs.len()
        invariant
            i <= cfs.len(),
            rows.len() == i,
            forall|j: int|
                0 <= j < i ==> (#[trigger] rows@[j]).0@ == cfs@[j]@ && rows@[j].1 == (cfs@[j]@
                    == current@),
        decreases cfs.len() - i,
    {
        let active = same_text(cfs[i].as_str(), current);
        rows.push((cfs[i].clone(), active));
        i += 1;
    }
    proof {
        assert(family_rows_view(rows@) =~= family_rows_of(cfs.deep_view(), current@));
    }
    rows
}

/// What the store reports of itself; each property may be absent.
#[derive(Debug, Clone, PartialEq, Eq)]
pub struct StoreProperties {
    pub creation_time: Option<String>,
    pub version: Option<String>,
    pub level0_files: Option<String>,
    pub sst_size: Option<String>,
}

/// A row of the description, or nothing where the property is absent.
pub open spec fn property_row(name: Seq<char>, value: Option<Seq<char>>) -> Seq<TextRowModel> {
    match value {
        Some(text) => seq![(name, text)],
        None => Seq::empty(),
    }
}

/// A size as the description shows it.
pub open spec fn size_text(value: Option<Seq<char>>) -> Option<Seq<char>> {
    match value {
        Some(text) => Some(text + " bytes"@),
        None => None,
    }
}

/// The description of the store: its path, the active column family, and
/// each property that the store reports, in a fixed order.
pub open spec fn info_rows_of(
    path: Seq<char>,
    current_cf: Seq<char>,
    creation_time: Option<Seq<char>>,
    version: Option<Seq<char>>,
    level0_files: Option<Seq<char>>,
    sst_size: Option<Seq<char>>,
) -> Seq<TextRowModel> {
    seq![("Path"@, path), ("Current Column Family"@, current_cf)] + property_row(
        "Creation Time"@,
        creation_time,
    ) + property_row("Version"@, version) + property_row("L0 Files"@, level0_files) + property_row(
        "Total SST Size"@,
        size_text(sst_size),
    )
}

fn push_property(rows: &mut Vec<TextRow>, name: &str, value: &Option<String>)
    ensures
        final(rows).deep_view() == old(rows).deep_view() + property_row(name@, text_of(*value)),
{
    let ghost before = rows.deep_view();
    match value {
        Some(text) => {
            rows.push((String::from_str(name), text.clone()));
            proof {
                assert(rows.deep_view() =~= before + seq![(name@, text@)]);
            }
        },
        None => {
            proof {
                assert(rows.deep_view() =~= before + Seq::<TextRowModel>::empty());
            }
        },
    }
}

/// The rows of the description of the store.
pub fn database_info_rows(path: &str, current_cf: &str, properties: &StoreProperties) -> (rows:
    Vec<TextRow>)
    ensures
        rows.deep_view() == info_rows_of(
            path@,
            current_cf@,
            text_of(properties.creation_time),
            text_of(properties.version),
            text_of(properties.level0_files),
            text_of(properties.sst_size),
        ),
{
    let mut rows: Vec<TextRow> = Vec::new();
    rows.push((String::from_str("Path"), String::from_str(path)));
    rows.push((String::from_str("Current Column Family"), String::from_str(current_cf)));
    proof {
        assert(rows.deep_view() =~= seq![
            ("Path"@, path@),
            ("Current Column Family"@, current_cf@),
        ]);
    }
    push_property(&mut rows, "Creation Time", &properties.creation_time);
    push_property(&mut rows, "Version", &properties.version);
    push_property(&mut rows, "L0 Files", &properties.level0_files);
    let size: Option<String> = match &properties.sst_size {
        Some(text) => {
            let mut shown = text.clone();
            shown.append(" bytes");
            Some(shown)
        },
        None => None,
    };
    push_property(&mut rows, "Total SST Size", &size);
    rows
}

} // verus!
