//! Highlighting: every occurrence of a pattern in a displayed key or value is
//! wrapped in a terminal colour marker. The stored bytes are never touched;
//! only the copy handed to the display changes.

use colored::Colorize;
use vstd::prelude::*;
use vstd::string::StringSliceAdditionalSpecFns;
use vstd::utf8::{encode_utf8, valid_utf8};
use crate::text::{matches_at, matches_here, occurs_in};

verus! {

/// The escape sequence that switches the terminal to bright magenta.
pub open spec fn mark_open() -> Seq<u8> {
    seq![0x1bu8, 0x5bu8, 0x39u8, 0x35u8, 0x6du8]
}

/// The escape sequence that resets the terminal's colours.
pub open spec fn mark_close() -> Seq<u8> {
    seq![0x1bu8, 0x5bu8, 0x30u8, 0x6du8]
}

/// What the terminal library may hand back for `text`: the text itself where
/// colours are switched off, else the text between the two escape sequences.
/// A text that itself holds the reset sequence is altered between them, so
/// only the frame is known of it.
pub open spec fn is_marking_of(marked: Seq<u8>, text: Seq<u8>) -> bool {
    ||| marked == text
    ||| {
        &&& matches_at(marked, mark_open(), 0)
        &&& matches_at(marked, mark_close(), marked.len() - mark_close().len())
        &&& !occurs_in(text, mark_close()) ==> marked == mark_open() + text + mark_close()
    }
}

/// `text` with every occurrence of `pattern` replaced by `marked`, reading
/// from the left and resuming after each occurrence, so that occurrences
/// never overlap. An empty pattern marks nothing.
pub open spec fn with_marks(text: Seq<u8>, pattern: Seq<u8>, marked: Seq<u8>) -> Seq<u8>
    decreases text.len(),
{
    if pattern.len() == 0 || text.len() < pattern.len() {
        text
    } else if matches_at(text, pattern, 0) {
        marked + with_marks(text.skip(pattern.len() as int), pattern, marked)
    } else {
        seq![text[0]] + with_marks(text.skip(1), pattern, marked)
    }
}

/// The number of occurrences that `with_marks` replaces.
pub open spec fn mark_count(text: Seq<u8>, pattern: Seq<u8>) -> nat
    decreases text.len(),
{
    if pattern.len() == 0 || text.len() < pattern.len() {
        0
    } else if matches_at(text, pattern, 0) {
        1 + mark_count(text.skip(pattern.len() as int), pattern)
    } else {
        mark_count(text.skip(1), pattern)
    }
}

/// The marked text is longer than the text by the marker's overhead, once for
/// each occurrence.
pub proof fn lemma_marked_length(text: Seq<u8>, pattern: Seq<u8>, marked: Seq<u8>)
    ensures
        with_marks(text, pattern, marked).len() == text.len() + mark_count(text, pattern) * (
        marked.len() - pattern.len()),
    decreases text.len(),
{
    let d = marked.len() - pattern.len();
    if pattern.len() == 0 || text.len() < pattern.len() {
        assert(mark_count(text, pattern) == 0);
        assert(0 * d == 0) by (nonlinear_arith);
    } else if matches_at(text, pattern, 0) {
        let rest = text.skip(pattern.len() as int);
        lemma_marked_length(rest, pattern, marked);
        let n = mark_count(rest, pattern) as int;
        assert(mark_count(text, pattern) == 1 + n);
        assert((1 + n) * d == d + n * d) by (nonlinear_arith);
        assert(with_marks(text, pattern, marked).len() == marked.len() + with_marks(
            rest,
            pattern,
            marked,
        ).len());
    } else {
        let rest = text.skip(1);
        lemma_marked_length(rest, pattern, marked);
        assert(mark_count(text, pattern) == mark_count(rest, pattern));
        assert(with_marks(text, pattern, marked).len() == 1 + with_marks(
            rest,
            pattern,
            marked,
        ).len());
    }
}

/// A text in which the pattern does not occur is displayed as it is.
pub proof fn lemma_no_occurrence_no_mark(text: Seq<u8>, pattern: Seq<u8>, marked: Seq<u8>)
    requires
        !occurs_in(text, pattern),
    ensures
        with_marks(text, pattern, marked) == text,
        mark_count(text, pattern) == 0,
    decreases text.len(),
{
    if pattern.len() == 0 || text.len() < pattern.len() {
    } else {
        assert(!matches_at(text, pattern, 0));
        let rest = text.skip(1);
        assert forall|at: int| !matches_at(rest, pattern, at) by {
            if matches_at(rest, pattern, at) {
                assert(rest.subrange(at, at + pattern.len()) =~= text.subrange(
                    at + 1,
                    at + 1 + pattern.len(),
                ));
                assert(matches_at(text, pattern, at + 1));
            }
        }
        lemma_no_occurrence_no_mark(rest, pattern, marked);
        assert(seq![text[0]] + rest =~= text);
    }
}

/// Marking with the pattern itself changes nothing: this is what is
/// displayed where colours are switched off.
pub proof fn lemma_plain_marking_is_identity(text: Seq<u8>, pattern: Seq<u8>)
    ensures
        with_marks(text, pattern, pattern) == text,
    decreases text.len(),
{
    if pattern.len() == 0 || text.len() < pattern.len() {
    } else if matches_at(text, pattern, 0) {
        let rest = text.skip(pattern.len() as int);
        lemma_plain_marking_is_identity(rest, pattern);
        assert(text.subrange(0, pattern.len() as int) + rest =~= text);
    } else {
        lemma_plain_marking_is_identity(text.skip(1), pattern);
        assert(seq![text[0]] + text.skip(1) =~= text);
    }
}

/// Replaces every occurrence of `pattern` in `text` by `marked`.
pub fn mark_occurrences(text: &[u8], pattern: &[u8], marked: &[u8]) -> (result: Vec<u8>)
    ensures
        result@ == with_marks(text@, pattern@, marked@),
{
    let mut result: Vec<u8> = Vec::new();
    if pattern.len() == 0 {
        result.extend_from_slice(text);
        return result;
    }
    let mut at: usize = 0;
    proof {
        assert(text@.skip(0) =~= text@);
    }
    while at < text.len()
        invariant
            at <= text.len(),
            pattern.len() > 0,
            result@ + with_marks(text@.skip(at as int), pattern@, marked@) == with_marks(
                text@,
                pattern@,
                marked@,
            ),
        decreases text.len() - at,
    {
        let ghost rest = text@.skip(at as int);
        let here = matches_here(text, pattern, at);
        proof {
            if at + pattern@.len() <= text@.len() {
                assert(rest.subrange(0, pattern@.len() as int) =~= text@.subrange(
                    at as int,
                    at + pattern@.len(),
                ));
            }
            assert(here == matches_at(rest, pattern@, 0));
        }
        if here {
            let ghost before = result@;
            result.extend_from_slice(marked);
            proof {
                let tail = with_marks(rest.skip(pattern@.len() as int), pattern@, marked@);
                assert(rest.skip(pattern@.len() as int) =~= text@.skip(at + pattern@.len()));
                assert(before + (marked@ + tail) =~= (before + marked@) + tail);
            }
            at += pattern.len();
        } else {
            let ghost before = result@;
            result.push(text[at]);
            proof {
                assert(rest[0] == text@[at as int]);
                if rest.len() < pattern@.len() {
                    lemma_short_text_unmarked(rest, pattern@, marked@);
                    lemma_short_text_unmarked(rest.skip(1), pattern@, marked@);
                    assert(seq![rest[0]] + rest.skip(1) =~= rest);
                }
                let tail = with_marks(rest.skip(1), pattern@, marked@);
                assert(rest.skip(1) =~= text@.skip(at + 1));
                assert(before + (seq![rest[0]] + tail) =~= before.push(rest[0]) + tail);
            }
            at += 1;
        }
    }
    proof {
        assert(text@.skip(at as int) =~= Seq::<u8>::empty());
        assert(result@ + Seq::<u8>::empty() =~= result@);
    }
    result
}

proof fn lemma_short_text_unmarked(text: Seq<u8>, pattern: Seq<u8>, marked: Seq<u8>)
    requires
        text.len() < pattern.len(),
    ensures
        with_marks(text, pattern, marked) == text,
{
}

/// Renders `text` in bright magenta through `colored`'s `Colorize` and
/// `Display`. Whether the colour is applied depends on the terminal, the
/// environment and `colored`'s override, so the contract admits both
/// outcomes: the text unchanged, or the text framed by the colour sequence
/// and the reset sequence. Within the frame `colored` repeats the colour
/// sequence after each reset sequence that the text itself holds, so the
/// framed text is stated only for a text without one. The contract
/// supposes that no other thread changes the override during the call.
#[verifier::external_body]
fn paint(text: &str) -> (marked: Vec<u8>)
    ensures
        is_marking_of(marked@, text.spec_bytes()),
{
    format!("{}", text.bright_magenta()).into_bytes()
}

/// Tells whether the bytes are well-formed UTF-8, as `std::str::from_utf8`
/// accepts them.
#[verifier::external_body]
pub(crate) fn is_utf8(bytes: &[u8]) -> (valid: bool)
    ensures
        valid == valid_utf8(bytes@),
{
    std::str::from_utf8(bytes).is_ok()
}

/// `shown` is `stored` with the pattern highlighted: unchanged where the
/// pattern is empty or `stored` is no UTF-8 text, else with each
/// occurrence replaced by a marking of the pattern.
pub open spec fn is_highlight_of(shown: Seq<u8>, pattern: Seq<char>, stored: Seq<u8>) -> bool {
    if pattern.len() == 0 || !valid_utf8(stored) {
        shown == stored
    } else {
        exists|marked: Seq<u8>|
            is_marking_of(marked, encode_utf8(pattern)) && shown == #[trigger] with_marks(
                stored,
                encode_utf8(pattern),
                marked,
            )
    }
}

/// Wraps every occurrence of `pattern` in `candidates` in the highlight
/// marker. An empty pattern, or bytes that are no UTF-8 text, leave
/// `candidates` as they are. Whether the marker is a colour sequence or
/// nothing is the terminal library's choice.
pub fn highlight_pattern(pattern: &str, candidates: Vec<u8>) -> (result: Vec<u8>)
    ensures
        is_highlight_of(result@, pattern@, candidates@),
{
    if pattern.is_empty() {
        return candidates;
    }
    if !is_utf8(candidates.as_slice()) {
        return candidates;
    }
    let marked = paint(pattern);
    mark_occurrences(candidates.as_slice(), pattern.as_bytes(), marked.as_slice())
}

} // verus!
