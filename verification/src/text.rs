//! Predicates on byte strings and texts shared by the shell: occurrence of
//! a pattern, prefixes, the lexicographic order in which the store keeps its
//! keys, equality of texts, and trimming of white space.

use vstd::prelude::*;
use vstd::string::StrSliceExecFns;

verus! {

/// `pattern` stands in `text` at offset `at`.
pub open spec fn matches_at(text: Seq<u8>, pattern: Seq<u8>, at: int) -> bool {
    &&& 0 <= at
    &&& at + pattern.len() <= text.len()
    &&& text.subrange(at, at + pattern.len()) == pattern
}

/// `pattern` occurs in `text` as a contiguous run of bytes.
pub open spec fn occurs_in(text: Seq<u8>, pattern: Seq<u8>) -> bool {
    exists|at: int| matches_at(text, pattern, at)
}

/// `prefix` is a leading run of `text`.
pub open spec fn is_prefix_of(prefix: Seq<u8>, text: Seq<u8>) -> bool {
    matches_at(text, prefix, 0)
}

/// Strict lexicographic order on byte strings: a proper prefix comes first,
/// otherwise the first differing byte decides.
pub open spec fn lex_lt(a: Seq<u8>, b: Seq<u8>) -> bool
    decreases a.len(),
{
    if b.len() == 0 {
        false
    } else if a.len() == 0 {
        true
    } else if a[0] != b[0] {
        a[0] < b[0]
    } else {
        lex_lt(a.skip(1), b.skip(1))
    }
}

/// Non-strict lexicographic order.
pub open spec fn lex_le(a: Seq<u8>, b: Seq<u8>) -> bool {
    !lex_lt(b, a)
}

/// Tells whether `pattern` stands in `text` at `at`.
pub fn matches_here(text: &[u8], pattern: &[u8], at: usize) -> (found: bool)
    ensures
        found == matches_at(text@, pattern@, at as int),
{
    if pattern.len() > text.len() || at > text.len() - pattern.len() {
        return false;
    }
    let mut k: usize = 0;
    while k < pattern.len()
        invariant
            k <= pattern.len(),
            at + pattern.len() <= text.len(),
            forall|j: int| 0 <= j < k ==> text@[at + j] == pattern@[j],
        decreases pattern.len() - k,
    {
        if text[at + k] != pattern[k] {
            proof {
                let window = text@.subrange(at as int, at + pattern@.len());
                assert(window[k as int] == text@[at + k]);
            }
            return false;
        }
        k += 1;
    }
    proof {
        assert(text@.subrange(at as int, at + pattern@.len()) =~= pattern@);
    }
    true
}

/// Tells whether `text` begins with `prefix`.
pub fn starts_with(text: &[u8], prefix: &[u8]) -> (found: bool)
    ensures
        found == is_prefix_of(prefix@, text@),
{
    matches_here(text, prefix, 0)
}

/// The first offset at or after `from` where `pattern` stands in `text`.
pub fn find_from(text: &[u8], pattern: &[u8], from: usize) -> (found: Option<usize>)
    ensures
        match found {
            Some(at) => {
                &&& from <= at
                &&& matches_at(text@, pattern@, at as int)
                &&& forall|j: int| from <= j < at ==> !matches_at(text@, pattern@, j)
            },
            None => forall|j: int| from <= j ==> !matches_at(text@, pattern@, j),
        },
{
    if pattern.len() > text.len() {
        return None;
    }
    let last: usize = text.len() - pattern.len();
    let mut at: usize = from;
    while at <= last
        invariant
            from <= at,
            last == text.len() - pattern.len(),
            forall|j: int| from <= j < at ==> !matches_at(text@, pattern@, j),
        decreases last + 1 - at,
    {
        if matches_here(text, pattern, at) {
            return Some(at);
        }
        if at == last {
            return None;
        }
        at += 1;
    }
    None
}

/// Tells whether `pattern` occurs anywhere in `text`. The empty pattern
/// occurs in every text.
pub fn contains(text: &[u8], pattern: &[u8]) -> (found: bool)
    ensures
        found == occurs_in(text@, pattern@),
{
    match find_from(text, pattern, 0) {
        Some(_) => true,
        None => false,
    }
}

/// Tells whether `a` comes strictly before `b` in lexicographic order.
pub fn less_than(a: &[u8], b: &[u8]) -> (lt: bool)
    ensures
        lt == lex_lt(a@, b@),
{
    let mut i: usize = 0;
    proof {
        assert(a@.skip(0) =~= a@);
        assert(b@.skip(0) =~= b@);
    }
    while i < a.len() && i < b.len()
        invariant
            i <= a.len(),
            i <= b.len(),
            lex_lt(a@, b@) == lex_lt(a@.skip(i as int), b@.skip(i as int)),
        decreases a.len() - i,
    {
        proof {
            let ra = a@.skip(i as int);
            let rb = b@.skip(i as int);
            assert(ra[0] == a@[i as int]);
            assert(rb[0] == b@[i as int]);
            assert(ra.skip(1) =~= a@.skip(i + 1));
            assert(rb.skip(1) =~= b@.skip(i + 1));
        }
        if a[i] != b[i] {
            return a[i] < b[i];
        }
        i += 1;
    }
    proof {
        assert(a@.skip(i as int).len() == a@.len() - i);
        assert(b@.skip(i as int).len() == b@.len() - i);
    }
    i < b.len()
}

/// Tells whether two byte strings are the same.
pub fn same_bytes(a: &[u8], b: &[u8]) -> (same: bool)
    ensures
        same == (a@ == b@),
{
    if a.len() != b.len() {
        return false;
    }
    let same = matches_here(a, b, 0);
    proof {
        assert(a@.subrange(0, a@.len() as int) =~= a@);
    }
    same
}

/// Tells whether two strings hold the same characters.
pub fn same_text(a: &str, b: &str) -> (same: bool)
    ensures
        same == (a@ == b@),
{
    let same = same_bytes(a.as_bytes(), b.as_bytes());
    proof {
        vstd::utf8::encode_utf8_decode_utf8(a@);
        vstd::utf8::encode_utf8_decode_utf8(b@);
    }
    same
}

/// `c` is white space as Unicode defines it.
pub open spec fn is_space(c: char) -> bool {
    ||| c == ' '
    ||| ('\u{9}' <= c && c <= '\u{d}')
    ||| c == '\u{85}'
    ||| c == '\u{a0}'
    ||| c == '\u{1680}'
    ||| ('\u{2000}' <= c && c <= '\u{200a}')
    ||| c == '\u{2028}'
    ||| c == '\u{2029}'
    ||| c == '\u{202f}'
    ||| c == '\u{205f}'
    ||| c == '\u{3000}'
}

/// The text without its leading white space.
pub open spec fn trim_front(text: Seq<char>) -> Seq<char>
    decreases text.len(),
{
    if text.len() > 0 && is_space(text[0]) {
        trim_front(text.skip(1))
    } else {
        text
    }
}

/// The text without its trailing white space.
pub open spec fn trim_back(text: Seq<char>) -> Seq<char>
    decreases text.len(),
{
    if text.len() > 0 && is_space(text.last()) {
        trim_back(text.drop_last())
    } else {
        text
    }
}

/// The text without leading and trailing white space.
pub open spec fn trimmed_of(text: Seq<char>) -> Seq<char> {
    trim_back(trim_front(text))
}

fn space(c: char) -> (white: bool)
    ensures
        white == is_space(c),
{
    c == ' ' || (c >= '\u{9}' && c <= '\u{d}') || c == '\u{85}' || c == '\u{a0}' || c
        == '\u{1680}' || (c >= '\u{2000}' && c <= '\u{200a}') || c == '\u{2028}' || c
        == '\u{2029}' || c == '\u{202f}' || c == '\u{205f}' || c == '\u{3000}'
}

/// The text without leading and trailing white space.
pub fn trimmed(text: &str) -> (inner: &str)
    ensures
        inner@ == trimmed_of(text@),
{
    let len: usize = text.unicode_len();
    let mut from: usize = 0;
    proof {
        assert(text@.skip(0) =~= text@);
    }
    while from < len && space(text.get_char(from))
        invariant
            from <= len,
            len == text@.len(),
            trim_front(text@) == trim_front(text@.skip(from as int)),
        decreases len - from,
    {
        proof {
            let rest = text@.skip(from as int);
            assert(rest[0] == text@[from as int]);
            assert(rest.skip(1) =~= text@.skip(from + 1));
        }
        from += 1;
    }
    proof {
        let rest = text@.skip(from as int);
        if from < len {
            assert(rest[0] == text@[from as int]);
        }
        assert(trim_front(text@) == rest);
    }
    let mut to: usize = len;
    proof {
        assert(text@.subrange(from as int, len as int) =~= text@.skip(from as int));
    }
    while to > from && space(text.get_char(to - 1))
        invariant
            from <= to <= len,
            len == text@.len(),
            trimmed_of(text@) == trim_back(text@.subrange(from as int, to as int)),
        decreases to - from,
    {
        proof {
            let part = text@.subrange(from as int, to as int);
            assert(part.last() == text@[to - 1]);
            assert(part.drop_last() =~= text@.subrange(from as int, to - 1));
        }
        to -= 1;
    }
    proof {
        let part = text@.subrange(from as int, to as int);
        if to > from {
            assert(part.last() == text@[to - 1]);
        }
        assert(trim_back(part) == part);
    }
    text.substring_char(from, to)
}

} // verus!
