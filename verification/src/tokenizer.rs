//! Splitting one input line into words by the quoting rules of a POSIX shell.

use vstd::prelude::*;

verus! {

/// The line cannot be split: a quotation that was opened is never closed.
#[derive(Debug, Clone, Copy, PartialEq, Eq)]
pub struct TokenizeError;

impl TokenizeError {
    /// The text shown to the user.
    pub fn message(&self) -> (text: String)
        ensures
            text@ == "missing closing quote"@,
    {
        "missing closing quote".to_string()
    }
}

/// The words that `shell_words::split` makes of a line, or `None` where it
/// reports an unmatched quote. Single quotes, double quotes and backslashes
/// are removed as a shell removes them; blanks, tabs and newlines outside
/// quotes separate words; `#` at the start of a word begins a comment.
pub uninterp spec fn shell_words_of(line: Seq<char>) -> Option<Seq<Seq<char>>>;

/// Calls `shell_words::split`. Its result is a function of the line alone and
/// is named by `shell_words_of`; its only error, which carries nothing and
/// stands for an unmatched quote, becomes `None`.
#[verifier::external_body]
fn split_line(line: &str) -> (words: Option<Vec<String>>)
    ensures
        match words {
            Some(list) => shell_words_of(line@) == Some(list.deep_view()),
            None => shell_words_of(line@) is None,
        },
{
    shell_words::split(line).ok()
}

/// Splits a line into words. A line with an unterminated quotation yields
/// the error and no words at all.
pub fn tokenize(line: &str) -> (words: Result<Vec<String>, TokenizeError>)
    ensures
        match words {
            Ok(list) => shell_words_of(line@) == Some(list.deep_view()),
            Err(_) => shell_words_of(line@) is None,
        },
{
    match split_line(line) {
        Some(list) => Ok(list),
        None => Err(TokenizeError),
    }
}

} // verus!
