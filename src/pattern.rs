//! Regular-expression patterns, compiled and run by the `regex` crate.

use crate::index::{byte_len, is_boundary};
use regex::Regex;
use vstd::prelude::*;

verus! {

#[verifier::external_type_specification]
#[verifier::external_body]
pub struct ExRegex(Regex);

/// Whether `regex` accepts `pattern` (its syntax and its size limit).
pub uninterp spec fn regex_valid(pattern: Seq<char>) -> bool;

/// Byte range of the leftmost-first match of `pattern` in `text` that starts
/// at or after byte offset `start`.
pub uninterp spec fn regex_find_at(pattern: Seq<char>, text: Seq<char>, start: usize) -> Option<
    (usize, usize),
>;

/// Byte ranges of the successive non-overlapping matches of `pattern` in `text`.
pub uninterp spec fn regex_matches(pattern: Seq<char>, text: Seq<char>) -> Seq<(usize, usize)>;

/// `text` with its first match of `pattern` replaced by the expansion of the
/// template `rep`.
pub uninterp spec fn regex_replace_first(pattern: Seq<char>, text: Seq<char>, rep: Seq<char>) -> Seq<
    char,
>;

/// `text` with every non-overlapping match of `pattern` replaced by the
/// expansion of the template `rep`.
pub uninterp spec fn regex_replace_all(pattern: Seq<char>, text: Seq<char>, rep: Seq<char>) -> Seq<
    char,
>;

/// A compiled regular expression together with the pattern it came from.
pub struct Pattern {
    source: String,
    regex: Regex,
}

impl Pattern {
    /// The pattern text this value was compiled from.
    pub closed spec fn source(&self) -> Seq<char> {
        self.source@
    }

    /// Relies on `regex::Regex::new`: it fails exactly on the patterns that
    /// the crate does not accept; the error is turned into its message.
    #[verifier::external_body]
    pub(crate) fn compile(pattern: &str) -> (r: Result<Pattern, String>)
        ensures
            r.is_ok() == regex_valid(pattern@),
            r matches Ok(p) ==> p.source() == pattern@,
    {
        match Regex::new(pattern) {
            Ok(regex) => Ok(Pattern { source: pattern.to_string(), regex }),
            Err(e) => Err(e.to_string()),
        }
    }

    /// Relies on `regex::Regex::find_at`: the first match at or after
    /// `start` (which must not pass the end of `text`); both ends of a match
    /// lie on character boundaries.
    #[verifier::external_body]
    pub(crate) fn find_at(&self, text: &str, start: usize) -> (r: Option<(usize, usize)>)
        requires
            start <= byte_len(text@),
        ensures
            r == regex_find_at(self.source(), text@, start),
            r matches Some(m) ==> start <= m.0 <= m.1 <= byte_len(text@),
            r matches Some(m) ==> is_boundary(text@, m.0 as int),
            r matches Some(m) ==> is_boundary(text@, m.1 as int),
    {
        self.regex.find_at(text, start).map(|m| (m.start(), m.end()))
    }

    /// Relies on `regex::Regex::find_iter`: the byte ranges of all
    /// non-overlapping matches, left to right.
    #[verifier::external_body]
    pub(crate) fn find_all(&self, text: &str) -> (r: Vec<(usize, usize)>)
        ensures
            r@ == regex_matches(self.source(), text@),
    {
        self.regex.find_iter(text).map(|m| (m.start(), m.end())).collect()
    }

    /// Relies on `regex::Regex::replace`: the first match replaced by the
    /// expanded template.
    #[verifier::external_body]
    pub(crate) fn replace_first(&self, text: &str, rep: &str) -> (r: String)
        ensures
            r@ == regex_replace_first(self.source(), text@, rep@),
    {
        self.regex.replace(text, rep).into_owned()
    }

    /// Relies on `regex::Regex::replace_all`: every non-overlapping match
    /// replaced by the expanded template; with no match the text comes back
    /// unchanged.
    #[verifier::external_body]
    pub(crate) fn replace_all(&self, text: &str, rep: &str) -> (r: String)
        ensures
            r@ == regex_replace_all(self.source(), text@, rep@),
            regex_matches(self.source(), text@).len() == 0 ==> r@ == text@,
    {
        self.regex.replace_all(text, rep).into_owned()
    }
}

} // verus!
