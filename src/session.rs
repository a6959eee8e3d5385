//! The find/replace session: the query, its replacement and mode, and the
//! message shown to the user. It outlives any one document.

use crate::document::{
    after_replace_all, find_next_spec, replace_outcome, with_text, Document,
};
use crate::pattern::regex_valid;
use crate::search::{count_matches, find_next, SearchError};
use crate::document::match_count;
use std::ops::Range;
use vstd::prelude::*;

verus! {

/// `e` holds the message `m`.
pub open spec fn shows(e: Option<String>, m: Seq<char>) -> bool {
    e matches Some(s) && s@ == m
}

/// Shown when Find Next runs with an empty query.
pub open spec fn find_prompt() -> Seq<char> {
    "Enter search text to find matches."@
}

/// Shown when Replace or Replace All runs with an empty query.
pub open spec fn replace_prompt() -> Seq<char> {
    "Enter search text to replace."@
}

/// Shown when a search finds nothing, even after wrapping round.
pub open spec fn no_match_message() -> Seq<char> {
    "No matches found."@
}

/// The state of the find/replace panel.
pub struct FindPanel {
    pub open: bool,
    pub query: String,
    pub replace: String,
    pub use_regex: bool,
    pub error: Option<String>,
}

/// The message that reports `e`.
fn error_message(e: SearchError) -> (r: String)
    ensures
        e matches SearchError::Pattern(m) ==> r@ == m@,
        e is EmptyQuery ==> r@ == find_prompt(),
{
    match e {
        SearchError::EmptyQuery => "Enter search text to find matches.".to_owned(),
        SearchError::Pattern(m) => m,
    }
}

impl FindPanel {
    /// A closed panel with an empty query, in literal mode.
    pub fn new() -> (r: FindPanel)
        ensures
            !r.open,
            r.query@.len() == 0,
            r.replace@.len() == 0,
            !r.use_regex,
            r.error is None,
    {
        FindPanel {
            open: false,
            query: String::new(),
            replace: String::new(),
            use_regex: false,
            error: None,
        }
    }

    pub fn open_find_panel(&mut self)
        ensures
            final(self).open,
            final(self).error is None,
            final(self).query == old(self).query,
            final(self).replace == old(self).replace,
            final(self).use_regex == old(self).use_regex,
    {
        self.open = true;
        self.error = None;
    }

    pub fn open_replace_panel(&mut self)
        ensures
            final(self).open,
            final(self).error is None,
            final(self).query == old(self).query,
            final(self).replace == old(self).replace,
            final(self).use_regex == old(self).use_regex,
    {
        self.open = true;
        self.error = None;
    }

    /// Find Next from the end of the selection, `selection_end`: the range
    /// to select, if any, with the message updated.
    pub fn find_next(&mut self, text: &str, selection_end: usize) -> (r: Option<Range<usize>>)
        ensures
            final(self).open == old(self).open,
            final(self).query == old(self).query,
            final(self).replace == old(self).replace,
            final(self).use_regex == old(self).use_regex,
            old(self).query@.len() == 0 ==> r is None && shows(final(self).error, find_prompt()),
            old(self).query@.len() > 0 && old(self).use_regex && !regex_valid(old(self).query@) ==> r is None
                && final(self).error is Some,
            old(self).query@.len() > 0 && (old(self).use_regex ==> regex_valid(old(self).query@)) ==> {
                &&& r == find_next_spec(text@, old(self).query@, old(self).use_regex, selection_end as int)
                &&& r is Some ==> final(self).error is None
                &&& r is None ==> shows(final(self).error, no_match_message())
            },
    {
        if self.query.as_str().is_empty() {
            self.error = Some("Enter search text to find matches.".to_owned());
            return None;
        }
        match find_next(text, self.query.as_str(), self.use_regex, selection_end) {
            Ok(Some(range)) => {
                self.error = None;
                Some(range)
            },
            Ok(None) => {
                self.error = Some("No matches found.".to_owned());
                None
            },
            Err(e) => {
                self.error = Some(error_message(e));
                None
            },
        }
    }

    /// Replace: the selection is replaced when the whole of it is a match,
    /// else the next match is found and nothing changes. Gives the range to
    /// select next.
    pub fn replace_current(&mut self, doc: &mut Document, selection: Range<usize>) -> (r: Option<
        Range<usize>,
    >)
        requires
            old(doc).wf(),
            selection.start <= selection.end,
        ensures
            final(doc).wf(),
            final(self).open == old(self).open,
            final(self).query == old(self).query,
            final(self).replace == old(self).replace,
            final(self).use_regex == old(self).use_regex,
            old(self).query@.len() == 0 ==> r is None && final(doc)@ == old(doc)@ && shows(
                final(self).error,
                replace_prompt(),
            ),
            old(self).query@.len() > 0 && old(self).use_regex && !regex_valid(old(self).query@) ==> r is None
                && final(doc)@ == old(doc)@ && final(self).error is Some,
            old(self).query@.len() > 0 && (old(self).use_regex ==> regex_valid(old(self).query@)) ==> {
                let o = replace_outcome(
                    old(doc)@.text,
                    old(self).query@,
                    old(self).replace@,
                    old(self).use_regex,
                    selection,
                );
                &&& r == o.0
                &&& final(doc)@ == with_text(old(doc)@, o.1)
                &&& r is Some ==> final(self).error is None
                &&& r is None ==> shows(final(self).error, no_match_message())
            },
    {
        if self.query.as_str().is_empty() {
            self.error = Some("Enter search text to replace.".to_owned());
            return None;
        }
        match doc.replace_current(self.query.as_str(), self.replace.as_str(), self.use_regex, selection) {
            Ok(Some(range)) => {
                self.error = None;
                Some(range)
            },
            Ok(None) => {
                self.error = Some("No matches found.".to_owned());
                None
            },
            Err(e) => {
                self.error = Some(error_message(e));
                None
            },
        }
    }

    /// Replace All: every match replaced; gives how many there were.
    pub fn replace_all(&mut self, doc: &mut Document) -> (r: Option<usize>)
        requires
            old(doc).wf(),
        ensures
            final(doc).wf(),
            final(self).open == old(self).open,
            final(self).query == old(self).query,
            final(self).replace == old(self).replace,
            final(self).use_regex == old(self).use_regex,
            old(self).query@.len() == 0 ==> r is None && final(doc)@ == old(doc)@ && shows(
                final(self).error,
                replace_prompt(),
            ),
            old(self).query@.len() > 0 && old(self).use_regex && !regex_valid(old(self).query@) ==> r is None
                && final(doc)@ == old(doc)@ && final(self).error is Some,
            old(self).query@.len() > 0 && (old(self).use_regex ==> regex_valid(old(self).query@)) ==> {
                &&& r matches Some(n) && n == match_count(old(doc)@.text, old(self).query@, old(self).use_regex)
                &&& final(doc)@ == after_replace_all(
                    old(doc)@,
                    old(self).query@,
                    old(self).replace@,
                    old(self).use_regex,
                )
                &&& final(self).error is None
            },
    {
        if self.query.as_str().is_empty() {
            self.error = Some("Enter search text to replace.".to_owned());
            return None;
        }
        match doc.replace_all(self.query.as_str(), self.replace.as_str(), self.use_regex) {
            Ok(n) => {
                self.error = None;
                Some(n)
            },
            Err(e) => {
                self.error = Some(error_message(e));
                None
            },
        }
    }

    /// The live match count for `text`; nothing to show for an empty query.
    pub fn live_count(&mut self, text: &str) -> (r: Option<usize>)
        ensures
            final(self).open == old(self).open,
            final(self).query == old(self).query,
            final(self).replace == old(self).replace,
            final(self).use_regex == old(self).use_regex,
            old(self).query@.len() == 0 ==> r is None && final(self).error == old(self).error,
            old(self).query@.len() > 0 && old(self).use_regex && !regex_valid(old(self).query@) ==> r is None
                && final(self).error is Some,
            old(self).query@.len() > 0 && (old(self).use_regex ==> regex_valid(old(self).query@)) ==> {
                &&& r matches Some(n) && n == match_count(text@, old(self).query@, old(self).use_regex)
                &&& final(self).error is None
            },
    {
        if self.query.as_str().is_empty() {
            return None;
        }
        match count_matches(self.use_regex, text, self.query.as_str()) {
            Ok(n) => {
                self.error = None;
                Some(n)
            },
            Err(e) => {
                self.error = Some(error_message(e));
                None
            },
        }
    }
}

} // verus!
