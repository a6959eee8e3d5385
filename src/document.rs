//! A single text buffer: its text, where it is saved, and whether it has
//! changed since.

use crate::index::{byte_len, chars_of, clamp_index, slice_char_range};
use crate::pattern::{regex_valid, regex_find_at, regex_matches, regex_replace_all, regex_replace_first};
use crate::search::{
    count_matches, find_next, lemma_replace_without_match, literal_count, literal_find_next,
    regex_find_next, replace_all_matches, replace_literal, replace_match, SearchError,
};
use crate::text::{decimal, push_decimal, same_text};
use ropey::Rope;
use std::ops::Range;
use vstd::prelude::*;
use vstd::string::{StrSliceExecFns, StringExecFns};

verus! {

#[verifier::external_type_specification]
#[verifier::external_body]
pub struct ExRope(Rope);

/// The text that a rope holds.
pub uninterp spec fn rope_text(r: Rope) -> Seq<char>;

/// Relies on `ropey::Rope::new`: a rope that holds no text.
#[verifier::external_body]
fn empty_rope() -> (r: Rope)
    ensures
        rope_text(r) == Seq::<char>::empty(),
{
    Rope::new()
}

/// Relies on `ropey::Rope::from_str`: a rope that holds `text`.
#[verifier::external_body]
fn rope_of(text: &str) -> (r: Rope)
    ensures
        rope_text(r) == text@,
{
    Rope::from_str(text)
}

/// What `str::to_lowercase` makes of `s`.
pub uninterp spec fn lower_of(s: Seq<char>) -> Seq<char>;

/// Relies on `str::to_lowercase`: the lowercase form of the text, which
/// depends on its characters alone.
#[verifier::external_body]
fn lowercase(s: &str) -> (r: String)
    ensures
        r@ == lower_of(s@),
{
    s.to_lowercase()
}

/// `s` ends with `suffix`.
pub open spec fn ends_with(s: Seq<char>, suffix: Seq<char>) -> bool {
    suffix.len() <= s.len() && s.subrange(s.len() - suffix.len(), s.len() as int) == suffix
}

/// The file name offered when saving a document titled `title`, given the
/// title in lower case: the title where it already ends in `.txt` in any
/// case, else the title with `.txt` appended.
pub fn file_name_for(title: &str, lowered: &str) -> (r: String)
    ensures
        r@ == if ends_with(lowered@, ".txt"@) {
            title@
        } else {
            title@ + ".txt"@
        },
{
    let low = chars_of(lowered);
    let n = low.len();
    proof {
        reveal_strlit(".txt");
    }
    let has_suffix = n >= 4 && low[n - 4] == '.' && low[n - 3] == 't' && low[n - 2] == 'x'
        && low[n - 1] == 't';
    assert(has_suffix == ends_with(lowered@, ".txt"@)) by {
        if n >= 4 {
            let tail = lowered@.subrange(n - 4, n as int);
            if has_suffix {
                assert(tail =~= ".txt"@);
            } else {
                assert(tail[0] != '.' || tail[1] != 't' || tail[2] != 'x' || tail[3] != 't');
            }
        }
    }
    let mut name = title.to_owned();
    if !has_suffix {
        name.append(".txt");
    }
    name
}

/// The file name offered when saving a document titled `title`.
pub fn suggested_file_name(title: &str) -> (r: String)
    ensures
        r@ == if ends_with(lower_of(title@), ".txt"@) {
            title@
        } else {
            title@ + ".txt"@
        },
{
    let lowered = lowercase(title);
    file_name_for(title, lowered.as_str())
}

/// A file location: the full path, and its last component where it has one
/// that is valid text.
#[derive(Debug)]
pub struct DocPath {
    pub full: String,
    pub file_name: Option<String>,
}

/// What a `DocPath` holds.
pub struct DocPathView {
    pub full: Seq<char>,
    pub file_name: Option<Seq<char>>,
}

impl View for DocPath {
    type V = DocPathView;

    open spec fn view(&self) -> DocPathView {
        DocPathView {
            full: self.full@,
            file_name: match self.file_name {
                Some(n) => Some(n@),
                None => None,
            },
        }
    }
}

impl DocPath {
    pub fn new(full: String, file_name: Option<String>) -> (r: DocPath)
        ensures
            r.full == full,
            r.file_name == file_name,
    {
        DocPath { full, file_name }
    }
}

/// What a `Document` holds.
pub struct DocumentView {
    pub text: Seq<char>,
    pub path: Option<DocPathView>,
    pub untitled_name: Seq<char>,
    pub dirty: bool,
}

/// Name of the untitled document with number `index`.
pub open spec fn untitled_title(index: nat) -> Seq<char> {
    "Untitled "@ + decimal(index)
}

/// Name of an opened document whose path has no usable last component.
pub open spec fn fallback_title() -> Seq<char> {
    "Untitled"@
}

/// The title shown for a document: the file name of its path, else the name
/// it was given when it was created.
pub open spec fn title_of(v: DocumentView) -> Seq<char> {
    match v.path {
        Some(p) => match p.file_name {
            Some(n) => n,
            None => v.untitled_name,
        },
        None => v.untitled_name,
    }
}

/// The text of a selection, its ends clamped to the text.
pub open spec fn selected_text(t: Seq<char>, sel: Range<usize>) -> Seq<char> {
    t.subrange(clamp_index(t, sel.start as int), clamp_index(t, sel.end as int))
}

/// What replaces the selection `sel` of `t` when the whole selection is a
/// match of `q`; `None` when it is not.
pub open spec fn selection_replacement(
    t: Seq<char>,
    q: Seq<char>,
    rep: Seq<char>,
    use_regex: bool,
    sel: Range<usize>,
) -> Option<Seq<char>> {
    let s = selected_text(t, sel);
    if use_regex {
        if regex_find_at(q, s, 0) == Some((0usize, byte_len(s) as usize)) {
            Some(regex_replace_first(q, s, rep))
        } else {
            None
        }
    } else if s == q {
        Some(rep)
    } else {
        None
    }
}

/// Next match from character `start`, wrapping round, in either mode.
pub open spec fn find_next_spec(t: Seq<char>, q: Seq<char>, use_regex: bool, start: int) -> Option<
    Range<usize>,
> {
    if use_regex {
        regex_find_next(t, q, start)
    } else {
        literal_find_next(t, q, start)
    }
}

/// The text after replacing every match, in either mode.
pub open spec fn replaced_text(t: Seq<char>, q: Seq<char>, rep: Seq<char>, use_regex: bool) -> Seq<
    char,
> {
    if use_regex {
        regex_replace_all(q, t, rep)
    } else {
        replace_literal(t, q, rep)
    }
}

/// Number of matches, in either mode.
pub open spec fn match_count(t: Seq<char>, q: Seq<char>, use_regex: bool) -> nat {
    if use_regex {
        regex_matches(q, t).len()
    } else {
        literal_count(t, q)
    }
}

/// Replace-or-relocate on the text `t` with selection `sel`: the range to
/// select next, and the new text where the selection was replaced.
pub open spec fn replace_outcome(
    t: Seq<char>,
    q: Seq<char>,
    rep: Seq<char>,
    use_regex: bool,
    sel: Range<usize>,
) -> (Option<Range<usize>>, Option<Seq<char>>) {
    let s = clamp_index(t, sel.start as int);
    let e = clamp_index(t, sel.end as int);
    let found = selection_replacement(t, q, rep, use_regex, sel);
    if sel.start < sel.end && found is Some {
        let r = found->0;
        (
            Some(Range { start: s as usize, end: (s + r.len()) as usize }),
            Some(t.subrange(0, s) + r + t.subrange(e, t.len() as int)),
        )
    } else {
        (find_next_spec(t, q, use_regex, sel.end as int), None)
    }
}

/// A document after its text was set to `new_text`, if there is one.
pub open spec fn with_text(v: DocumentView, new_text: Option<Seq<char>>) -> DocumentView {
    match new_text {
        Some(t) => DocumentView { text: t, dirty: true, ..v },
        None => v,
    }
}

/// A document after every match was replaced; it turns dirty only when its
/// text changes.
pub open spec fn after_replace_all(v: DocumentView, q: Seq<char>, rep: Seq<char>, use_regex: bool) -> DocumentView {
    let t = replaced_text(v.text, q, rep, use_regex);
    DocumentView { text: t, dirty: v.dirty || t != v.text, ..v }
}

/// An in-memory text buffer.
pub struct Document {
    text: String,
    rope: Rope,
    path: Option<DocPath>,
    untitled_name: String,
    dirty: bool,
}

impl View for Document {
    type V = DocumentView;

    closed spec fn view(&self) -> DocumentView {
        DocumentView {
            text: self.text@,
            path: match self.path {
                Some(p) => Some(p@),
                None => None,
            },
            untitled_name: self.untitled_name@,
            dirty: self.dirty,
        }
    }
}

impl Document {
    /// The rope mirrors the text.
    pub closed spec fn wf(&self) -> bool {
        rope_text(self.rope) == self.text@
    }

    /// An empty, clean document named after `index`.
    pub fn new_untitled(index: usize) -> (d: Document)
        ensures
            d.wf(),
            d@.text == Seq::<char>::empty(),
            d@.path is None,
            d@.untitled_name == untitled_title(index as nat),
            !d@.dirty,
    {
        let mut name = "Untitled ".to_owned();
        push_decimal(&mut name, index);
        Document {
            text: String::new(),
            rope: empty_rope(),
            path: None,
            untitled_name: name,
            dirty: false,
        }
    }

    /// A clean document holding `text`, as read from `path`.
    pub fn from_path(path: DocPath, text: String) -> (d: Document)
        ensures
            d.wf(),
            d@.text == text@,
            d@.path == Some(path@),
            d@.untitled_name == (match path@.file_name {
                Some(n) => n,
                None => fallback_title(),
            }),
            !d@.dirty,
    {
        let untitled_name = match &path.file_name {
            Some(n) => n.clone(),
            None => "Untitled".to_owned(),
        };
        let rope = rope_of(text.as_str());
        Document { text, rope, path: Some(path), untitled_name, dirty: false }
    }

    pub fn title(&self) -> (r: String)
        ensures
            r@ == title_of(self@),
    {
        match &self.path {
            Some(p) => match &p.file_name {
                Some(n) => n.clone(),
                None => self.untitled_name.clone(),
            },
            None => self.untitled_name.clone(),
        }
    }

    pub fn text(&self) -> (r: &str)
        ensures
            r@ == self@.text,
    {
        self.text.as_str()
    }

    pub fn is_empty(&self) -> (r: bool)
        ensures
            r == (self@.text.len() == 0),
    {
        self.text.as_str().is_empty()
    }

    /// Direct access to the text for an editing widget; call `sync_rope`
    /// after a change.
    pub fn text_mut(&mut self) -> (r: &mut String)
        ensures
            (*r)@ == old(self)@.text,
            final(self)@ == (DocumentView { text: (*final(r))@, ..old(self)@ }),
    {
        &mut self.text
    }

    /// Records an edit of the text: the rope follows it and the document is
    /// dirty.
    pub fn sync_rope(&mut self)
        ensures
            final(self).wf(),
            final(self)@ == (DocumentView { dirty: true, ..old(self)@ }),
    {
        self.rope = rope_of(self.text.as_str());
        self.dirty = true;
    }

    pub fn is_dirty(&self) -> (r: bool)
        ensures
            r == self@.dirty,
    {
        self.dirty
    }

    pub fn path(&self) -> (r: Option<&DocPath>)
        ensures
            r matches Some(p) ==> self@.path == Some(p@),
            r is None ==> self@.path is None,
    {
        self.path.as_ref()
    }

    /// Records that the text was written to `path`: the document now belongs
    /// there and is clean.
    pub fn save_to(&mut self, path: DocPath)
        requires
            old(self).wf(),
        ensures
            final(self).wf(),
            final(self)@ == (DocumentView { path: Some(path@), dirty: false, ..old(self)@ }),
    {
        self.path = Some(path);
        self.dirty = false;
    }

    /// Replaces every match of `query` by `replacement` and returns how many
    /// there were. The document is marked dirty only when its text changes;
    /// on an error nothing changes.
    pub fn replace_all(&mut self, query: &str, replacement: &str, use_regex: bool) -> (r: Result<
        usize,
        SearchError,
    >)
        requires
            old(self).wf(),
        ensures
            final(self).wf(),
            query@.len() == 0 ==> r matches Err(SearchError::EmptyQuery),
            query@.len() > 0 && use_regex && !regex_valid(query@) ==> r matches Err(
                SearchError::Pattern(_),
            ),
            r is Err ==> final(self)@ == old(self)@,
            query@.len() > 0 && (use_regex ==> regex_valid(query@)) ==> {
                &&& r matches Ok(n) && n == match_count(old(self)@.text, query@, use_regex)
                &&& final(self)@ == after_replace_all(old(self)@, query@, replacement@, use_regex)
            },
            r == Ok::<usize, SearchError>(0) ==> final(self)@ == old(self)@,
    {
        let n = count_matches(use_regex, self.text.as_str(), query)?;
        let replaced = replace_all_matches(use_regex, self.text.as_str(), query, replacement)?;
        proof {
            if n == 0 && !use_regex {
                lemma_replace_without_match(self.text@, query@, replacement@);
            }
        }
        if !same_text(replaced.as_str(), self.text.as_str()) {
            self.text = replaced;
            self.sync_rope();
        }
        Ok(n)
    }

    /// Replace, or move on: when the whole of `selection` is a match of
    /// `query`, it is replaced and the range of the inserted text comes back;
    /// otherwise the text is left as it is and the next match after the
    /// selection comes back, to be selected.
    pub fn replace_current(
        &mut self,
        query: &str,
        replacement: &str,
        use_regex: bool,
        selection: Range<usize>,
    ) -> (r: Result<Option<Range<usize>>, SearchError>)
        requires
            old(self).wf(),
            selection.start <= selection.end,
        ensures
            final(self).wf(),
            query@.len() == 0 ==> r matches Err(SearchError::EmptyQuery),
            query@.len() > 0 && use_regex && !regex_valid(query@) ==> r matches Err(
                SearchError::Pattern(_),
            ),
            r is Err ==> final(self)@ == old(self)@,
            query@.len() > 0 && (use_regex ==> regex_valid(query@)) ==> {
                let o = replace_outcome(old(self)@.text, query@, replacement@, use_regex, selection);
                &&& r == Ok::<_, SearchError>(o.0)
                &&& final(self)@ == with_text(old(self)@, o.1)
            },
    {
        if query.is_empty() {
            return Err(SearchError::EmptyQuery);
        }
        if selection.start < selection.end {
            let replaced = {
                let selected = slice_char_range(self.text.as_str(), &selection);
                replace_match(query, selected, replacement, use_regex)?
            };
            if let Some(rep) = replaced {
                let n = self.text.as_str().unicode_len();
                let s = if selection.start < n {
                    selection.start
                } else {
                    n
                };
                let e = if selection.end < n {
                    selection.end
                } else {
                    n
                };
                let mut new_text = self.text.as_str().substring_char(0, s).to_owned();
                new_text.append(rep.as_str());
                new_text.append(self.text.as_str().substring_char(e, n));
                // The new text holds the inserted one after `s` characters,
                // so the end of the inserted range fits in its length.
                let new_len = new_text.as_str().unicode_len();
                let inserted = rep.as_str().unicode_len();
                let end = s + inserted;
                assert(end <= new_len);
                self.text = new_text;
                self.sync_rope();
                return Ok(Some(s..end));
            }
        }
        find_next(self.text.as_str(), query, use_regex, selection.end)
    }
}

} // verus!
