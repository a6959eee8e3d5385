//! Literal and regular-expression search and replacement.
//!
//! Literal queries are matched character by character; regular expressions
//! are run by the `regex` crate on byte offsets, which are turned back into
//! character offsets.

use crate::index::{
    byte_count, byte_index_from_char, byte_len, byte_offset, byte_range_to_char_range,
    byte_to_char, char_index_from_byte, char_to_byte, chars_of, clamp_index, is_boundary,
    lemma_byte_offset_le, lemma_byte_to_char_boundary,
};
use crate::pattern::{
    regex_find_at, regex_matches, regex_replace_all, regex_replace_first, regex_valid, Pattern,
};
use crate::text::{push_char, same_text};
use std::ops::Range;
use vstd::prelude::*;
use vstd::string::StringExecFns;

verus! {

/// Why a search or a replacement did not run.
#[derive(Debug)]
pub enum SearchError {
    /// The query is empty.
    EmptyQuery,
    /// The query is not a valid regular expression; the message says why.
    Pattern(String),
}

/// `q` occurs in `t` starting at character `i`.
pub open spec fn occurs_at(t: Seq<char>, q: Seq<char>, i: int) -> bool {
    0 <= i && i + q.len() <= t.len() && t.subrange(i, i + q.len()) == q
}

/// The first character index at or after `s` where `q` occurs in `t`.
pub open spec fn find_from(t: Seq<char>, q: Seq<char>, s: int) -> Option<int>
    decreases t.len() + 1 - s,
{
    if s < 0 || s > t.len() {
        None
    } else if occurs_at(t, q, s) {
        Some(s)
    } else {
        find_from(t, q, s + 1)
    }
}

/// Starts of the non-overlapping occurrences of `q` in `t` from character
/// `i` on, found left to right; an occurrence consumes its characters.
pub open spec fn occurrences(t: Seq<char>, q: Seq<char>, i: int) -> Seq<int>
    decreases t.len() + 1 - i,
{
    if q.len() == 0 || i < 0 || i + q.len() > t.len() {
        seq![]
    } else if occurs_at(t, q, i) {
        seq![i] + occurrences(t, q, i + q.len())
    } else {
        occurrences(t, q, i + 1)
    }
}

/// `t` from character `i` on, with each occurrence of `q` that
/// `occurrences` finds replaced by `r`.
pub open spec fn replace_from(t: Seq<char>, q: Seq<char>, r: Seq<char>, i: int) -> Seq<char>
    decreases t.len() + 1 - i,
{
    if q.len() == 0 || i < 0 || i + q.len() > t.len() {
        t.subrange(i, t.len() as int)
    } else if occurs_at(t, q, i) {
        r + replace_from(t, q, r, i + q.len())
    } else {
        seq![t[i]] + replace_from(t, q, r, i + 1)
    }
}

/// Number of non-overlapping occurrences of `q` in `t`.
pub open spec fn literal_count(t: Seq<char>, q: Seq<char>) -> nat {
    occurrences(t, q, 0).len()
}

/// `t` with every non-overlapping occurrence of `q` replaced by `r`.
pub open spec fn replace_literal(t: Seq<char>, q: Seq<char>, r: Seq<char>) -> Seq<char> {
    replace_from(t, q, r, 0)
}

/// The character range of an occurrence of a query of `n` characters.
pub open spec fn literal_range(found: Option<int>, n: nat) -> Option<Range<usize>> {
    match found {
        Some(i) => Some(Range { start: i as usize, end: (i + n) as usize }),
        None => None,
    }
}

/// The character range of the byte range `m` of `s`.
pub open spec fn char_range_of(s: Seq<char>, m: Option<(usize, usize)>) -> Option<Range<usize>> {
    match m {
        Some(p) => Some(
            Range {
                start: byte_to_char(s, p.0 as int) as usize,
                end: byte_to_char(s, p.1 as int) as usize,
            },
        ),
        None => None,
    }
}

/// Literal search from character `start`, wrapping round to the start of the
/// text when nothing is found after it.
pub open spec fn literal_find_next(t: Seq<char>, q: Seq<char>, start: int) -> Option<Range<usize>> {
    match find_from(t, q, clamp_index(t, start)) {
        Some(i) => literal_range(Some(i), q.len()),
        None => literal_range(find_from(t, q, 0), q.len()),
    }
}

/// Pattern search from character `start`, wrapping round to the start of the
/// text when nothing is found after it.
pub open spec fn regex_find_next(t: Seq<char>, p: Seq<char>, start: int) -> Option<Range<usize>> {
    match regex_find_at(p, t, char_to_byte(t, start) as usize) {
        Some(m) => char_range_of(t, Some(m)),
        None => char_range_of(t, regex_find_at(p, t, 0)),
    }
}

/// What `find_from` returns is an occurrence, at or after `s`, with none
/// between `s` and it.
pub proof fn lemma_find_from(t: Seq<char>, q: Seq<char>, s: int)
    ensures
        find_from(t, q, s) matches Some(i) ==> s <= i && occurs_at(t, q, i) && forall|j: int|
            s <= j < i ==> !occurs_at(t, q, j),
        find_from(t, q, s) is None && 0 <= s ==> forall|j: int| s <= j ==> !occurs_at(t, q, j),
    decreases t.len() + 1 - s,
{
    if 0 <= s <= t.len() && !occurs_at(t, q, s) {
        lemma_find_from(t, q, s + 1);
    }
}

/// Whether `q` occurs in `t` at character `i`.
fn matches_at(t: &Vec<char>, q: &Vec<char>, i: usize) -> (r: bool)
    requires
        i <= t.len(),
    ensures
        r == occurs_at(t@, q@, i as int),
{
    if t.len() - i < q.len() {
        return false;
    }
    let mut k: usize = 0;
    while k < q.len()
        invariant
            k <= q.len(),
            i + q.len() <= t.len(),
            forall|j: int| 0 <= j < k ==> t@[i + j] == q@[j],
        decreases q.len() - k,
    {
        if t[i + k] != q[k] {
            assert(t@.subrange(i as int, i + q.len())[k as int] != q@[k as int]);
            return false;
        }
        k = k + 1;
    }
    assert(t@.subrange(i as int, i + q.len()) =~= q@);
    true
}

/// The first index at or after `start` where `q` occurs in `t`.
fn literal_find(t: &Vec<char>, q: &Vec<char>, start: usize) -> (r: Option<usize>)
    requires
        start <= t.len(),
    ensures
        r matches Some(i) ==> find_from(t@, q@, start as int) == Some(i as int),
        r is None ==> find_from(t@, q@, start as int) is None,
{
    let mut i = start;
    while i < t.len()
        invariant
            start <= i <= t.len(),
            find_from(t@, q@, start as int) == find_from(t@, q@, i as int),
        decreases t.len() - i,
    {
        if matches_at(t, q, i) {
            return Some(i);
        }
        i = i + 1;
    }
    if matches_at(t, q, i) {
        Some(i)
    } else {
        assert(find_from(t@, q@, i + 1) is None);
        None
    }
}

/// Number of non-overlapping occurrences of `q` in `t`.
fn literal_count_of(t: &Vec<char>, q: &Vec<char>) -> (r: usize)
    requires
        q.len() > 0,
    ensures
        r == literal_count(t@, q@),
{
    let mut i: usize = 0;
    let mut n: usize = 0;
    while i < t.len() && t.len() - i >= q.len()
        invariant
            i <= t.len(),
            n <= i,
            q.len() > 0,
            literal_count(t@, q@) == n + occurrences(t@, q@, i as int).len(),
        decreases t.len() - i,
    {
        if matches_at(t, q, i) {
            n = n + 1;
            i = i + q.len();
        } else {
            i = i + 1;
        }
    }
    n
}

/// `t` with every non-overlapping occurrence of `q` replaced by `r`.
fn literal_replace(t: &Vec<char>, q: &Vec<char>, r: &str) -> (out: String)
    requires
        q.len() > 0,
    ensures
        out@ == replace_literal(t@, q@, r@),
{
    let mut out = String::new();
    let mut i: usize = 0;
    while i < t.len()
        invariant
            i <= t.len(),
            q.len() > 0,
            out@ + replace_from(t@, q@, r@, i as int) == replace_literal(t@, q@, r@),
        decreases t.len() - i,
    {
        if t.len() - i >= q.len() && matches_at(t, q, i) {
            let ghost before = out@;
            out.append(r);
            assert(before + replace_from(t@, q@, r@, i as int) =~= out@ + replace_from(
                t@,
                q@,
                r@,
                i + q.len(),
            ));
            i = i + q.len();
        } else {
            let ghost before = out@;
            let c = t[i];
            push_char(&mut out, c);
            if t.len() - i < q.len() {
                assert(t@.subrange(i as int, t.len() as int) =~= seq![c] + t@.subrange(
                    i + 1,
                    t.len() as int,
                ));
            }
            assert(before + replace_from(t@, q@, r@, i as int) =~= out@ + replace_from(
                t@,
                q@,
                r@,
                i + 1,
            ));
            i = i + 1;
        }
    }
    assert(out@ + replace_from(t@, q@, r@, i as int) =~= out@);
    out
}

/// Compiles `query`, reporting a rejected pattern as a search error.
fn compile_query(query: &str) -> (r: Result<Pattern, SearchError>)
    ensures
        r.is_ok() == regex_valid(query@),
        r matches Ok(p) ==> p.source() == query@,
        r matches Err(e) ==> e is Pattern,
{
    match Pattern::compile(query) {
        Ok(p) => Ok(p),
        Err(message) => Err(SearchError::Pattern(message)),
    }
}

/// The first match of `query` in `text` at or after byte offset
/// `start_byte`, as a character range; no wrapping.
pub fn find_match_range(text: &str, query: &str, use_regex: bool, start_byte: usize) -> (r: Result<
    Option<Range<usize>>,
    SearchError,
>)
    requires
        is_boundary(text@, start_byte as int),
    ensures
        use_regex ==> (r is Err <==> !regex_valid(query@)),
        r matches Err(e) ==> e is Pattern,
        use_regex && regex_valid(query@) ==> r == Ok::<_, SearchError>(
            char_range_of(text@, regex_find_at(query@, text@, start_byte)),
        ),
        !use_regex ==> r == Ok::<_, SearchError>(
            literal_range(
                find_from(text@, query@, byte_to_char(text@, start_byte as int) as int),
                query@.len(),
            ),
        ),
{
    if use_regex {
        let pattern = compile_query(query)?;
        proof {
            let i = choose|i: int| 0 <= i <= text@.len() && #[trigger] byte_offset(text@, i)
                == start_byte;
            lemma_byte_offset_le(text@, i);
        }
        match pattern.find_at(text, start_byte) {
            Some(m) => Ok(Some(byte_range_to_char_range(text, m.0..m.1))),
            None => Ok(None),
        }
    } else {
        let t = chars_of(text);
        let q = chars_of(query);
        let start = char_index_from_byte(text, start_byte);
        proof {
            let i = choose|i: int| 0 <= i <= text@.len() && #[trigger] byte_offset(text@, i)
                == start_byte;
            lemma_byte_to_char_boundary(text@, i);
        }
        let found = literal_find(&t, &q, start);
        proof {
            lemma_find_from(t@, q@, start as int);
        }
        match found {
            Some(i) => Ok(Some(i..i + q.len())),
            None => Ok(None),
        }
    }
}

/// `char_to_byte` always lands on a boundary, the one of the clamped index.
proof fn lemma_char_to_byte_boundary(s: Seq<char>, c: int)
    requires
        c >= 0,
    ensures
        char_to_byte(s, c) == byte_offset(s, clamp_index(s, c)),
        is_boundary(s, char_to_byte(s, c) as int),
        byte_to_char(s, char_to_byte(s, c) as int) == clamp_index(s, c),
{
    assert(s.take(s.len() as int) =~= s);
    let k = clamp_index(s, c);
    assert(byte_offset(s, k) == char_to_byte(s, c));
    lemma_byte_to_char_boundary(s, k);
}

/// The start of a text is a boundary, and its character index is 0.
proof fn lemma_zero_boundary(s: Seq<char>)
    ensures
        is_boundary(s, 0),
        byte_to_char(s, 0) == 0,
{
    assert(s.take(0) =~= Seq::<char>::empty());
    assert(byte_offset(s, 0) == 0);
    lemma_byte_to_char_boundary(s, 0);
}

/// The next match of `query` from character `start_char` on, wrapping round
/// to the start of the text when there is none after it.
pub fn find_next(text: &str, query: &str, use_regex: bool, start_char: usize) -> (r: Result<
    Option<Range<usize>>,
    SearchError,
>)
    ensures
        query@.len() == 0 ==> r matches Err(SearchError::EmptyQuery),
        query@.len() > 0 && use_regex && !regex_valid(query@) ==> r matches Err(
            SearchError::Pattern(_),
        ),
        query@.len() > 0 && use_regex && regex_valid(query@) ==> r == Ok::<_, SearchError>(
            regex_find_next(text@, query@, start_char as int),
        ),
        query@.len() > 0 && !use_regex ==> r == Ok::<_, SearchError>(
            literal_find_next(text@, query@, start_char as int),
        ),
{
    if query.is_empty() {
        return Err(SearchError::EmptyQuery);
    }
    let start_byte = byte_index_from_char(text, start_char);
    proof {
        lemma_char_to_byte_boundary(text@, start_char as int);
        lemma_zero_boundary(text@);
    }
    match find_match_range(text, query, use_regex, start_byte) {
        Ok(Some(found)) => Ok(Some(found)),
        Ok(None) => find_match_range(text, query, use_regex, 0),
        Err(e) => Err(e),
    }
}

/// The replacement for `selection` when the whole of it is a match of
/// `query`: the literal `replacement`, or for a pattern its expansion.
/// `None` when the selection is not such a match.
pub fn replace_match(query: &str, selection: &str, replacement: &str, use_regex: bool) -> (r:
    Result<Option<String>, SearchError>)
    ensures
        use_regex ==> (r is Err <==> !regex_valid(query@)),
        r matches Err(e) ==> e is Pattern,
        use_regex && regex_valid(query@) ==> (r matches Ok(o) && (o is Some <==> regex_find_at(
            query@,
            selection@,
            0,
        ) == Some((0usize, byte_len(selection@) as usize))) && (o matches Some(s) ==> s@
            == regex_replace_first(query@, selection@, replacement@))),
        !use_regex ==> (r matches Ok(o) && (o is Some <==> selection@ == query@) && (o matches Some(
            s,
        ) ==> s@ == replacement@)),
{
    if use_regex {
        let pattern = compile_query(query)?;
        let n = byte_count(selection);
        match pattern.find_at(selection, 0) {
            Some(m) => {
                if m.0 == 0 && m.1 == n {
                    Ok(Some(pattern.replace_first(selection, replacement)))
                } else {
                    Ok(None)
                }
            },
            None => Ok(None),
        }
    } else if same_text(selection, query) {
        Ok(Some(replacement.to_owned()))
    } else {
        Ok(None)
    }
}

/// `text` with every non-overlapping match of `query` replaced, left to
/// right; replaced text is never searched again.
pub fn replace_all_matches(use_regex: bool, text: &str, query: &str, replacement: &str) -> (r:
    Result<String, SearchError>)
    ensures
        query@.len() == 0 ==> r matches Err(SearchError::EmptyQuery),
        query@.len() > 0 && use_regex ==> (r is Err <==> !regex_valid(query@)),
        query@.len() > 0 ==> (r matches Err(e) ==> e is Pattern),
        query@.len() > 0 && use_regex && regex_valid(query@) ==> (r matches Ok(s) && s@
            == regex_replace_all(query@, text@, replacement@)),
        query@.len() > 0 && use_regex && regex_valid(query@) && regex_matches(query@, text@).len()
            == 0 ==> (r matches Ok(s) && s@ == text@),
        query@.len() > 0 && !use_regex ==> (r matches Ok(s) && s@ == replace_literal(
            text@,
            query@,
            replacement@,
        )),
{
    if query.is_empty() {
        return Err(SearchError::EmptyQuery);
    }
    if use_regex {
        let pattern = compile_query(query)?;
        Ok(pattern.replace_all(text, replacement))
    } else {
        let t = chars_of(text);
        let q = chars_of(query);
        Ok(literal_replace(&t, &q, replacement))
    }
}

/// Number of non-overlapping matches of `query` in `text`; 0 for an empty
/// query, without searching.
pub fn count_matches(use_regex: bool, text: &str, query: &str) -> (r: Result<usize, SearchError>)
    ensures
        query@.len() == 0 ==> r == Ok::<usize, SearchError>(0),
        query@.len() > 0 && use_regex ==> (r is Err <==> !regex_valid(query@)),
        r matches Err(e) ==> e is Pattern,
        query@.len() > 0 && use_regex && regex_valid(query@) ==> (r matches Ok(n) && n
            == regex_matches(query@, text@).len()),
        query@.len() > 0 && !use_regex ==> (r matches Ok(n) && n == literal_count(text@, query@)),
{
    if query.is_empty() {
        return Ok(0);
    }
    if use_regex {
        let pattern = compile_query(query)?;
        let found = pattern.find_all(text);
        Ok(found.len())
    } else {
        let t = chars_of(text);
        let q = chars_of(query);
        Ok(literal_count_of(&t, &q))
    }
}

/// Where no occurrence follows character `i`, replacing leaves the rest of
/// the text as it is.
proof fn lemma_replace_from_no_occurrence(t: Seq<char>, q: Seq<char>, r: Seq<char>, i: int)
    requires
        0 <= i <= t.len(),
        q.len() > 0,
        occurrences(t, q, i).len() == 0,
    ensures
        replace_from(t, q, r, i) == t.subrange(i, t.len() as int),
    decreases t.len() + 1 - i,
{
    if i + q.len() <= t.len() {
        assert(!occurs_at(t, q, i));
        lemma_replace_from_no_occurrence(t, q, r, i + 1);
        assert(t.subrange(i, t.len() as int) =~= seq![t[i]] + t.subrange(i + 1, t.len() as int));
    }
}

/// Replacing every occurrence of a query that does not occur leaves the text
/// unchanged.
pub proof fn lemma_replace_without_match(t: Seq<char>, q: Seq<char>, r: Seq<char>)
    requires
        q.len() > 0,
        literal_count(t, q) == 0,
    ensures
        replace_literal(t, q, r) == t,
{
    lemma_replace_from_no_occurrence(t, q, r, 0);
    assert(t.subrange(0, t.len() as int) =~= t);
}

} // verus!
