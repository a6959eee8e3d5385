//! Conversion between character offsets and UTF-8 byte offsets.

use std::ops::Range;
use vstd::prelude::*;
use vstd::string::{StrSliceExecFns, StringSliceAdditionalSpecFns};
use vstd::utf8::*;

verus! {

/// Number of bytes in the UTF-8 encoding of `c`.
pub open spec fn char_width(c: char) -> nat {
    let v = c as u32;
    if v <= 0x7F {
        1
    } else if v <= 0x7FF {
        2
    } else if v <= 0xFFFF {
        3
    } else {
        4
    }
}

/// Number of bytes in the UTF-8 encoding of `s`.
pub open spec fn byte_len(s: Seq<char>) -> nat
    decreases s.len(),
{
    if s.len() == 0 {
        0
    } else {
        byte_len(s.drop_last()) + char_width(s.last())
    }
}

/// Byte offset at which the character with index `i` of `s` starts.
pub open spec fn byte_offset(s: Seq<char>, i: int) -> nat {
    byte_len(s.take(i))
}

/// Byte offset of the character with index `c`; past the last character,
/// the length of the text in bytes.
pub open spec fn char_to_byte(s: Seq<char>, c: int) -> nat {
    if c < s.len() {
        byte_offset(s, c)
    } else {
        byte_len(s)
    }
}

/// Number of characters of `s` that start before byte offset `b`.
pub open spec fn byte_to_char(s: Seq<char>, b: int) -> nat
    decreases s.len(),
{
    if s.len() == 0 {
        0
    } else if byte_len(s.drop_last()) < b {
        s.len()
    } else {
        byte_to_char(s.drop_last(), b)
    }
}

/// `b` is the offset of a character boundary of `s` (its end included).
pub open spec fn is_boundary(s: Seq<char>, b: int) -> bool {
    exists|i: int| 0 <= i <= s.len() && #[trigger] byte_offset(s, i) == b
}

/// The byte length of a concatenation is the sum of the byte lengths.
pub proof fn lemma_byte_len_concat(a: Seq<char>, b: Seq<char>)
    ensures
        byte_len(a + b) == byte_len(a) + byte_len(b),
    decreases b.len(),
{
    if b.len() == 0 {
        assert(a + b =~= a);
    } else {
        assert((a + b).drop_last() =~= a + b.drop_last());
        lemma_byte_len_concat(a, b.drop_last());
    }
}

/// The byte length of a non-empty text is at least its number of characters.
pub proof fn lemma_byte_len_ge_len(s: Seq<char>)
    ensures
        byte_len(s) >= s.len(),
    decreases s.len(),
{
    if s.len() > 0 {
        lemma_byte_len_ge_len(s.drop_last());
    }
}

/// Character offsets map to strictly increasing byte offsets.
pub proof fn lemma_byte_offset_strict(s: Seq<char>, i: int, j: int)
    requires
        0 <= i < j <= s.len(),
    ensures
        byte_offset(s, i) < byte_offset(s, j),
        byte_offset(s, j) - byte_offset(s, i) >= j - i,
{
    let mid = s.subrange(i, j);
    assert(s.take(j) =~= s.take(i) + mid);
    lemma_byte_len_concat(s.take(i), mid);
    lemma_byte_len_ge_len(mid);
}

/// Byte offsets never exceed the byte length of the whole text.
pub proof fn lemma_byte_offset_le(s: Seq<char>, i: int)
    requires
        0 <= i <= s.len(),
    ensures
        byte_offset(s, i) <= byte_len(s),
{
    assert(s =~= s.take(i) + s.skip(i));
    lemma_byte_len_concat(s.take(i), s.skip(i));
}

/// The offset after character `i` is the offset of `i` plus its width.
pub proof fn lemma_byte_offset_next(s: Seq<char>, i: int)
    requires
        0 <= i < s.len(),
    ensures
        byte_offset(s, i + 1) == byte_offset(s, i) + char_width(s[i]),
{
    assert(s.take(i + 1).drop_last() =~= s.take(i));
}

/// Our byte length is the length of vstd's UTF-8 encoding.
pub proof fn lemma_byte_len_encode(s: Seq<char>)
    ensures
        byte_len(s) == encode_utf8(s).len(),
    decreases s.len(),
{
    if s.len() > 0 {
        let c = s[0];
        char_is_scalar(c);
        assert(encode_scalar(c as u32).len() == char_width(c));
        assert(s =~= seq![c] + s.drop_first());
        lemma_byte_len_concat(seq![c], s.drop_first());
        assert(seq![c].drop_last() =~= Seq::<char>::empty());
        assert(byte_len(Seq::<char>::empty()) == 0);
        assert(byte_len(seq![c]) == char_width(c));
        lemma_byte_len_encode(s.drop_first());
        assert(encode_utf8(s) == encode_scalar(s[0] as u32) + encode_utf8(s.drop_first()));
    }
}

/// The byte length of a string slice is `byte_len` of its characters.
pub proof fn lemma_str_len(text: &str)
    ensures
        text.spec_bytes().len() == byte_len(text@),
{
    lemma_byte_len_encode(text@);
}

/// Round trip: converting a character offset to bytes and back gives the
/// character offset again, for every offset from 0 to the character count.
pub proof fn lemma_char_byte_round_trip(s: Seq<char>, c: int)
    requires
        0 <= c <= s.len(),
    ensures
        byte_to_char(s, char_to_byte(s, c) as int) == c,
    decreases s.len(),
{
    assert(s.take(s.len() as int) =~= s);
    assert(char_to_byte(s, c) == byte_offset(s, c));
    if s.len() > 0 {
        assert(s.take(s.len() - 1) =~= s.drop_last());
        if c == s.len() {
            lemma_byte_offset_strict(s, c - 1, c);
        } else {
            if c < s.len() - 1 {
                lemma_byte_offset_strict(s, c, s.len() - 1);
            }
            let t = s.drop_last();
            assert(t.take(c) =~= s.take(c));
            lemma_char_byte_round_trip(t, c);
            assert(char_to_byte(t, c) == byte_offset(s, c)) by {
                if c == t.len() {
                    assert(t.take(c) =~= t);
                }
            }
        }
    }
}

/// `byte_to_char` is the index of the first character that starts at or after
/// `b`, or the character count where there is none.
proof fn lemma_byte_to_char_first(s: Seq<char>, b: int, k: int)
    requires
        0 <= k <= s.len(),
        forall|j: int| 0 <= j < k ==> #[trigger] byte_offset(s, j) < b,
        k == s.len() || byte_offset(s, k) >= b,
    ensures
        byte_to_char(s, b) == k,
    decreases s.len(),
{
    if s.len() > 0 {
        let n = s.len() - 1;
        assert(s.take(n) =~= s.drop_last());
        if k == s.len() {
            assert(byte_offset(s, n) < b);
        } else {
            if k < n {
                lemma_byte_offset_strict(s, k, n);
            }
            let t = s.drop_last();
            assert forall|j: int| 0 <= j <= t.len() implies #[trigger] byte_offset(t, j)
                == byte_offset(s, j) by {
                assert(t.take(j) =~= s.take(j));
            }
            assert forall|j: int| 0 <= j < k implies #[trigger] byte_offset(t, j) < b by {
                assert(byte_offset(s, j) < b);
            }
            lemma_byte_to_char_first(t, b, k);
        }
    }
}

/// At a character boundary, `byte_to_char` gives the character index.
pub proof fn lemma_byte_to_char_boundary(s: Seq<char>, i: int)
    requires
        0 <= i <= s.len(),
    ensures
        byte_to_char(s, byte_offset(s, i) as int) == i,
{
    lemma_char_byte_round_trip(s, i);
    assert(s.take(s.len() as int) =~= s);
}

/// Number of bytes that `c` takes in UTF-8.
pub fn utf8_width(c: char) -> (r: usize)
    ensures
        r == char_width(c),
{
    let v = c as u32;
    if v <= 0x7F {
        1
    } else if v <= 0x7FF {
        2
    } else if v <= 0xFFFF {
        3
    } else {
        4
    }
}

/// The characters of `text`, in order.
pub fn chars_of(text: &str) -> (r: Vec<char>)
    ensures
        r@ == text@,
{
    let mut out: Vec<char> = Vec::new();
    for c in it: text.chars()
        invariant
            out@ == it.seq().take(it.index() as int),
    {
        out.push(c);
    }
    out
}

/// Length of `text` in bytes.
pub fn byte_count(text: &str) -> (r: usize)
    ensures
        r == byte_len(text@),
{
    let bytes = text.as_bytes();
    proof {
        lemma_str_len(text);
    }
    bytes.len()
}

/// Byte offset of the character with index `char_index` in `text`; an index
/// past the last character gives the length of `text` in bytes.
pub fn byte_index_from_char(text: &str, char_index: usize) -> (r: usize)
    ensures
        r == char_to_byte(text@, char_index as int),
{
    let chars = chars_of(text);
    let total = byte_count(text);
    let mut byte: usize = 0;
    let mut i: usize = 0;
    while i < chars.len() && i < char_index
        invariant
            i <= chars.len(),
            i <= char_index,
            chars@ == text@,
            byte == byte_offset(text@, i as int),
            total == byte_len(text@),
        decreases chars.len() - i,
    {
        proof {
            lemma_byte_offset_next(text@, i as int);
            lemma_byte_offset_le(text@, i + 1);
        }
        byte = byte + utf8_width(chars[i]);
        i = i + 1;
    }
    proof {
        assert(text@.take(text@.len() as int) =~= text@);
    }
    byte
}

/// Number of characters of `text` that start before byte offset `byte`; at a
/// character boundary, the index of the character that starts there.
pub fn char_index_from_byte(text: &str, byte: usize) -> (r: usize)
    ensures
        r == byte_to_char(text@, byte as int),
{
    let chars = chars_of(text);
    let total = byte_count(text);
    let mut offset: usize = 0;
    let mut i: usize = 0;
    while i < chars.len() && offset < byte
        invariant
            i <= chars.len(),
            chars@ == text@,
            offset == byte_offset(text@, i as int),
            total == byte_len(text@),
            forall|j: int| 0 <= j < i ==> #[trigger] byte_offset(text@, j) < byte,
        decreases chars.len() - i,
    {
        proof {
            lemma_byte_offset_next(text@, i as int);
            lemma_byte_offset_le(text@, i + 1);
        }
        offset = offset + utf8_width(chars[i]);
        i = i + 1;
    }
    proof {
        lemma_byte_to_char_first(text@, byte as int, i as int);
    }
    i
}

/// Character range of the byte range `range` of `text`, whose two ends lie on
/// character boundaries.
pub fn byte_range_to_char_range(text: &str, range: Range<usize>) -> (r: Range<usize>)
    requires
        is_boundary(text@, range.start as int),
        is_boundary(text@, range.end as int),
    ensures
        r.start == byte_to_char(text@, range.start as int),
        r.end == byte_to_char(text@, range.end as int),
        r.start <= text@.len(),
        r.end <= text@.len(),
        byte_offset(text@, r.start as int) == range.start,
        byte_offset(text@, r.end as int) == range.end,
{
    let start = char_index_from_byte(text, range.start);
    let end = char_index_from_byte(text, range.end);
    proof {
        let i = choose|i: int| 0 <= i <= text@.len() && #[trigger] byte_offset(text@, i)
            == range.start;
        lemma_byte_to_char_boundary(text@, i);
        let j = choose|j: int| 0 <= j <= text@.len() && #[trigger] byte_offset(text@, j)
            == range.end;
        lemma_byte_to_char_boundary(text@, j);
    }
    start..end
}

/// Clamps a character index to the character count of `s`.
pub open spec fn clamp_index(s: Seq<char>, c: int) -> int {
    if c < s.len() {
        c
    } else {
        s.len() as int
    }
}

/// The text between two character indices, each clamped to the end of `text`.
pub fn slice_char_range<'a>(text: &'a str, range: &Range<usize>) -> (r: &'a str)
    requires
        clamp_index(text@, range.start as int) <= clamp_index(text@, range.end as int),
    ensures
        r@ == text@.subrange(
            clamp_index(text@, range.start as int),
            clamp_index(text@, range.end as int),
        ),
{
    let n = text.unicode_len();
    let start = if range.start < n {
        range.start
    } else {
        n
    };
    let end = if range.end < n {
        range.end
    } else {
        n
    };
    text.substring_char(start, end)
}

} // verus!
