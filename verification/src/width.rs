//! Terminal column widths of characters, from the `unicode-width` tables.

use unicode_width::{UnicodeWidthChar, UnicodeWidthStr};
use vstd::prelude::*;

verus! {

/// The width that `unicode-width`'s tables give a character (`None` for control characters).
pub uninterp spec fn unicode_char_width(c: char) -> Option<usize>;

/// Calls `UnicodeWidthChar::width` of `unicode-width`.
/// Claimed of it, as its `single_char_width`/`lookup_width` source shows: the result is the
/// tabulated width of `c`; U+0020..U+007E have width 1; U+0000..U+001F and U+007F..U+009F
/// have none; every character from U+00A0 on has one, and no width exceeds 3.
#[verifier::external_body]
pub(crate) fn unicode_width_of(c: char) -> (r: Option<usize>)
    ensures
        r == unicode_char_width(c),
        0x20 <= c as u32 && (c as u32) < 0x7F ==> r == Some(1usize),
        (c as u32) < 0x20 || (0x7F <= c as u32 && (c as u32) < 0xA0) ==> r is None,
        0xA0 <= c as u32 ==> r is Some,
        r matches Some(w) ==> w <= 3,
{
    UnicodeWidthChar::width(c)
}

/// The width that `unicode-width` gives a whole string, emoji and joining sequences
/// taken together.
pub uninterp spec fn unicode_str_width(s: Seq<char>) -> usize;

/// Calls `UnicodeWidthStr::width` of `unicode-width` (what `ratatui` measures a span
/// with). Claimed of it: the result is a function of the characters alone (the name
/// [`unicode_str_width`]); how its `str_width` source folds the per-character widths is not
/// stated here.
#[verifier::external_body]
pub(crate) fn str_width(s: &str) -> (r: usize)
    ensures
        r == unicode_str_width(s@),
{
    UnicodeWidthStr::width(s)
}

/// Columns a character occupies; control characters occupy none.
pub open spec fn char_cols(c: char) -> nat {
    match unicode_char_width(c) {
        Some(w) => w as nat,
        None => 0,
    }
}

/// Columns a character sequence occupies: the sum over its characters.
pub open spec fn cols(s: Seq<char>) -> nat
    decreases s.len(),
{
    if s.len() == 0 {
        0
    } else {
        cols(s.drop_last()) + char_cols(s.last())
    }
}

/// Display width of a character (control characters count zero).
pub fn char_width(ch: char) -> (w: usize)
    ensures
        w == char_cols(ch),
        w <= 3,
        0x20 <= ch as u32 && (ch as u32) < 0x7F ==> w == 1,
{
    match unicode_width_of(ch) {
        Some(w) => w,
        None => 0,
    }
}

/// `cols` of a one-step longer prefix.
pub proof fn lemma_cols_take_step(s: Seq<char>, i: int)
    requires
        0 <= i < s.len(),
    ensures
        cols(s.take(i + 1)) == cols(s.take(i)) + char_cols(s[i]),
{
    assert(s.take(i + 1).drop_last() =~= s.take(i));
}

/// Columns of a concatenation are the sum of the columns of its parts.
pub proof fn lemma_cols_concat(a: Seq<char>, b: Seq<char>)
    ensures
        cols(a + b) == cols(a) + cols(b),
    decreases b.len(),
{
    if b.len() == 0 {
        assert(a + b =~= a);
    } else {
        lemma_cols_concat(a, b.drop_last());
        assert((a + b).drop_last() =~= a + b.drop_last());
        assert((a + b).last() == b.last());
    }
}

/// Columns of a one-character sequence.
pub proof fn lemma_cols_single(c: char)
    ensures
        cols(seq![c]) == char_cols(c),
{
    assert(seq![c].drop_last() =~= Seq::<char>::empty());
    assert(cols(Seq::<char>::empty()) == 0);
}

/// Whether `v` fits in `limit` columns.
pub fn cols_le(v: &[char], limit: usize) -> (b: bool)
    ensures
        b == (cols(v@) <= limit),
{
    let mut w: usize = 0;
    let mut i: usize = 0;
    while i < v.len()
        invariant
            i <= v@.len(),
            w == cols(v@.take(i as int)),
            w <= limit,
        decreases v@.len() - i,
    {
        let cw = char_width(v[i]);
        proof {
            lemma_cols_take_step(v@, i as int);
        }
        if cw > limit - w {
            proof {
                lemma_cols_prefix_le(v@, i + 1);
            }
            return false;
        }
        w = w + cw;
        i += 1;
    }
    assert(v@.take(v@.len() as int) =~= v@);
    true
}

/// A prefix is never wider than the whole sequence.
pub proof fn lemma_cols_prefix_le(s: Seq<char>, i: int)
    requires
        0 <= i <= s.len(),
    ensures
        cols(s.take(i)) <= cols(s),
    decreases s.len() - i,
{
    if i < s.len() {
        lemma_cols_prefix_le(s, i + 1);
        lemma_cols_take_step(s, i);
    } else {
        assert(s.take(i) =~= s);
    }
}

/// Display width of a character sequence.
pub fn cols_of(v: &[char]) -> (w: usize)
    requires
        v@.len() * 3 <= usize::MAX,
    ensures
        w == cols(v@),
        w <= 3 * v@.len(),
{
    let mut w: usize = 0;
    let mut i: usize = 0;
    while i < v.len()
        invariant
            i <= v@.len(),
            v@.len() * 3 <= usize::MAX,
            w == cols(v@.take(i as int)),
            w <= 3 * i,
        decreases v@.len() - i,
    {
        let cw = char_width(v[i]);
        proof {
            lemma_cols_take_step(v@, i as int);
        }
        w = w + cw;
        i += 1;
    }
    assert(v@.take(v@.len() as int) =~= v@);
    w
}

} // verus!
