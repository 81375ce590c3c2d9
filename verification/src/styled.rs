//! Styled lines of popups and the helpers that build them.

use crate::session::{dec, push_decimal};
use crate::slash::pad_right;
use crate::transcript_view::{spans_view, Tone};
use vstd::prelude::*;

verus! {

/// Lines as plain values.
pub open spec fn styled_view(v: Seq<Vec<(Tone, String)>>) -> Seq<Seq<(Tone, Seq<char>)>> {
    v.map_values(|l: Vec<(Tone, String)>| spans_view(l@))
}

pub(crate) fn count_line(prefix: &str, n: usize) -> (r: Vec<(Tone, String)>)
    ensures
        spans_view(r@) == seq![(Tone::Muted, prefix@ + dec(n as nat) + " more"@)],
{
    let mut t = prefix.to_owned();
    push_decimal(&mut t, n as u64);
    t.append(" more");
    let r = vec![(Tone::Muted, t)];
    assert(spans_view(r@) =~= seq![(Tone::Muted, prefix@ + dec(n as nat) + " more"@)]);
    r
}

pub(crate) fn cat2(a: &str, b: &str) -> (r: String)
    ensures
        r@ == a@ + b@,
{
    let mut r = a.to_owned();
    r.append(b);
    r
}

pub(crate) fn push_styled(out: &mut Vec<Vec<(Tone, String)>>, l: Vec<(Tone, String)>)
    ensures
        styled_view(final(out)@) == styled_view(old(out)@).push(spans_view(l@)),
{
    let ghost o = styled_view(out@);
    let ghost lv = spans_view(l@);
    out.push(l);
    assert(styled_view(out@) =~= o.push(lv));
}

pub(crate) fn push_muted(out: &mut Vec<Vec<(Tone, String)>>, t: String)
    ensures
        styled_view(final(out)@) == styled_view(old(out)@).push(seq![(Tone::Muted, t@)]),
{
    let l = vec![(Tone::Muted, t)];
    assert(spans_view(l@) =~= seq![(Tone::Muted, t@)]);
    push_styled(out, l);
}

pub(crate) fn push_empty(out: &mut Vec<Vec<(Tone, String)>>)
    ensures
        styled_view(final(out)@) == styled_view(old(out)@).push(Seq::<(Tone, Seq<char>)>::empty()),
{
    let l: Vec<(Tone, String)> = Vec::new();
    assert(spans_view(l@) =~= Seq::<(Tone, Seq<char>)>::empty());
    push_styled(out, l);
}


/// `s` padded with spaces to `w` characters (see [`pad_right`]).
pub(crate) fn pad_to(s: &str, w: usize) -> (r: String)
    ensures
        r@ == pad_right(s@, w as nat),
{
    let mut r = s.to_owned();
    let n = crate::text::chars_of(s).len();
    let mut k = n;
    assert(r@ =~= s@ + Seq::new(0nat, |i: int| ' '));
    while k < w
        invariant
            n == s@.len(),
            n <= k <= w || (k == n && n > w),
            r@ == s@ + Seq::new((k - n) as nat, |i: int| ' '),
        decreases w - k,
    {
        crate::text::push_char(&mut r, ' ');
        assert(r@ =~= s@ + Seq::new((k + 1 - n) as nat, |i: int| ' '));
        k += 1;
    }
    assert(r@ =~= pad_right(s@, w as nat));
    r
}
} // verus!
