//! Plain text of the transcript: cutting lines at display columns, copying a selection,
//! and the bold runs of a Markdown line.

use crate::text::{chars_of, occurs_at, occurs_at_exec, slice_vec, starts_with_vec, string_of, has_prefix};
use crate::width::{unicode_char_width, unicode_width_of};
use vstd::prelude::*;

verus! {

/// Columns a character takes when copying a selection: a tab four, a character without a
/// tabulated width one.
pub open spec fn copy_cols(c: char) -> nat {
    if c == '\t' {
        4
    } else {
        match unicode_char_width(c) {
            Some(w) => w as nat,
            None => 1,
        }
    }
}

/// The columns of one character when copying.
fn copy_width(c: char) -> (w: usize)
    ensures
        w == copy_cols(c),
        w <= 4,
{
    if c == '\t' {
        4
    } else {
        match unicode_width_of(c) {
            Some(w) => w,
            None => 1,
        }
    }
}

/// The characters kept from `s` when the line is cut at `max` columns, `col` columns
/// being used already: a character is kept while the columns before it are fewer than `max`.
pub open spec fn keep_cols(s: Seq<char>, max: nat, col: nat) -> Seq<char>
    decreases s.len(),
{
    if s.len() == 0 || col >= max {
        Seq::empty()
    } else {
        seq![s[0]] + keep_cols(s.drop_first(), max, col + copy_cols(s[0]))
    }
}

/// Keep only the first `max_cols` display columns of text (see [`keep_cols`]).
pub fn truncate_by_columns(text: &str, max_cols: usize) -> (r: String)
    ensures
        r@ == keep_cols(text@, max_cols as nat, 0),
{
    let v = chars_of(text);
    let mut col: u128 = 0;
    let mut i: usize = 0;
    assert(v@.skip(0) =~= v@);
    while i < v.len() && col < max_cols as u128
        invariant
            i <= v@.len(),
            col <= max_cols + 4,
            keep_cols(v@, max_cols as nat, 0) == v@.take(i as int) + keep_cols(
                v@.skip(i as int),
                max_cols as nat,
                col as nat,
            ),
        decreases v@.len() - i,
    {
        let w = copy_width(v[i]);
        assert(v@.skip(i as int).drop_first() =~= v@.skip(i + 1));
        assert(v@.take(i + 1) =~= v@.take(i as int).push(v@[i as int]));
        col = col + w as u128;
        i += 1;
    }
    proof {
        assert(keep_cols(v@.skip(i as int), max_cols as nat, col as nat) =~= Seq::<char>::empty());
    }
    let r = slice_vec(&v, 0, i);
    assert(r@ =~= v@.take(i as int));
    string_of(&r)
}

/// The characters left of `s` when `skip` display columns are skipped, `col` columns
/// being skipped already: the first character that reaches past `skip` columns is kept
/// with everything after it.
pub open spec fn drop_cols(s: Seq<char>, skip: nat, col: nat) -> Seq<char>
    decreases s.len(),
{
    if s.len() == 0 {
        Seq::empty()
    } else if col + copy_cols(s[0]) > skip {
        s
    } else {
        drop_cols(s.drop_first(), skip, col + copy_cols(s[0]))
    }
}

/// Skip the first `skip_cols` display columns of text, return the rest (see [`drop_cols`]).
pub fn truncate_by_columns_skip(text: &str, skip_cols: usize) -> (r: String)
    ensures
        r@ == drop_cols(text@, skip_cols as nat, 0),
{
    let v = chars_of(text);
    let mut col: u128 = 0;
    let mut i: usize = 0;
    assert(v@.skip(0) =~= v@);
    while i < v.len()
        invariant
            i <= v@.len(),
            v@ == text@,
            col <= skip_cols,
            drop_cols(v@, skip_cols as nat, 0) == drop_cols(v@.skip(i as int), skip_cols as nat, col as nat),
        decreases v@.len() - i,
    {
        let w = copy_width(v[i]);
        assert(v@.skip(i as int)[0] == v@[i as int]);
        if col + w as u128 > skip_cols as u128 {
            let r = slice_vec(&v, i, v.len());
            assert(r@ =~= v@.skip(i as int));
            return string_of(&r);
        }
        assert(v@.skip(i as int).drop_first() =~= v@.skip(i + 1));
        col = col + w as u128;
        i += 1;
    }
    assert(v@.skip(i as int) =~= Seq::<char>::empty());
    String::new()
}

/// The text copied from display lines `lines` for a selection from `(line, column)`
/// `start` to `end`: one line per selected line, each followed by a line feed; a selection
/// within one line keeps the columns between the two ends, the first line of a longer one
/// drops the columns before the start, its last keeps the columns before the end.
pub open spec fn copied_lines(lines: Seq<Seq<char>>, start: (nat, nat), end: (nat, nat), idx: int, last: int) -> Seq<char>
    decreases last - idx,
{
    if idx >= last {
        Seq::empty()
    } else {
        let (sl, sc) = start;
        let (el, ec) = end;
        let full = lines[idx];
        let part = if idx == sl && idx == el {
            let a = if sc <= ec { sc } else { ec };
            let b = if sc <= ec { ec } else { sc };
            drop_cols(keep_cols(full, b, 0), a, 0)
        } else if idx == sl {
            drop_cols(full, sc, 0)
        } else if idx == el {
            keep_cols(full, ec, 0)
        } else {
            full
        };
        part.push('\n') + copied_lines(lines, start, end, idx + 1, last)
    }
}

/// The selection's text: lines `min(start line, n)` up to `min(end line + 1, n)` of the
/// `n` display lines (see [`copied_lines`]).
pub open spec fn selection_text(lines: Seq<Seq<char>>, start: (nat, nat), end: (nat, nat)) -> Seq<char> {
    let first = if start.0 <= lines.len() { start.0 as int } else { lines.len() as int };
    let last: int = if end.0 + 1 <= lines.len() { (end.0 + 1) as int } else { lines.len() as int };
    copied_lines(lines, start, end, first, last)
}

/// Extract the plain text of a selection from the display lines (see [`selection_text`]).
pub fn plain_text_from_lines(lines: &[String], sel_start: (usize, usize), sel_end: (usize, usize)) -> (r: String)
    requires
        sel_end.0 < usize::MAX,
    ensures
        r@ == selection_text(
            crate::wrap::views(lines@),
            (sel_start.0 as nat, sel_start.1 as nat),
            (sel_end.0 as nat, sel_end.1 as nat),
        ),
{
    let ghost lv = crate::wrap::views(lines@);
    let ghost st = (sel_start.0 as nat, sel_start.1 as nat);
    let ghost en = (sel_end.0 as nat, sel_end.1 as nat);
    let (sl, sc) = sel_start;
    let (el, ec) = sel_end;
    let n = lines.len();
    let s = if sl < n {
        sl
    } else {
        n
    };
    let e = if el + 1 < n {
        el + 1
    } else {
        n
    };
    let mut out = String::new();
    let mut idx = s;
    assert(out@ + copied_lines(lv, st, en, idx as int, e as int) =~= copied_lines(lv, st, en, s as int, e as int));
    while idx < e
        invariant
            lv == crate::wrap::views(lines@),
            st == (sl as nat, sc as nat),
            en == (el as nat, ec as nat),
            e <= lines@.len(),
            s <= idx || e <= idx,
            out@ + copied_lines(lv, st, en, idx as int, e as int) == copied_lines(lv, st, en, s as int, e as int),
        decreases e - idx,
    {
        let full = lines[idx].as_str();
        let part = if idx == sl && idx == el {
            let a = if sc <= ec {
                sc
            } else {
                ec
            };
            let b = if sc <= ec {
                ec
            } else {
                sc
            };
            let t = truncate_by_columns(full, b);
            truncate_by_columns_skip(t.as_str(), a)
        } else if idx == sl {
            truncate_by_columns_skip(full, sc)
        } else if idx == el {
            truncate_by_columns(full, ec)
        } else {
            full.to_owned()
        };
        let ghost before = out@;
        out.append(part.as_str());
        crate::text::push_char(&mut out, '\n');
        assert(out@ =~= before + part@.push('\n'));
        assert(copied_lines(lv, st, en, idx as int, e as int) == part@.push('\n') + copied_lines(
            lv,
            st,
            en,
            idx + 1,
            e as int,
        ));
        idx += 1;
    }
    assert(out@ =~= out@ + Seq::<char>::empty());
    out
}

/// The first position at or after `i` where `needle` occurs in `hay`.
pub open spec fn find_from(hay: Seq<char>, needle: Seq<char>, i: int) -> Option<int>
    decreases hay.len() + 1 - i,
{
    if i < 0 || i > hay.len() || i + needle.len() > hay.len() {
        None
    } else if occurs_at(hay, needle, i) {
        Some(i)
    } else {
        find_from(hay, needle, i + 1)
    }
}

/// The first position of `needle` in `hay` (see [`find_from`]).
pub fn find_first(hay: &[char], needle: &[char]) -> (r: Option<usize>)
    ensures
        match r {
            Some(p) => find_from(hay@, needle@, 0) == Some(p as int) && p + needle@.len()
                <= hay@.len(),
            None => find_from(hay@, needle@, 0) is None,
        },
{
    if needle.len() == 0 {
        assert(hay@.subrange(0, 0) =~= needle@);
        return Some(0);
    }
    let mut i: usize = 0;
    while needle.len() <= hay.len() && i <= hay.len() - needle.len()
        invariant
            needle@.len() > 0,
            find_from(hay@, needle@, 0) == find_from(hay@, needle@, i as int),
        decreases hay@.len() + 1 - i,
    {
        if occurs_at_exec(hay, needle, i) {
            return Some(i);
        }
        i += 1;
    }
    None
}

/// How a run of a Markdown line is drawn.
#[derive(Clone, Copy, PartialEq, Eq, Debug, Structural)]
pub enum MdStyle {
    /// A code fence line.
    Fence,
    Text,
    Bold,
    /// An unmatched `**`, shown as it is.
    Raw,
}

/// The runs of a Markdown line after its start: plain text up to the next `**`, the text
/// between a pair of `**` in bold, and an unmatched `**` as it is.
pub open spec fn md_runs(rest: Seq<char>) -> Seq<(MdStyle, Seq<char>)>
    decreases rest.len(),
{
    if rest.len() == 0 {
        seq![]
    } else {
        match find_from(rest, "**"@, 0) {
            None => seq![(MdStyle::Text, rest)],
            Some(pos) => {
                let pre: Seq<(MdStyle, Seq<char>)> = if pos > 0 {
                    seq![(MdStyle::Text, rest.take(pos))]
                } else {
                    seq![]
                };
                let after = rest.skip(pos + 2);
                match find_from(after, "**"@, 0) {
                    Some(end) => {
                        if 0 <= pos && pos + 2 <= rest.len() && 0 <= end && end + 2 <= after.len() {
                            pre + seq![(MdStyle::Bold, after.take(end))] + md_runs(after.skip(end + 2))
                        } else {
                            pre
                        }
                    },
                    None => pre + seq![(MdStyle::Raw, "**"@)],
                }
            },
        }
    }
}

/// The runs of a Markdown line: a code fence line whole, else its bold and plain runs.
pub open spec fn md_line_runs(line: Seq<char>) -> Seq<(MdStyle, Seq<char>)> {
    if has_prefix(line, "```"@) {
        seq![(MdStyle::Fence, line)]
    } else {
        md_runs(line)
    }
}

/// A run as plain values.
pub open spec fn md_view(x: (MdStyle, String)) -> (MdStyle, Seq<char>) {
    (x.0, x.1@)
}

proof fn lemma_find_bounds(hay: Seq<char>, needle: Seq<char>, i: int)
    requires
        i >= 0,
    ensures
        find_from(hay, needle, i) matches Some(p) ==> i <= p && p + needle.len() <= hay.len(),
    decreases hay.len() + 1 - i,
{
    if i <= hay.len() && i + needle.len() <= hay.len() && !occurs_at(hay, needle, i) {
        lemma_find_bounds(hay, needle, i + 1);
    }
}

/// Split a Markdown line into styled runs (see [`md_line_runs`]).
pub fn parse_md_line(line: &str) -> (r: Vec<(MdStyle, String)>)
    ensures
        r@.map_values(|x: (MdStyle, String)| md_view(x)) == md_line_runs(line@),
{
    let v = chars_of(line);
    let fence = chars_of("```");
    if starts_with_vec(&v, &fence) {
        let r = vec![(MdStyle::Fence, line.to_owned())];
        assert(r@.map_values(|x: (MdStyle, String)| md_view(x)) =~= md_line_runs(line@));
        return r;
    }
    assert(md_line_runs(line@) == md_runs(line@));
    let stars = chars_of("**");
    proof {
        reveal_strlit("**");
    }
    let mut out: Vec<(MdStyle, String)> = Vec::new();
    let mut rest = v;
    loop
        invariant
            stars@ == "**"@,
            stars@.len() == 2,
            md_line_runs(line@) == md_runs(line@),
            out@.map_values(|x: (MdStyle, String)| md_view(x)) + md_runs(rest@) == md_runs(line@),
        decreases rest@.len(),
    {
        if rest.len() == 0 {
            assert(out@.map_values(|x: (MdStyle, String)| md_view(x)) =~= md_runs(line@));
            return out;
        }
        let ghost r0 = rest@;
        let ghost o0 = out@.map_values(|x: (MdStyle, String)| md_view(x));
        match find_first(&rest, &stars) {
            None => {
                out.push((MdStyle::Text, string_of(&rest)));
                assert(out@.map_values(|x: (MdStyle, String)| md_view(x)) =~= o0.push((MdStyle::Text, r0)));
                assert(out@.map_values(|x: (MdStyle, String)| md_view(x)) =~= md_runs(line@));
                return out;
            },
            Some(pos) => {
                if pos > 0 {
                    let pre = slice_vec(&rest, 0, pos);
                    out.push((MdStyle::Text, string_of(&pre)));
                    assert(pre@ =~= r0.take(pos as int));
                }
                let ghost o1 = out@.map_values(|x: (MdStyle, String)| md_view(x));
                let after = slice_vec(&rest, pos + 2, rest.len());
                assert(after@ =~= r0.skip(pos + 2));
                proof {
                    lemma_find_bounds(after@, "**"@, 0);
                }
                match find_first(&after, &stars) {
                    Some(end) => {
                        let bold = slice_vec(&after, 0, end);
                        assert(bold@ =~= after@.take(end as int));
                        out.push((MdStyle::Bold, string_of(&bold)));
                        let next = slice_vec(&after, end + 2, after.len());
                        assert(next@ =~= after@.skip(end + 2));
                        assert(out@.map_values(|x: (MdStyle, String)| md_view(x)) =~= o1.push((MdStyle::Bold, after@.take(end as int))));
                        assert(o1 =~= o0 + (if pos > 0 {
                            seq![(MdStyle::Text, r0.take(pos as int))]
                        } else {
                            seq![]
                        }));
                        rest = next;
                        assert(out@.map_values(|x: (MdStyle, String)| md_view(x)) + md_runs(rest@) =~= o0 + md_runs(r0));
                    },
                    None => {
                        out.push((MdStyle::Raw, "**".to_owned()));
                        assert(out@.map_values(|x: (MdStyle, String)| md_view(x)) =~= o1.push((MdStyle::Raw, "**"@)));
                        assert(o1 =~= o0 + (if pos > 0 {
                            seq![(MdStyle::Text, r0.take(pos as int))]
                        } else {
                            seq![]
                        }));
                        assert(out@.map_values(|x: (MdStyle, String)| md_view(x)) =~= o0 + md_runs(r0));
                        return out;
                    },
                }
            },
        }
    }
}

} // verus!
