//! Wrapping of transcript text into terminal-width lines.

use crate::text::{chars_of, is_whitespace, is_ws, string_of};
use crate::width::{
    char_cols, char_width, cols, cols_le, cols_of, lemma_cols_concat, lemma_cols_single, lemma_cols_take_step,
};
use vstd::prelude::*;

verus! {

/// The views of a vector of strings.
pub open spec fn views(v: Seq<String>) -> Seq<Seq<char>> {
    v.map_values(|s: String| s@)
}

/// Greedy packing of the characters of `s` into chunks of at most `width` columns:
/// the finished chunks and the open one. A character that does not fit closes the
/// open chunk (when it is not empty) and starts the next.
pub open spec fn chunk_state(s: Seq<char>, width: nat) -> (Seq<Seq<char>>, Seq<char>)
    decreases s.len(),
{
    if s.len() == 0 {
        (seq![], seq![])
    } else {
        let st = chunk_state(s.drop_last(), width);
        let c = s.last();
        if st.1.len() > 0 && cols(st.1) + char_cols(c) > width {
            (st.0.push(st.1), seq![c])
        } else {
            (st.0, st.1.push(c))
        }
    }
}

/// The chunks of `s` at `width`: the finished ones followed by the open one.
pub open spec fn chunks(s: Seq<char>, width: nat) -> Seq<Seq<char>> {
    let st = chunk_state(s, width);
    st.0.push(st.1)
}

/// Lines of a preformatted source line at `width`: the line itself when `width < 4` or
/// the line is empty, else its greedy chunks.
pub open spec fn preformatted_lines(line: Seq<char>, width: nat) -> Seq<Seq<char>> {
    if width < 4 || line.len() == 0 {
        seq![line]
    } else {
        chunks(line, width)
    }
}

/// Chunks `v` greedily; `width >= 4` so every character fits an empty chunk.
fn chunk_chars(v: &[char], width: usize) -> (r: (Vec<String>, Vec<char>))
    requires
        width >= 4,
    ensures
        views(r.0@) == chunk_state(v@, width as nat).0,
        r.1@ == chunk_state(v@, width as nat).1,
        v@.len() > 0 ==> r.1@.len() > 0,
        forall|k: int| 0 <= k < r.0@.len() ==> cols(#[trigger] views(r.0@)[k]) <= width,
        cols(r.1@) <= width,
{
    let mut out: Vec<String> = Vec::new();
    let mut cur: Vec<char> = Vec::new();
    let mut cur_w: usize = 0;
    let mut i: usize = 0;
    while i < v.len()
        invariant
            width >= 4,
            i <= v@.len(),
            views(out@) == chunk_state(v@.take(i as int), width as nat).0,
            cur@ == chunk_state(v@.take(i as int), width as nat).1,
            cur_w == cols(cur@),
            cur_w <= width,
            i > 0 ==> cur@.len() > 0,
            forall|k: int| 0 <= k < out@.len() ==> cols(#[trigger] views(out@)[k]) <= width,
        decreases v@.len() - i,
    {
        let ch = v[i];
        let w = char_width(ch);
        assert(v@.take(i + 1).drop_last() =~= v@.take(i as int));
        assert(v@.take(i + 1).last() == ch);
        if cur.len() > 0 && w > width - cur_w {
            let s = string_of(&cur);
            let ghost before = out@;
            out.push(s);
            assert(views(out@) =~= views(before).push(cur@));
            cur = Vec::new();
            cur.push(ch);
            cur_w = w;
            assert(cols(seq![ch]) == char_cols(ch)) by {
                assert(seq![ch].drop_last() =~= Seq::<char>::empty());
                assert(cols(Seq::<char>::empty()) == 0);
                assert(seq![ch].last() == ch);
            };
        } else {
            let ghost prev = cur@;
            cur.push(ch);
            assert(cur@.drop_last() =~= prev);
            cur_w = cur_w + w;
        }
        i += 1;
    }
    assert(v@.take(v@.len() as int) =~= v@);
    (out, cur)
}

/// Split one preformatted line into pieces of at most `width` columns (never splitting
/// when `width < 4` or the line is empty).
pub fn wrap_preformatted_line(line: &str, width: usize) -> (r: Vec<String>)
    ensures
        views(r@) == preformatted_lines(line@, width as nat),
{
    let v = chars_of(line);
    if width < 4 || v.len() == 0 {
        let mut r: Vec<String> = Vec::new();
        r.push(string_of(&v));
        assert(views(r@) =~= seq![line@]);
        return r;
    }
    let (mut out, cur) = chunk_chars(&v, width);
    let ghost before = out@;
    out.push(string_of(&cur));
    assert(views(out@) =~= views(before).push(cur@));
    out
}

/// The views of a vector of character vectors.
pub open spec fn vviews(v: Seq<Vec<char>>) -> Seq<Seq<char>> {
    v.map_values(|x: Vec<char>| x@)
}

/// The pieces of `s` between `\n` characters, as `str::split('\n')` yields them.
pub open spec fn split_lines(s: Seq<char>) -> Seq<Seq<char>>
    decreases s.len(),
{
    if s.len() == 0 {
        seq![seq![]]
    } else {
        let ps = split_lines(s.drop_last());
        if s.last() == '\n' {
            ps.push(seq![])
        } else {
            ps.update(ps.len() - 1, ps.last().push(s.last()))
        }
    }
}

/// Scanning state of `str::split_whitespace`: the finished words and the open one.
pub open spec fn word_state(s: Seq<char>) -> (Seq<Seq<char>>, Seq<char>)
    decreases s.len(),
{
    if s.len() == 0 {
        (seq![], seq![])
    } else {
        let st = word_state(s.drop_last());
        let c = s.last();
        if is_ws(c) {
            if st.1.len() > 0 {
                (st.0.push(st.1), seq![])
            } else {
                st
            }
        } else {
            (st.0, st.1.push(c))
        }
    }
}

/// The maximal runs of non-white-space characters of `s` (`str::split_whitespace`).
pub open spec fn words(s: Seq<char>) -> Seq<Seq<char>> {
    let st = word_state(s);
    if st.1.len() > 0 {
        st.0.push(st.1)
    } else {
        st.0
    }
}

/// Greedy filling of lines with words: a word joins the open line, after one space,
/// while the result stays within `width` columns; otherwise it starts a new line.
pub open spec fn pack_state(ws: Seq<Seq<char>>, width: nat) -> (Seq<Seq<char>>, Seq<char>)
    decreases ws.len(),
{
    if ws.len() == 0 {
        (seq![], seq![])
    } else {
        let st = pack_state(ws.drop_last(), width);
        let w = ws.last();
        if st.1.len() == 0 {
            (st.0, w)
        } else if cols(st.1) + 1 + cols(w) <= width {
            (st.0, st.1 + seq![' '] + w)
        } else {
            (st.0.push(st.1), w)
        }
    }
}

/// The lines one paragraph fills: one empty line for an empty paragraph.
pub open spec fn para_lines(p: Seq<char>, width: nat) -> Seq<Seq<char>> {
    if p.len() == 0 {
        seq![seq![]]
    } else {
        let st = pack_state(words(p), width);
        if st.1.len() > 0 {
            st.0.push(st.1)
        } else {
            st.0
        }
    }
}

/// A filled line, split further into chunks when it is still wider than `width`.
pub open spec fn fit_line(l: Seq<char>, width: nat) -> Seq<Seq<char>> {
    if cols(l) <= width {
        seq![l]
    } else {
        chunks(l, width)
    }
}

/// Word-wrapped lines of `s` at `width` columns: paragraphs are split at `\n`, words are
/// filled greedily, and lines still too wide are split by characters. Widths below 8
/// leave `s` whole, and text with no line at all yields `s` itself.
pub open spec fn wrapped(s: Seq<char>, width: nat) -> Seq<Seq<char>> {
    if width < 8 {
        seq![s]
    } else {
        let filled = split_lines(s).map_values(|p: Seq<char>| para_lines(p, width)).flatten();
        let out = filled.map_values(|l: Seq<char>| fit_line(l, width)).flatten();
        if out.len() == 0 && s.len() > 0 {
            seq![s]
        } else {
            out
        }
    }
}

proof fn lemma_split_lines_nonempty(s: Seq<char>)
    ensures
        split_lines(s).len() >= 1,
    decreases s.len(),
{
    if s.len() > 0 {
        lemma_split_lines_nonempty(s.drop_last());
    }
}

fn split_newlines(v: &[char]) -> (r: Vec<Vec<char>>)
    ensures
        vviews(r@) == split_lines(v@),
        forall|k: int| 0 <= k < r@.len() ==> r@[k]@.len() <= v@.len(),
{
    let mut done: Vec<Vec<char>> = Vec::new();
    let mut cur: Vec<char> = Vec::new();
    let mut i: usize = 0;
    assert(v@.take(0) =~= Seq::<char>::empty());
    assert(vviews(done@).push(cur@) =~= seq![Seq::<char>::empty()]);
    while i < v.len()
        invariant
            i <= v@.len(),
            vviews(done@).push(cur@) == split_lines(v@.take(i as int)),
            cur@.len() <= i,
            forall|k: int| 0 <= k < done@.len() ==> done@[k]@.len() <= i,
        decreases v@.len() - i,
    {
        let c = v[i];
        assert(v@.take(i + 1).drop_last() =~= v@.take(i as int));
        assert(v@.take(i + 1).last() == c);
        let ghost ps = split_lines(v@.take(i as int));
        if c == '\n' {
            let ghost d = done@;
            done.push(cur);
            cur = Vec::new();
            assert(vviews(done@) =~= vviews(d).push(ps.last()));
            assert(vviews(done@).push(cur@) =~= ps.push(seq![]));
        } else {
            let ghost old_cur = cur@;
            cur.push(c);
            assert(vviews(done@).push(cur@) =~= ps.update(ps.len() - 1, ps.last().push(c)));
        }
        i += 1;
    }
    assert(v@.take(v@.len() as int) =~= v@);
    let ghost d = done@;
    done.push(cur);
    assert(vviews(done@) =~= vviews(d).push(cur@));
    done
}

pub(crate) fn words_of(v: &[char]) -> (r: Vec<Vec<char>>)
    ensures
        vviews(r@) == words(v@),
        forall|k: int| 0 <= k < r@.len() ==> r@[k]@.len() <= v@.len(),
        forall|k: int| 0 <= k < r@.len() ==> r@[k]@.len() > 0,
{
    let mut done: Vec<Vec<char>> = Vec::new();
    let mut cur: Vec<char> = Vec::new();
    let mut i: usize = 0;
    while i < v.len()
        invariant
            i <= v@.len(),
            vviews(done@) == word_state(v@.take(i as int)).0,
            cur@ == word_state(v@.take(i as int)).1,
            cur@.len() <= i,
            forall|k: int| 0 <= k < done@.len() ==> done@[k]@.len() <= i,
            forall|k: int| 0 <= k < done@.len() ==> done@[k]@.len() > 0,
        decreases v@.len() - i,
    {
        let c = v[i];
        assert(v@.take(i + 1).drop_last() =~= v@.take(i as int));
        assert(v@.take(i + 1).last() == c);
        if is_whitespace(c) {
            if cur.len() > 0 {
                let ghost d = done@;
                done.push(cur);
                cur = Vec::new();
                assert(vviews(done@) =~= vviews(d).push(word_state(v@.take(i as int)).1));
            }
        } else {
            cur.push(c);
        }
        i += 1;
    }
    assert(v@.take(v@.len() as int) =~= v@);
    if cur.len() > 0 {
        let ghost d = done@;
        done.push(cur);
        assert(vviews(done@) =~= vviews(d).push(word_state(v@).1));
    }
    done
}

fn pack_words(ws: &Vec<Vec<char>>, width: usize, bound: Ghost<nat>) -> (r: Vec<Vec<char>>)
    requires
        forall|k: int| 0 <= k < ws@.len() ==> ws@[k]@.len() <= bound@,
        bound@ <= usize::MAX / 8,
        forall|k: int| 0 <= k < ws@.len() ==> ws@[k]@.len() > 0,
    ensures
        vviews(r@) == ({
            let st = pack_state(vviews(ws@), width as nat);
            if st.1.len() > 0 {
                st.0.push(st.1)
            } else {
                st.0
            }
        }),
{
    let mut done: Vec<Vec<char>> = Vec::new();
    let mut line: Vec<char> = Vec::new();
    let mut line_w: usize = 0;
    let sp_w = char_width(' ');
    let mut i: usize = 0;
    proof {
        lemma_cols_single(' ');
    }
    assert(sp_w == 1);
    assert(vviews(ws@).take(0) =~= Seq::<Seq<char>>::empty());
    while i < ws.len()
        invariant
            i <= ws@.len(),
            forall|k: int| 0 <= k < ws@.len() ==> ws@[k]@.len() <= bound@,
            bound@ <= usize::MAX / 8,
            sp_w == 1,
            cols(seq![' ']) == 1,
            vviews(done@) == pack_state(vviews(ws@).take(i as int), width as nat).0,
            line@ == pack_state(vviews(ws@).take(i as int), width as nat).1,
            line_w == cols(line@),
            line_w <= width || line_w <= 3 * bound@,
        decreases ws@.len() - i,
    {
        let word = &ws[i];
        let word_w = cols_of(word.as_slice());
        assert(vviews(ws@).take(i + 1).drop_last() =~= vviews(ws@).take(i as int));
        assert(vviews(ws@).take(i + 1).last() == word@);
        if line.len() == 0 {
            line = word.clone();
            line_w = word_w;
        } else if line_w < width && word_w <= width - line_w - 1 {
            let ghost prev = line@;
            line.push(' ');
            let mut k: usize = 0;
            let ghost mid = line@;
            while k < word.len()
                invariant
                    k <= word@.len(),
                    line@ == mid + word@.take(k as int),
                decreases word@.len() - k,
            {
                line.push(word[k]);
                assert(mid + word@.take(k + 1) =~= (mid + word@.take(k as int)).push(word@[k as int]));
                k += 1;
            }
            assert(word@.take(word@.len() as int) =~= word@);
            assert(mid =~= prev + seq![' ']);
            proof {
                lemma_cols_concat(prev, seq![' ']);
                lemma_cols_concat(prev + seq![' '], word@);
            }
            line_w = line_w + 1 + word_w;
        } else {
            let ghost d = done@;
            done.push(line);
            assert(vviews(done@) =~= vviews(d).push(pack_state(vviews(ws@).take(i as int), width as nat).1));
            line = word.clone();
            line_w = word_w;
        }
        i += 1;
    }
    assert(vviews(ws@).take(ws@.len() as int) =~= vviews(ws@));
    if line.len() > 0 {
        let ghost d = done@;
        let ghost l = line@;
        done.push(line);
        assert(vviews(done@) =~= vviews(d).push(l));
    }
    done
}

/// Word-wrap `s` to `width` display columns (see [`wrapped`]).
pub fn wrap_text(s: &str, width: usize) -> (r: Vec<String>)
    requires
        s@.len() <= usize::MAX / 8,
    ensures
        views(r@) == wrapped(s@, width as nat),
        width >= 8 ==> views(r@) == seq![s@] || forall|k: int| 0 <= k < r@.len() ==> cols(
            #[trigger] views(r@)[k],
        ) <= width,
{
    if width < 8 {
        let mut r: Vec<String> = Vec::new();
        r.push(s.to_owned());
        assert(views(r@) =~= seq![s@]);
        return r;
    }
    let v = chars_of(s);
    let paras = split_newlines(&v);
    let ghost ps = split_lines(v@);
    let ghost pf = |p: Seq<char>| para_lines(p, width as nat);
    let mut filled: Vec<Vec<char>> = Vec::new();
    let mut j: usize = 0;
    while j < paras.len()
        invariant
            j <= paras@.len(),
            vviews(paras@) == ps,
            forall|k: int| 0 <= k < paras@.len() ==> paras@[k]@.len() <= v@.len(),
            v@.len() <= usize::MAX / 8,
            width >= 8,
            pf == (|p: Seq<char>| para_lines(p, width as nat)),
            vviews(filled@) == ps.take(j as int).map_values(pf).flatten(),
        decreases paras@.len() - j,
    {
        let p = &paras[j];
        let ghost before = vviews(filled@);
        assert(ps.take(j + 1) =~= ps.take(j as int).push(p@));
        assert(ps.take(j + 1).map_values(pf) =~= ps.take(j as int).map_values(pf).push(pf(p@)));
        proof {
            ps.take(j as int).map_values(pf).lemma_flatten_push(pf(p@));
        }
        if p.len() == 0 {
            filled.push(Vec::new());
            assert(vviews(filled@) =~= before + seq![Seq::<char>::empty()]);
        } else {
            let ws = words_of(p.as_slice());
            let lines = pack_words(&ws, width, Ghost(v@.len()));
            let mut k: usize = 0;
            while k < lines.len()
                invariant
                    k <= lines@.len(),
                    vviews(filled@) == before + vviews(lines@).take(k as int),
                decreases lines@.len() - k,
            {
                let ghost f0 = filled@;
                filled.push(lines[k].clone());
                assert(vviews(filled@) =~= vviews(f0).push(lines@[k as int]@));
                assert(vviews(lines@).take(k + 1) =~= vviews(lines@).take(k as int).push(lines@[k as int]@));
                k += 1;
            }
            assert(vviews(lines@).take(lines@.len() as int) =~= vviews(lines@));
        }
        j += 1;
    }
    assert(ps.take(paras@.len() as int) =~= ps);
    let ghost fl = vviews(filled@);
    let ghost ff = |l: Seq<char>| fit_line(l, width as nat);
    let mut out: Vec<String> = Vec::new();
    let mut j: usize = 0;
    while j < filled.len()
        invariant
            j <= filled@.len(),
            vviews(filled@) == fl,
            width >= 8,
            ff == (|l: Seq<char>| fit_line(l, width as nat)),
            views(out@) == fl.take(j as int).map_values(ff).flatten(),
            forall|k: int| 0 <= k < out@.len() ==> cols(#[trigger] views(out@)[k]) <= width,
        decreases filled@.len() - j,
    {
        let l = &filled[j];
        let ghost before = views(out@);
        assert(fl.take(j + 1) =~= fl.take(j as int).push(l@));
        assert(fl.take(j + 1).map_values(ff) =~= fl.take(j as int).map_values(ff).push(ff(l@)));
        proof {
            fl.take(j as int).map_values(ff).lemma_flatten_push(ff(l@));
        }
        if cols_le(l.as_slice(), width) {
            let ghost o0 = out@;
            out.push(string_of(l.as_slice()));
            assert(views(out@) =~= views(o0).push(l@));
            assert(views(out@) =~= before + seq![l@]);
        } else {
            let (pieces, cur) = chunk_chars(l.as_slice(), width);
            let mut k: usize = 0;
            while k < pieces.len()
                invariant
                    k <= pieces@.len(),
                    views(out@) == before + views(pieces@).take(k as int),
                    forall|m: int| 0 <= m < out@.len() ==> cols(#[trigger] views(out@)[m]) <= width,
                    forall|m: int| 0 <= m < pieces@.len() ==> cols(#[trigger] views(pieces@)[m]) <= width,
                decreases pieces@.len() - k,
            {
                let ghost o0 = out@;
                out.push(pieces[k].clone());
                assert(views(out@) =~= views(o0).push(pieces@[k as int]@));
                assert(views(pieces@).take(k + 1) =~= views(pieces@).take(k as int).push(pieces@[k as int]@));
                k += 1;
            }
            assert(views(pieces@).take(pieces@.len() as int) =~= views(pieces@));
            let ghost o1 = out@;
            proof {
                if l@.len() == 0 {
                    assert(cols(l@) == 0);
                }
            }
            out.push(string_of(&cur));
            assert(views(out@) =~= views(o1).push(cur@));
            assert(views(out@) =~= before + chunks(l@, width as nat));
        }
        j += 1;
    }
    assert(fl.take(filled@.len() as int) =~= fl);
    if out.len() == 0 && v.len() > 0 {
        let mut r: Vec<String> = Vec::new();
        r.push(s.to_owned());
        assert(views(r@) =~= seq![s@]);
        return r;
    }
    out
}

} // verus!
