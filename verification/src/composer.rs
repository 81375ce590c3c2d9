//! The composer (input line) of the full-screen session: its visible window and the
//! `@path` mentions it completes and deletes as a whole.

use crate::text::{
    chars_of, contains_vec, has_char, has_char_vec, has_prefix, is_whitespace, is_ws, slice_vec,
    starts_with_vec, string_of,
};
use crate::wrap::views;
use crate::width::{char_cols, char_width, cols, lemma_cols_concat, lemma_cols_single, lemma_cols_take_step};
use vstd::prelude::*;

verus! {

/// Length of the longest prefix of `s` that fits in `max` columns.
pub open spec fn fit_prefix(s: Seq<char>, max: nat) -> nat
    decreases s.len(),
{
    if s.len() == 0 || cols(s) <= max {
        s.len()
    } else {
        fit_prefix(s.drop_last(), max)
    }
}

/// Length of the longest suffix of `s` that fits in `max` columns.
pub open spec fn fit_suffix(s: Seq<char>, max: nat) -> nat
    decreases s.len(),
{
    if s.len() == 0 || cols(s) <= max {
        s.len()
    } else {
        fit_suffix(s.drop_first(), max)
    }
}

/// The half-open character window `(start, end)` of the composer buffer `s` that is shown
/// in `max` columns with the cursor at `cursor`: the longest fitting prefix when the
/// cursor lies inside it (or everything fits); otherwise the cursor cell, extended left
/// as far as it fits and then right as far as the rest fits.
pub open spec fn visible_window(s: Seq<char>, cursor: nat, max: nat) -> (nat, nat) {
    let n = s.len();
    if n == 0 || max == 0 {
        (0, 0)
    } else {
        let e0 = fit_prefix(s, max);
        if e0 == n || cursor < e0 {
            (0, e0)
        } else {
            let cw = if cursor < n {
                char_cols(s[cursor as int])
            } else {
                char_cols(' ')
            };
            let left = if cw <= max {
                fit_suffix(s.take(cursor as int), (max - cw) as nat)
            } else {
                0
            };
            let start = (cursor - left) as nat;
            let w = cw + cols(s.subrange(start as int, cursor as int));
            let right = if cursor + 1 <= n && w <= max {
                fit_prefix(s.skip(cursor + 1 as int), (max - w) as nat)
            } else {
                0
            };
            (start, cursor + 1 + right)
        }
    }
}

proof fn lemma_cols_prefix_mono(s: Seq<char>, i: int, j: int)
    requires
        0 <= i <= j <= s.len(),
    ensures
        cols(s.take(i)) <= cols(s.take(j)),
    decreases j - i,
{
    if i < j {
        lemma_cols_prefix_mono(s, i, j - 1);
        lemma_cols_take_step(s, j - 1);
    }
}

proof fn lemma_fit_prefix(s: Seq<char>, max: nat, e: int)
    requires
        0 <= e <= s.len(),
        cols(s.take(e)) <= max,
        e == s.len() || cols(s.take(e + 1)) > max,
    ensures
        fit_prefix(s, max) == e,
    decreases s.len(),
{
    if s.len() == 0 {
    } else if cols(s) <= max {
        if e < s.len() {
            lemma_cols_prefix_mono(s, e + 1, s.len() as int);
            assert(s.take(s.len() as int) =~= s);
        }
    } else {
        assert(s.take(s.len() as int) =~= s);
        let t = s.drop_last();
        assert(t.take(e) =~= s.take(e));
        if e < t.len() {
            assert(t.take(e + 1) =~= s.take(e + 1));
        }
        lemma_fit_prefix(t, max, e);
    }
}

proof fn lemma_cols_cons(s: Seq<char>, a: int, b: int)
    requires
        0 < a <= b <= s.len(),
    ensures
        cols(s.subrange(a - 1, b)) == char_cols(s[a - 1]) + cols(s.subrange(a, b)),
{
    assert(s.subrange(a - 1, b) =~= seq![s[a - 1]] + s.subrange(a, b));
    lemma_cols_concat(seq![s[a - 1]], s.subrange(a, b));
    lemma_cols_single(s[a - 1]);
}

proof fn lemma_cols_snoc(s: Seq<char>, a: int, b: int)
    requires
        0 <= a <= b < s.len(),
    ensures
        cols(s.subrange(a, b + 1)) == cols(s.subrange(a, b)) + char_cols(s[b]),
{
    assert(s.subrange(a, b + 1).drop_last() =~= s.subrange(a, b));
}

proof fn lemma_fit_suffix(s: Seq<char>, max: nat, k: int)
    requires
        0 <= k <= s.len(),
        cols(s.skip(k)) <= max,
        k == 0 || cols(s.skip(k - 1)) > max,
    ensures
        fit_suffix(s, max) == s.len() - k,
    decreases s.len(),
{
    assert(s.skip(0) =~= s);
    if s.len() == 0 {
    } else if cols(s) <= max {
        if k > 0 {
            lemma_suffix_mono(s, 0, k - 1);
        }
    } else {
        let t = s.drop_first();
        assert(k > 0);
        assert(t.skip(k - 1) =~= s.skip(k));
        if k - 1 > 0 {
            assert(t.skip(k - 2) =~= s.skip(k - 1));
        }
        lemma_fit_suffix(t, max, k - 1);
    }
}

proof fn lemma_suffix_mono(s: Seq<char>, i: int, j: int)
    requires
        0 <= i <= j <= s.len(),
    ensures
        cols(s.skip(j)) <= cols(s.skip(i)),
    decreases j - i,
{
    if i < j {
        lemma_suffix_mono(s, i + 1, j);
        assert(s.skip(i) =~= s.subrange(i, s.len() as int));
        assert(s.skip(i + 1) =~= s.subrange(i + 1, s.len() as int));
        lemma_cols_cons(s, i + 1, s.len() as int);
    }
}

/// The visible character window of the composer (see [`visible_window`]).
pub fn input_visible_window(buffer: &str, cursor_char_idx: usize, max_cols: usize) -> (r: (
    usize,
    usize,
))
    requires
        buffer@.len() <= usize::MAX / 8,
        cursor_char_idx <= buffer@.len() || max_cols == 0 || cols(buffer@) <= max_cols,
    ensures
        (r.0 as nat, r.1 as nat) == visible_window(buffer@, cursor_char_idx as nat, max_cols as nat),
{
    let chars = chars_of(buffer);
    let n = chars.len();
    if n == 0 || max_cols == 0 {
        return (0, 0);
    }
    let ghost s = chars@;
    let mut width: usize = 0;
    let mut end: usize = 0;
    while end < n
        invariant
            n == s.len(),
            chars@ == s,
            end <= n,
            width == cols(s.take(end as int)),
            width <= max_cols,
        ensures
            end <= n,
            width == cols(s.take(end as int)),
            width <= max_cols,
            end == n || cols(s.take(end + 1)) > max_cols,
        decreases n - end,
    {
        let w = char_width(chars[end]);
        proof {
            lemma_cols_take_step(s, end as int);
        }
        if w > max_cols - width {
            break;
        }
        width = width + w;
        end = end + 1;
    }
    proof {
        lemma_fit_prefix(s, max_cols as nat, end as int);
    }
    if end == n || cursor_char_idx < end {
        return (0, end);
    }
    proof {
        if cursor_char_idx > n {
            assert(s.take(n as int) =~= s);
        }
    }
    let cursor = cursor_char_idx;
    let cw = if cursor < n {
        char_width(chars[cursor])
    } else {
        char_width(' ')
    };
    let mut width = cw;
    let mut start = cursor;
    let ghost t = s.take(cursor as int);
    assert(s.subrange(cursor as int, cursor as int) =~= Seq::<char>::empty());
    assert(cols(Seq::<char>::empty()) == 0);
    if cw <= max_cols {
        assert(t.skip(cursor as int) =~= Seq::<char>::empty());
        while start > 0 && char_width(chars[start - 1]) <= max_cols - width
            invariant
                cursor <= n == s.len(),
                chars@ == s,
                t == s.take(cursor as int),
                start <= cursor,
                width <= max_cols,
                cw <= max_cols,
                width == cw + cols(s.subrange(start as int, cursor as int)),
                t.skip(start as int) == s.subrange(start as int, cursor as int),
            decreases start,
        {
            proof {
                lemma_cols_cons(s, start as int, cursor as int);
            }
            let w = char_width(chars[start - 1]);
            start = start - 1;
            width = width + w;
            assert(t.skip(start as int) =~= s.subrange(start as int, cursor as int));
        }
        proof {
            if start > 0 {
                lemma_cols_cons(s, start as int, cursor as int);
                assert(t.skip(start - 1) =~= s.subrange(start - 1, cursor as int));
            }
            lemma_fit_suffix(t, (max_cols - cw) as nat, start as int);
        }
    }
    let ghost wl = width;
    let mut end = cursor + 1;
    if cursor + 1 <= n && width <= max_cols {
        let ghost rest = s.skip(cursor + 1);
        assert(rest.take(0) =~= Seq::<char>::empty());
        assert(s.subrange(cursor + 1, cursor + 1) =~= Seq::<char>::empty());
        while end < n && char_width(chars[end]) <= max_cols - width
            invariant
                cursor + 1 <= end <= n == s.len(),
                chars@ == s,
                rest == s.skip(cursor + 1),
                width <= max_cols,
                wl <= max_cols,
                width == wl + cols(s.subrange(cursor + 1, end as int)),
                rest.take(end - cursor - 1) == s.subrange(cursor + 1, end as int),
            decreases n - end,
        {
            proof {
                lemma_cols_snoc(s, cursor + 1, end as int);
            }
            width = width + char_width(chars[end]);
            end = end + 1;
            assert(rest.take(end - cursor - 1) =~= s.subrange(cursor + 1, end as int));
        }
        proof {
            if end < n {
                lemma_cols_snoc(s, cursor + 1, end as int);
                assert(rest.take(end - cursor) =~= s.subrange(cursor + 1, end + 1));
            }
            lemma_fit_prefix(rest, (max_cols - wl) as nat, end - cursor - 1);
        }
    }
    (start, end)
}

/// The slash-command panel shows while the buffer is a single `/word`.
pub open spec fn slash_visible(s: Seq<char>) -> bool {
    s.len() > 0 && s[0] == '/' && !has_char(s, ' ')
}

/// Whether the slash-command panel is visible for `buffer`.
pub fn slash_panel_visible(buffer: &str) -> (b: bool)
    ensures
        b == slash_visible(buffer@),
{
    let v = chars_of(buffer);
    v.len() > 0 && v[0] == '/' && !has_char_vec(&v, ' ')
}

/// Start of the run of non-white-space characters that ends at `c`.
pub open spec fn run_start(s: Seq<char>, c: int) -> int
    decreases c,
{
    if c > 0 && c <= s.len() && !is_ws(s[c - 1]) {
        run_start(s, c - 1)
    } else {
        c
    }
}

/// The `@path` token the cursor ends, as `(index of '@', text typed after it)`: the run of
/// non-white-space characters that ends at the cursor (clamped to the buffer) when that
/// run starts with `@`.
pub open spec fn at_token(s: Seq<char>, cursor: nat) -> Option<(nat, Seq<char>)> {
    let c: int = if cursor <= s.len() { cursor as int } else { s.len() as int };
    let k = run_start(s, c);
    if 0 <= k < c && s[k] == '@' {
        Some((k as nat, s.subrange(k + 1, c)))
    } else {
        None
    }
}

pub(crate) proof fn lemma_run_start_bounds(s: Seq<char>, c: int)
    requires
        0 <= c <= s.len(),
    ensures
        0 <= run_start(s, c) <= c,
        forall|i: int| run_start(s, c) <= i < c ==> !is_ws(s[i]),
        run_start(s, c) == 0 || is_ws(s[run_start(s, c) - 1]),
    decreases c,
{
    if c > 0 && !is_ws(s[c - 1]) {
        lemma_run_start_bounds(s, c - 1);
    }
}

fn run_start_exec(v: &[char], c: usize) -> (k: usize)
    requires
        c <= v@.len(),
    ensures
        k == run_start(v@, c as int),
        k <= c,
{
    let mut k = c;
    while k > 0 && !is_whitespace(v[k - 1])
        invariant
            k <= c <= v@.len(),
            run_start(v@, k as int) == run_start(v@, c as int),
        decreases k,
    {
        k -= 1;
    }
    k
}

/// Locates the `@path` token ending at the cursor (see [`at_token`]).
pub fn at_token_before_cursor(buffer: &str, cursor_char_idx: usize) -> (r: Option<(usize, String)>)
    ensures
        match (r, at_token(buffer@, cursor_char_idx as nat)) {
            (Some((k, p)), Some((sk, sp))) => k == sk && p@ == sp,
            (None, None) => true,
            _ => false,
        },
{
    let v = chars_of(buffer);
    let c = if cursor_char_idx <= v.len() {
        cursor_char_idx
    } else {
        v.len()
    };
    let k = run_start_exec(&v, c);
    if k < c && v[k] == '@' {
        Some((k, string_of(&slice_vec(&v, k + 1, c))))
    } else {
        None
    }
}

/// `@path` completion is active when the slash panel is not and the cursor ends a token.
pub open spec fn at_active(s: Seq<char>, cursor: nat) -> bool {
    !slash_visible(s) && at_token(s, cursor) is Some
}

/// Whether `@path` completion applies at the cursor.
pub fn at_completion_active(buffer: &str, cursor_char_idx: usize) -> (b: bool)
    ensures
        b == at_active(buffer@, cursor_char_idx as nat),
{
    if slash_panel_visible(buffer) {
        return false;
    }
    at_token_before_cursor(buffer, cursor_char_idx).is_some()
}

/// The workspace paths that start with `prefix`, in their order.
pub open spec fn paths_with_prefix(files: Seq<Seq<char>>, prefix: Seq<char>) -> Seq<Seq<char>> {
    files.filter(|f: Seq<char>| has_prefix(f, prefix))
}

/// The workspace paths that start with `prefix`, in their order.
pub fn filter_paths_prefix(files: &[String], prefix: &str) -> (r: Vec<String>)
    ensures
        views(r@) == paths_with_prefix(views(files@), prefix@),
{
    let p = chars_of(prefix);
    let mut r: Vec<String> = Vec::new();
    let mut i: usize = 0;
    let ghost fv = views(files@);
    let ghost pred = |f: Seq<char>| has_prefix(f, prefix@);
    while i < files.len()
        invariant
            i <= files@.len(),
            fv == views(files@),
            p@ == prefix@,
            pred == (|f: Seq<char>| has_prefix(f, prefix@)),
            views(r@) == fv.take(i as int).filter(pred),
        decreases files@.len() - i,
    {
        let f = chars_of(files[i].as_str());
        assert(fv.take(i + 1).drop_last() =~= fv.take(i as int));
        assert(fv.take(i + 1).last() == f@);
        reveal_with_fuel(Seq::filter, 1);
        if starts_with_vec(&f, &p) {
            let ghost r0 = r@;
            r.push(files[i].clone());
            assert(views(r@) =~= views(r0).push(f@));
        }
        i += 1;
    }
    assert(fv.take(files@.len() as int) =~= fv);
    r
}

/// Candidate paths for the `@` token at the cursor (none when completion is inactive).
pub open spec fn at_matches(files: Seq<Seq<char>>, s: Seq<char>, cursor: nat) -> Seq<Seq<char>> {
    if at_active(s, cursor) {
        paths_with_prefix(files, (at_token(s, cursor)->0).1)
    } else {
        seq![]
    }
}

/// Candidate paths for the `@` token at the cursor.
pub fn at_completion_matches(workspace_files: &[String], buffer: &str, cursor_char_idx: usize) -> (r:
    Vec<String>)
    ensures
        views(r@) == at_matches(views(workspace_files@), buffer@, cursor_char_idx as nat),
{
    if !at_completion_active(buffer, cursor_char_idx) {
        let r: Vec<String> = Vec::new();
        assert(views(r@) =~= Seq::<Seq<char>>::empty());
        return r;
    }
    match at_token_before_cursor(buffer, cursor_char_idx) {
        Some((_, prefix)) => filter_paths_prefix(workspace_files, prefix.as_str()),
        None => Vec::new(),
    }
}

/// The buffer and cursor after replacing the `@` token's text with `choice`; unchanged when
/// no token ends at the cursor.
pub open spec fn applied_completion(s: Seq<char>, cursor: nat, choice: Seq<char>) -> (Seq<char>, nat) {
    let c: int = if cursor <= s.len() { cursor as int } else { s.len() as int };
    match at_token(s, cursor) {
        Some((k, _)) => (s.take(k + 1 as int) + choice + s.skip(c), k + 1 + choice.len()),
        None => (s, cursor),
    }
}

/// Replace `@prefix` before the cursor with `@choice`; returns the new buffer and cursor.
pub fn apply_at_completion(buffer: &str, cursor_char_idx: usize, choice: &str) -> (r: (String, usize))
    ensures
        (r.0@, r.1 as nat) == applied_completion(buffer@, cursor_char_idx as nat, choice@),
{
    let v = chars_of(buffer);
    let c = if cursor_char_idx <= v.len() {
        cursor_char_idx
    } else {
        v.len()
    };
    match at_token_before_cursor(buffer, cursor_char_idx) {
        Some((k, _)) => {
            let ch = chars_of(choice);
            let mut out = slice_vec(&v, 0, k + 1);
            let mut i: usize = 0;
            let ghost head = out@;
            while i < ch.len()
                invariant
                    i <= ch@.len(),
                    out@ == head + ch@.take(i as int),
                decreases ch@.len() - i,
            {
                out.push(ch[i]);
                assert(head + ch@.take(i + 1) =~= (head + ch@.take(i as int)).push(ch@[i as int]));
                i += 1;
            }
            assert(ch@.take(ch@.len() as int) =~= ch@);
            let new_cursor = out.len();
            let ghost mid = out@;
            let mut j = c;
            while j < v.len()
                invariant
                    c <= j <= v@.len(),
                    out@ == mid + v@.subrange(c as int, j as int),
                decreases v@.len() - j,
            {
                out.push(v[j]);
                assert(mid + v@.subrange(c as int, j + 1) =~= (mid + v@.subrange(c as int, j as int)).push(v@[j as int]));
                j += 1;
            }
            assert(v@.subrange(c as int, v@.len() as int) =~= v@.skip(c as int));
            assert(v@.subrange(0, k + 1) =~= v@.take(k + 1));
            assert(k < v@.len());
            (string_of(&out), new_cursor)
        },
        None => (string_of(&v), cursor_char_idx),
    }
}

/// The result of accepting the `index`-th candidate (clamped to the last) for the `@`
/// token at the cursor, with a space inserted after it when `append_space`; `None` when
/// completion is inactive or nothing matches.
pub open spec fn selected_completion(
    files: Seq<Seq<char>>,
    s: Seq<char>,
    cursor: nat,
    index: nat,
    append_space: bool,
) -> Option<(Seq<char>, nat)> {
    let m = at_matches(files, s, cursor);
    if m.len() == 0 || !at_active(s, cursor) {
        None
    } else {
        let pick = if index < m.len() { index as int } else { m.len() - 1 };
        let (nb, nc) = applied_completion(s, cursor, m[pick]);
        if append_space {
            Some((nb.take(nc as int) + seq![' '] + nb.skip(nc as int), nc + 1))
        } else {
            Some((nb, nc))
        }
    }
}

/// Accept the selected `@` completion candidate (see [`selected_completion`]).
pub fn apply_selected_at_completion(
    workspace_files: &[String],
    buffer: &str,
    cursor_char_idx: usize,
    at_menu_index: usize,
    append_space: bool,
) -> (r: Option<(String, usize)>)
    ensures
        match (r, selected_completion(views(workspace_files@), buffer@, cursor_char_idx as nat, at_menu_index as nat, append_space)) {
            (Some((b, c)), Some((sb, sc))) => b@ == sb && c == sc,
            (None, None) => true,
            _ => false,
        },
{
    let at_matches = at_completion_matches(workspace_files, buffer, cursor_char_idx);
    if at_matches.len() == 0 || !at_completion_active(buffer, cursor_char_idx) {
        return None;
    }
    let pick = if at_menu_index < at_matches.len() {
        at_menu_index
    } else {
        at_matches.len() - 1
    };
    let choice = &at_matches[pick];
    assert(views(at_matches@)[pick as int] == choice@);
    let (new_buf, new_cursor) = apply_at_completion(buffer, cursor_char_idx, choice.as_str());
    if append_space {
        let nv = chars_of(new_buf.as_str());
        proof {
            let c: int = if cursor_char_idx <= buffer@.len() { cursor_char_idx as int } else { buffer@.len() as int };
            let k = (at_token(buffer@, cursor_char_idx as nat)->0).0;
            assert(k < c);
        }
        let mut out = slice_vec(&nv, 0, new_cursor);
        out.push(' ');
        let after = out.len();
        let ghost mid = out@;
        let mut j = new_cursor;
        while j < nv.len()
            invariant
                new_cursor <= j <= nv@.len(),
                out@ == mid + nv@.subrange(new_cursor as int, j as int),
            decreases nv@.len() - j,
        {
            out.push(nv[j]);
            assert(mid + nv@.subrange(new_cursor as int, j + 1) =~= (mid + nv@.subrange(new_cursor as int, j as int)).push(nv@[j as int]));
            j += 1;
        }
        assert(nv@.subrange(new_cursor as int, nv@.len() as int) =~= nv@.skip(new_cursor as int));
        assert(nv@.subrange(0, new_cursor as int) =~= nv@.take(new_cursor as int));
        Some((string_of(&out), after))
    } else {
        Some((new_buf, new_cursor))
    }
}

/// `s[a..b]` is an `@path` mention: a whole run of non-white-space characters that starts
/// with `@` and has at least one character after it.
pub open spec fn is_mention(s: Seq<char>, a: int, b: int) -> bool {
    &&& 0 <= a && a + 2 <= b && b <= s.len()
    &&& s[a] == '@'
    &&& a == 0 || is_ws(s[a - 1])
    &&& b == s.len() || is_ws(s[b])
    &&& forall|i: int| a <= i < b ==> !is_ws(s[i])
}

/// The character ranges of all `@path` mentions of `buffer`, in order.
pub fn at_mention_char_ranges(buffer: &str) -> (r: Vec<(usize, usize)>)
    ensures
        forall|k: int| 0 <= k < r@.len() ==> is_mention(buffer@, r@[k].0 as int, r@[k].1 as int),
        forall|k: int, l: int| 0 <= k < l < r@.len() ==> r@[k].1 <= r@[l].0,
        forall|a: int, b: int|
            is_mention(buffer@, a, b) ==> exists|k: int|
                0 <= k < r@.len() && r@[k] == (a as usize, b as usize),
{
    let v = chars_of(buffer);
    let ghost s = v@;
    let n = v.len();
    let mut r: Vec<(usize, usize)> = Vec::new();
    let mut i: usize = 0;
    while i < n
        invariant
            n == s.len(),
            v@ == s,
            s == buffer@,
            i <= n,
            i < n && !is_ws(s[i as int]) ==> (i == 0 || is_ws(s[i - 1])),
            forall|k: int| 0 <= k < r@.len() ==> is_mention(s, r@[k].0 as int, r@[k].1 as int),
            forall|k: int| 0 <= k < r@.len() ==> r@[k].1 <= i,
            forall|k: int, l: int| 0 <= k < l < r@.len() ==> r@[k].1 <= r@[l].0,
            forall|a: int, b: int|
                is_mention(s, a, b) && a < i ==> exists|k: int|
                    0 <= k < r@.len() && r@[k] == (a as usize, b as usize),
        decreases n - i,
    {
        if is_whitespace(v[i]) {
            i += 1;
        } else {
            let mut j = i + 1;
            while j < n && !is_whitespace(v[j])
                invariant
                    n == s.len(),
                    v@ == s,
                    i < j <= n,
                    forall|t: int| i <= t < j ==> !is_ws(s[t]),
                decreases n - j,
            {
                j += 1;
            }
            if v[i] == '@' && j - i >= 2 {
                let ghost r0 = r@;
                r.push((i, j));
                assert(is_mention(s, i as int, j as int));
                assert forall|a: int, b: int| is_mention(s, a, b) && a < j implies exists|k: int|
                    0 <= k < r@.len() && r@[k] == (a as usize, b as usize) by {
                    if a < i {
                        let k = choose|k: int| 0 <= k < r0.len() && r0[k] == (a as usize, b as usize);
                        assert(r@[k] == r0[k]);
                    } else {
                        assert(a == i) by {
                            if a > i {
                                assert(!is_ws(s[a - 1]));
                            }
                        };
                        if b < j {
                            assert(!is_ws(s[b]));
                        } else if b > j {
                            assert(!is_ws(s[j as int]));
                        }
                        assert(r@[r@.len() - 1] == (a as usize, b as usize));
                    }
                };
            } else {
                assert forall|a: int, b: int| is_mention(s, a, b) && a < j implies exists|k: int|
                    0 <= k < r@.len() && r@[k] == (a as usize, b as usize) by {
                    if a >= i {
                        if a > i {
                            assert(!is_ws(s[a - 1]));
                        }
                        assert(a == i);
                        if b < j {
                            assert(!is_ws(s[b]));
                        } else if b > j {
                            assert(!is_ws(s[j as int]));
                        }
                    }
                };
            }
            i = j;
        }
    }
    r
}

/// A mention ends exactly at `b`.
pub open spec fn mention_ends_at(s: Seq<char>, b: int) -> bool {
    0 <= b <= s.len() && is_mention(s, run_start(s, b), b)
}

/// The range a backspace at `cursor` removes as one token: a mention that ends at the
/// cursor, or one followed by the single space the cursor sits after.
pub open spec fn completed_mention(s: Seq<char>, cursor: nat) -> Option<(nat, nat)> {
    if cursor <= s.len() && mention_ends_at(s, cursor as int) {
        Some((run_start(s, cursor as int) as nat, cursor))
    } else if 1 <= cursor <= s.len() && s[cursor - 1] == ' ' && mention_ends_at(s, cursor - 1) {
        Some((run_start(s, cursor - 1) as nat, cursor))
    } else {
        None
    }
}

fn mention_ends_at_exec(v: &[char], b: usize) -> (r: bool)
    ensures
        r == mention_ends_at(v@, b as int),
{
    if b > v.len() {
        return false;
    }
    let a = run_start_exec(v, b);
    proof {
        lemma_run_start_bounds(v@, b as int);
    }
    b - a >= 2 && v[a] == '@' && (b == v.len() || is_whitespace(v[b]))
}

/// The mention range before the cursor that deletes as one token (see [`completed_mention`]).
pub fn completed_at_mention_range_before_cursor(buffer: &str, cursor_char_idx: usize) -> (r: Option<(usize, usize)>)
    ensures
        match (r, completed_mention(buffer@, cursor_char_idx as nat)) {
            (Some((a, b)), Some((sa, sb))) => a == sa && b == sb,
            (None, None) => true,
            _ => false,
        },
{
    let v = chars_of(buffer);
    if mention_ends_at_exec(&v, cursor_char_idx) {
        return Some((run_start_exec(&v, cursor_char_idx), cursor_char_idx));
    }
    if cursor_char_idx >= 1 && cursor_char_idx <= v.len() && v[cursor_char_idx - 1] == ' '
        && mention_ends_at_exec(&v, cursor_char_idx - 1) {
        return Some((run_start_exec(&v, cursor_char_idx - 1), cursor_char_idx));
    }
    None
}

/// `buffer` without the characters `start..end`.
pub fn remove_char_range(buffer: &str, start_char_idx: usize, end_char_idx: usize) -> (r: String)
    requires
        start_char_idx <= end_char_idx <= buffer@.len(),
    ensures
        r@ == buffer@.take(start_char_idx as int) + buffer@.skip(end_char_idx as int),
{
    let v = chars_of(buffer);
    let mut out = slice_vec(&v, 0, start_char_idx);
    let ghost mid = out@;
    let mut j = end_char_idx;
    while j < v.len()
        invariant
            end_char_idx <= j <= v@.len(),
            out@ == mid + v@.subrange(end_char_idx as int, j as int),
        decreases v@.len() - j,
    {
        out.push(v[j]);
        assert(mid + v@.subrange(end_char_idx as int, j + 1) =~= (mid + v@.subrange(end_char_idx as int, j as int)).push(v@[j as int]));
        j += 1;
    }
    assert(v@.subrange(end_char_idx as int, v@.len() as int) =~= v@.skip(end_char_idx as int));
    assert(v@.subrange(0, start_char_idx as int) =~= v@.take(start_char_idx as int));
    string_of(&out)
}

/// Backspace over a completed mention: the buffer without it and the cursor at its start.
pub fn delete_completed_at_mention(buffer: &str, cursor_char_idx: usize) -> (r: Option<(String, usize)>)
    ensures
        match (r, completed_mention(buffer@, cursor_char_idx as nat)) {
            (Some((b, c)), Some((sa, sb))) => b@ == buffer@.take(sa as int) + buffer@.skip(sb as int) && c == sa,
            (None, None) => true,
            _ => false,
        },
{
    match completed_at_mention_range_before_cursor(buffer, cursor_char_idx) {
        Some((start, end)) => {
            proof {
                let s = buffer@;
                if cursor_char_idx <= s.len() && mention_ends_at(s, cursor_char_idx as int) {
                    lemma_run_start_bounds(s, cursor_char_idx as int);
                } else {
                    lemma_run_start_bounds(s, cursor_char_idx - 1);
                }
            }
            Some((remove_char_range(buffer, start, end), start))
        },
        None => None,
    }
}

proof fn lemma_run_start_exact(t: Seq<char>, a: int, b: int)
    requires
        0 <= a <= b <= t.len(),
        forall|i: int| a <= i < b ==> !is_ws(t[i]),
        a == 0 || is_ws(t[a - 1]),
    ensures
        run_start(t, b) == a,
    decreases b - a,
{
    if b > a {
        lemma_run_start_exact(t, a, b - 1);
    }
}

/// A path with something in it and no white space, as a mention can hold it.
pub open spec fn mention_path(p: Seq<char>) -> bool {
    p.len() > 0 && forall|i: int| 0 <= i < p.len() ==> !is_ws(p[i])
}

/// Accepting an `@` completion with Enter (which adds a space) leaves a completed mention
/// before the cursor, which Backspace then removes as one token back to the `@`, when the
/// offered paths have no white space.
pub proof fn law_accepted_mention_deletes_whole(
    files: Seq<Seq<char>>,
    s: Seq<char>,
    cursor: nat,
    index: nat,
)
    requires
        selected_completion(files, s, cursor, index, true) is Some,
        forall|i: int| 0 <= i < at_matches(files, s, cursor).len() ==> mention_path(
            #[trigger] at_matches(files, s, cursor)[i],
        ),
    ensures
        ({
            let (nb, nc) = selected_completion(files, s, cursor, index, true)->0;
            completed_mention(nb, nc) == Some(((at_token(s, cursor)->0).0, nc))
        }),
{
    let m = at_matches(files, s, cursor);
    let pick: int = if index < m.len() { index as int } else { m.len() - 1 };
    let choice = m[pick];
    assert(mention_path(choice));
    let c: int = if cursor <= s.len() { cursor as int } else { s.len() as int };
    let k = (at_token(s, cursor)->0).0 as int;
    lemma_run_start_bounds(s, c);
    assert(k < c && s[k] == '@');
    let nb1 = s.take(k + 1) + choice + s.skip(c);
    let nc1 = k + 1 + choice.len();
    assert(applied_completion(s, cursor, choice) == (nb1, nc1 as nat));
    let nb = nb1.take(nc1) + seq![' '] + nb1.skip(nc1);
    let nc = nc1 + 1;
    assert(selected_completion(files, s, cursor, index, true) == Some((nb, nc as nat)));
    assert(nb.len() == nb1.len() + 1);
    assert forall|i: int| k <= i < nc1 implies !is_ws(nb[i]) by {
        if i == k {
            assert(nb[i] == s[k]);
        } else {
            assert(nb[i] == choice[i - k - 1]);
        }
    }
    if k > 0 {
        assert(nb[k - 1] == s[k - 1]);
    }
    lemma_run_start_exact(nb, k, nc1);
    assert(nb[nc1] == ' ');
    assert(nb[k] == '@');
    assert(is_mention(nb, k, nc1));
    assert(mention_ends_at(nb, nc1));
    assert(run_start(nb, nc) == nc);
    assert(!mention_ends_at(nb, nc));
}


/// Accepting an `@` completion replaces only the token before the cursor: the buffer up to
/// and including the `@` stays, the choice follows it and the cursor lands right after the
/// choice, and the text from the old cursor to the end of the buffer comes after it
/// unchanged. With no `@` token before the cursor nothing changes.
pub proof fn law_at_completion_keeps_surroundings(s: Seq<char>, cursor: nat, choice: Seq<char>)
    ensures
        ({
            let c: int = if cursor <= s.len() { cursor as int } else { s.len() as int };
            let (nb, nc) = applied_completion(s, cursor, choice);
            match at_token(s, cursor) {
                Some((k, _)) => {
                    &&& s[k as int] == '@'
                    &&& k < c
                    &&& choice.len() <= nc <= nb.len()
                    &&& nb.take(nc - choice.len()) == s.take(nc - choice.len())
                    &&& nc - choice.len() == k + 1
                    &&& nb.subrange(nc - choice.len(), nc as int) == choice
                    &&& nb.skip(nc as int) == s.skip(c)
                },
                None => nb == s && nc == cursor,
            }
        }),
{
    let c: int = if cursor <= s.len() { cursor as int } else { s.len() as int };
    lemma_run_start_bounds(s, c);
    match at_token(s, cursor) {
        Some((k0, _)) => {
            let k = k0 as int;
            let (nb, nc) = applied_completion(s, cursor, choice);
            assert(nb.take(k + 1) =~= s.take(k + 1));
            assert(nb.subrange(k + 1, nc as int) =~= choice);
            assert(nb.skip(nc as int) =~= s.skip(c));
        },
        None => {},
    }
}

} // verus!
