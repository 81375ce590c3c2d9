//! The `nca cost` table: which sessions it lists, in what order, and how it lays them out.

use crate::session::{cost_string, cost_text, dec, push_decimal, SessionSnapshot, UtcTime};
use crate::session_list::later;
use crate::slash::pad_right;
use crate::styled::pad_to;
use vstd::prelude::*;

verus! {

/// Positions among the first `n` sessions updated after the cutoff (all without one).
pub open spec fn kept(s: Seq<SessionSnapshot>, cutoff: Option<UtcTime>, n: nat) -> Seq<int>
    decreases n,
{
    if n == 0 || n > s.len() {
        seq![]
    } else {
        let prev = kept(s, cutoff, (n - 1) as nat);
        if cutoff matches Some(c) && !later(s[n - 1].updated_at, c) {
            prev
        } else {
            prev.push(n - 1)
        }
    }
}

/// Where a stable newest-first insertion puts session `x` among the first `j` of `order`:
/// after every session updated at the same time or later.
pub open spec fn newer_pos(s: Seq<SessionSnapshot>, order: Seq<int>, x: int, j: nat) -> nat
    decreases j,
{
    if j == 0 || j > order.len() || !later(s[x].updated_at, s[order[j - 1]].updated_at) {
        j
    } else {
        newer_pos(s, order, x, (j - 1) as nat)
    }
}

/// The positions `idx` ordered newest first, equally recent ones in their given order.
pub open spec fn newest_first(s: Seq<SessionSnapshot>, idx: Seq<int>) -> Seq<int>
    decreases idx.len(),
{
    if idx.len() == 0 {
        seq![]
    } else {
        let sorted = newest_first(s, idx.drop_last());
        sorted.insert(newer_pos(s, sorted, idx.last(), sorted.len()) as int, idx.last())
    }
}

/// The sessions the table lists: those updated after the cutoff, newest first, at most
/// `limit`.
pub open spec fn dashboard_rows(s: Seq<SessionSnapshot>, cutoff: Option<UtcTime>, limit: nat) -> Seq<int> {
    let sorted = newest_first(s, kept(s, cutoff, s.len()));
    if sorted.len() <= limit {
        sorted
    } else {
        sorted.take(limit as int)
    }
}

proof fn lemma_newer_pos(s: Seq<SessionSnapshot>, order: Seq<int>, x: int, j: nat)
    requires
        j <= order.len(),
    ensures
        newer_pos(s, order, x, j) <= j,
    decreases j,
{
    if j > 0 && later(s[x].updated_at, s[order[j - 1]].updated_at) {
        lemma_newer_pos(s, order, x, (j - 1) as nat);
    }
}

/// The positions of the sessions the cost table lists (see [`dashboard_rows`]).
pub fn dashboard_order(sessions: &[SessionSnapshot], cutoff: Option<UtcTime>, limit: usize) -> (r: Vec<usize>)
    ensures
        r@.map_values(|i: usize| i as int) == dashboard_rows(sessions@, cutoff, limit as nat),
        forall|k: int| 0 <= k < r@.len() ==> r@[k] < sessions@.len(),
{
    let ghost sv = sessions@;
    let mut idx: Vec<usize> = Vec::new();
    let mut i: usize = 0;
    while i < sessions.len()
        invariant
            i <= sessions@.len(),
            sv == sessions@,
            idx@.map_values(|k: usize| k as int) == kept(sv, cutoff, i as nat),
            forall|k: int| 0 <= k < idx@.len() ==> idx@[k] < i,
        decreases sessions@.len() - i,
    {
        let keep = match cutoff {
            Some(c) => crate::session_list::is_later(sessions[i].updated_at, c),
            None => true,
        };
        let ghost i0 = idx@;
        if keep {
            idx.push(i);
            assert(idx@.map_values(|k: usize| k as int) =~= i0.map_values(|k: usize| k as int).push(i as int));
        }
        i += 1;
    }
    let ghost all = idx@.map_values(|k: usize| k as int);
    let mut out: Vec<usize> = Vec::new();
    let mut n: usize = 0;
    assert(all.take(0) =~= Seq::<int>::empty());
    while n < idx.len()
        invariant
            n <= idx@.len(),
            all == idx@.map_values(|k: usize| k as int),
            forall|k: int| 0 <= k < idx@.len() ==> idx@[k] < sessions@.len(),
            out@.map_values(|k: usize| k as int) == newest_first(sv, all.take(n as int)),
            out@.len() == n,
            forall|k: int| 0 <= k < out@.len() ==> out@[k] < sessions@.len(),
            sv == sessions@,
        decreases idx@.len() - n,
    {
        let x = idx[n];
        let ghost ov = out@.map_values(|k: usize| k as int);
        let mut j = out.len();
        while j > 0 && crate::session_list::is_later(sessions[x].updated_at, sessions[out[j - 1]].updated_at)
            invariant
                j <= out@.len(),
                x < sessions@.len(),
                ov == out@.map_values(|k: usize| k as int),
                forall|k: int| 0 <= k < out@.len() ==> out@[k] < sessions@.len(),
                newer_pos(sv, ov, x as int, ov.len()) == newer_pos(sv, ov, x as int, j as nat),
                sv == sessions@,
            decreases j,
        {
            assert(ov[j - 1] == out@[j - 1] as int);
            j -= 1;
        }
        proof {
            if j > 0 {
                assert(ov[j - 1] == out@[j - 1] as int);
            }
        }
        assert(newer_pos(sv, ov, x as int, j as nat) == j);
        out.insert(j, x);
        assert(out@.map_values(|k: usize| k as int) =~= ov.insert(j as int, x as int));
        assert(all.take(n + 1).drop_last() =~= all.take(n as int));
        assert(all.take(n + 1).last() == x as int);
        assert forall|k: int| 0 <= k < out@.len() implies out@[k] < sessions@.len() by {
            if k < j {
                assert(out@[k] == ov[k]);
            } else if k > j {
                assert(out@[k] as int == ov[k - 1]);
            }
        }
        n += 1;
    }
    assert(all.take(idx@.len() as int) =~= all);
    if out.len() > limit {
        out.truncate(limit);
        assert(out@.map_values(|k: usize| k as int) =~= newest_first(sv, all).take(limit as int));
    }
    out
}

/// `s` preceded by spaces up to `w` characters (unchanged when already that long).
pub open spec fn pad_left(s: Seq<char>, w: nat) -> Seq<char> {
    if s.len() >= w {
        s
    } else {
        Seq::new((w - s.len()) as nat, |i: int| ' ') + s
    }
}

/// A row of the table: two left-aligned and three right-aligned columns.
pub open spec fn table_row(a: Seq<char>, b: Seq<char>, c: Seq<char>, d: Seq<char>, e: Seq<char>) -> Seq<char> {
    pad_right(a, 24) + " "@ + pad_right(b, 28) + " "@ + pad_left(c, 10) + " "@ + pad_left(d, 10) + " "@
        + pad_left(e, 10)
}

/// The rule under the header and above the totals.
pub open spec fn table_rule() -> Seq<char> {
    Seq::new(84, |i: int| '-')
}

/// The line of one session: its id and model cut to 22 and 26 characters, its tokens and
/// its cost.
pub open spec fn session_row(s: SessionSnapshot) -> Seq<char> {
    table_row(
        if s.id@.len() <= 22 { s.id@ } else { s.id@.take(22) },
        if s.model@.len() <= 26 { s.model@ } else { s.model@.take(26) },
        dec(s.total_input_tokens as nat),
        dec(s.total_output_tokens as nat),
        cost_text(s.estimated_cost_ten_thousandths as nat),
    )
}

/// Total input and output tokens of the listed sessions.
pub open spec fn token_totals(s: Seq<SessionSnapshot>, rows: Seq<int>) -> (int, int)
    decreases rows.len(),
{
    if rows.len() == 0 {
        (0, 0)
    } else {
        let (a, b) = token_totals(s, rows.drop_last());
        (a + s[rows.last()].total_input_tokens, b + s[rows.last()].total_output_tokens)
    }
}

/// The table: header, rule, one line per listed session, rule, and the totals with the
/// given text of the total cost.
pub open spec fn dashboard_table(s: Seq<SessionSnapshot>, rows: Seq<int>, total_cost: Seq<char>) -> Seq<Seq<char>> {
    let (tin, tout) = token_totals(s, rows);
    seq![table_row("SESSION"@, "MODEL"@, "IN"@, "OUT"@, "COST"@), table_rule()] + rows.map_values(
        |i: int| session_row(s[i]),
    ) + seq![
        table_rule(),
        table_row(dec(rows.len()) + " sessions"@, Seq::empty(), dec(tin as nat), dec(tout as nat), total_cost),
    ]
}

pub(crate) fn pad_left_to(s: &str, w: usize) -> (r: String)
    ensures
        r@ == pad_left(s@, w as nat),
{
    let n = crate::text::chars_of(s).len();
    let mut r = String::new();
    let mut k = n;
    assert(r@ =~= Seq::new(0nat, |i: int| ' '));
    while k < w
        invariant
            n == s@.len(),
            n <= k <= w || k == n,
            r@ == Seq::new((k - n) as nat, |i: int| ' '),
        decreases w - k,
    {
        crate::text::push_char(&mut r, ' ');
        assert(r@ =~= Seq::new((k + 1 - n) as nat, |i: int| ' '));
        k += 1;
    }
    r.append(s);
    assert(r@ =~= pad_left(s@, w as nat));
    r
}

fn row_text(a: &str, b: &str, c: &str, d: &str, e: &str) -> (r: String)
    ensures
        r@ == table_row(a@, b@, c@, d@, e@),
{
    let mut r = pad_to(a, 24);
    r.append(" ");
    r.append(pad_to(b, 28).as_str());
    r.append(" ");
    r.append(pad_left_to(c, 10).as_str());
    r.append(" ");
    r.append(pad_left_to(d, 10).as_str());
    r.append(" ");
    r.append(pad_left_to(e, 10).as_str());
    r
}

fn decimal(n: u64) -> (r: String)
    ensures
        r@ == dec(n as nat),
{
    let mut r = String::new();
    push_decimal(&mut r, n);
    r
}

fn prefix_chars(s: &str, n: usize) -> (r: String)
    ensures
        r@ == if s@.len() <= n { s@ } else { s@.take(n as int) },
{
    let v = crate::text::chars_of(s);
    if v.len() <= n {
        s.to_owned()
    } else {
        let t = crate::text::slice_vec(&v, 0, n);
        assert(t@ =~= s@.take(n as int));
        crate::text::string_of(&t)
    }
}

/// The lines of the cost table for the listed sessions `rows` (see [`dashboard_table`]);
/// `total_cost` is the text of their summed cost.
pub fn cost_dashboard_lines(sessions: &[SessionSnapshot], rows: &[usize], total_cost: &str) -> (r: Vec<String>)
    requires
        forall|k: int| 0 <= k < rows@.len() ==> rows@[k] < sessions@.len(),
        token_totals(sessions@, rows@.map_values(|i: usize| i as int)).0 <= u64::MAX,
        token_totals(sessions@, rows@.map_values(|i: usize| i as int)).1 <= u64::MAX,
    ensures
        crate::wrap::views(r@) == dashboard_table(sessions@, rows@.map_values(|i: usize| i as int), total_cost@),
{
    let ghost rv = rows@.map_values(|i: usize| i as int);
    let mut out: Vec<String> = Vec::new();
    out.push(row_text("SESSION", "MODEL", "IN", "OUT", "COST"));
    let mut rule = String::new();
    let mut k: usize = 0;
    while k < 84
        invariant
            k <= 84,
            rule@ == Seq::new(k as nat, |i: int| '-'),
        decreases 84 - k,
    {
        crate::text::push_char(&mut rule, '-');
        assert(rule@ =~= Seq::new((k + 1) as nat, |i: int| '-'));
        k += 1;
    }
    out.push(rule.clone());
    let ghost head = crate::wrap::views(out@);
    assert(head =~= seq![table_row("SESSION"@, "MODEL"@, "IN"@, "OUT"@, "COST"@), table_rule()]);
    let mut tin: u64 = 0;
    let mut tout: u64 = 0;
    let mut i: usize = 0;
    proof {
        assert(rv.take(0) =~= Seq::<int>::empty());
    }
    while i < rows.len()
        invariant
            i <= rows@.len(),
            rv == rows@.map_values(|i: usize| i as int),
            forall|k: int| 0 <= k < rows@.len() ==> rows@[k] < sessions@.len(),
            token_totals(sessions@, rv).0 <= u64::MAX,
            token_totals(sessions@, rv).1 <= u64::MAX,
            crate::wrap::views(out@) == head + rv.take(i as int).map_values(|j: int| session_row(sessions@[j])),
            (tin as int, tout as int) == token_totals(sessions@, rv.take(i as int)),
        decreases rows@.len() - i,
    {
        let s = &sessions[rows[i]];
        assert(rv.take(i + 1).drop_last() =~= rv.take(i as int));
        assert(rv.take(i + 1).last() == rows@[i as int] as int);
        proof {
            lemma_totals_prefix(sessions@, rv, (i + 1) as nat);
        }
        tin = tin + s.total_input_tokens;
        tout = tout + s.total_output_tokens;
        let id = prefix_chars(s.id.as_str(), 22);
        let model = prefix_chars(s.model.as_str(), 26);
        let line = row_text(
            id.as_str(),
            model.as_str(),
            decimal(s.total_input_tokens).as_str(),
            decimal(s.total_output_tokens).as_str(),
            cost_string(s.estimated_cost_ten_thousandths).as_str(),
        );
        let ghost o = crate::wrap::views(out@);
        out.push(line);
        assert(crate::wrap::views(out@) =~= o.push(session_row(*s)));
        assert(rv.take(i + 1).map_values(|j: int| session_row(sessions@[j])) =~= rv.take(i as int).map_values(
            |j: int| session_row(sessions@[j]),
        ).push(session_row(*s)));
        i += 1;
    }
    assert(rv.take(rows@.len() as int) =~= rv);
    out.push(rule);
    let mut label = decimal(rows.len() as u64);
    label.append(" sessions");
    out.push(row_text(
        label.as_str(),
        "",
        decimal(tin).as_str(),
        decimal(tout).as_str(),
        total_cost,
    ));
    proof {
        reveal_strlit("");
    }
    assert(crate::wrap::views(out@) =~= dashboard_table(sessions@, rv, total_cost@));
    out
}

proof fn lemma_totals_prefix(s: Seq<SessionSnapshot>, rows: Seq<int>, n: nat)
    requires
        n <= rows.len(),
    ensures
        token_totals(s, rows.take(n as int)).0 <= token_totals(s, rows).0,
        token_totals(s, rows.take(n as int)).1 <= token_totals(s, rows).1,
    decreases rows.len() - n,
{
    if n < rows.len() {
        lemma_totals_prefix(s, rows, n + 1);
        assert(rows.take((n + 1) as int).drop_last() =~= rows.take(n as int));
    } else {
        assert(rows.take(n as int) =~= rows);
    }
}

/// No listed session was updated later than one listed before it.
pub open spec fn newest_sorted(s: Seq<SessionSnapshot>, r: Seq<int>) -> bool {
    forall|a: int, b: int| 0 <= a < b < r.len() ==> !later(s[r[b]].updated_at, s[r[a]].updated_at)
}

proof fn lemma_newer_pos_props(s: Seq<SessionSnapshot>, order: Seq<int>, x: int, j: nat)
    requires
        j <= order.len(),
    ensures
        newer_pos(s, order, x, j) <= j,
        forall|k: int| newer_pos(s, order, x, j) <= k < j ==> later(s[x].updated_at, s[#[trigger] order[k]].updated_at),
        newer_pos(s, order, x, j) > 0 ==> !later(s[x].updated_at, s[order[newer_pos(s, order, x, j) - 1]].updated_at),
    decreases j,
{
    if j > 0 && later(s[x].updated_at, s[order[j - 1]].updated_at) {
        lemma_newer_pos_props(s, order, x, (j - 1) as nat);
    }
}

proof fn lemma_newest_first(s: Seq<SessionSnapshot>, idx: Seq<int>)
    ensures
        newest_sorted(s, newest_first(s, idx)),
        newest_first(s, idx).len() == idx.len(),
        forall|k: int| 0 <= k < idx.len() ==> idx.contains(#[trigger] newest_first(s, idx)[k]),
    decreases idx.len(),
{
    if idx.len() > 0 {
        let t = idx.drop_last();
        lemma_newest_first(s, t);
        let o = newest_first(s, t);
        let x = idx.last();
        let p = newer_pos(s, o, x, o.len()) as int;
        lemma_newer_pos_props(s, o, x, o.len());
        let r = newest_first(s, idx);
        assert(r == o.insert(p, x));
        assert forall|a: int, b: int| 0 <= a < b < r.len() implies !later(
            s[r[b]].updated_at,
            s[r[a]].updated_at,
        ) by {
            if b < p {
                assert(r[a] == o[a] && r[b] == o[b]);
            } else if a > p {
                assert(r[a] == o[a - 1] && r[b] == o[b - 1]);
            } else if a < p && b > p {
                assert(r[a] == o[a] && r[b] == o[b - 1]);
            } else if b == p {
                assert(r[a] == o[a] && r[b] == x);
                if a < p - 1 {
                    assert(!later(s[o[p - 1]].updated_at, s[o[a]].updated_at));
                }
            } else {
                assert(a == p && r[a] == x && r[b] == o[b - 1]);
                assert(later(s[x].updated_at, s[o[b - 1]].updated_at));
            }
        }
        assert forall|k: int| 0 <= k < idx.len() implies idx.contains(#[trigger] r[k]) by {
            if k == p {
                assert(idx[idx.len() - 1] == x);
            } else {
                let q = if k < p { k } else { k - 1 };
                assert(r[k] == o[q]);
                assert(t.contains(o[q]));
                let w = choose|w: int| 0 <= w < t.len() && t[w] == o[q];
                assert(idx[w] == t[w]);
            }
        }
    }
}

proof fn lemma_kept(s: Seq<SessionSnapshot>, cutoff: Option<UtcTime>, n: nat)
    ensures
        forall|k: int| 0 <= k < kept(s, cutoff, n).len() ==> {
            let i = #[trigger] kept(s, cutoff, n)[k];
            &&& 0 <= i < s.len()
            &&& (cutoff matches Some(c) ==> later(s[i].updated_at, c))
        },
    decreases n,
{
    if n > 0 && n <= s.len() {
        lemma_kept(s, cutoff, (n - 1) as nat);
        let prev = kept(s, cutoff, (n - 1) as nat);
        let r = kept(s, cutoff, n);
        assert forall|k: int| 0 <= k < r.len() implies {
            let i = #[trigger] r[k];
            &&& 0 <= i < s.len()
            &&& (cutoff matches Some(c) ==> later(s[i].updated_at, c))
        } by {
            if k < prev.len() {
                assert(r[k] == prev[k]);
            }
        }
    }
}

/// The cost table lists only sessions updated after the cutoff, never one after a session
/// updated earlier, and at most `limit` of them.
pub proof fn law_dashboard_newest_first(s: Seq<SessionSnapshot>, cutoff: Option<UtcTime>, limit: nat)
    ensures
        newest_sorted(s, dashboard_rows(s, cutoff, limit)),
        dashboard_rows(s, cutoff, limit).len() <= limit,
        forall|k: int| 0 <= k < dashboard_rows(s, cutoff, limit).len() ==> {
            let i = #[trigger] dashboard_rows(s, cutoff, limit)[k];
            &&& 0 <= i < s.len()
            &&& (cutoff matches Some(c) ==> later(s[i].updated_at, c))
        },
{
    let idx = kept(s, cutoff, s.len());
    lemma_kept(s, cutoff, s.len());
    lemma_newest_first(s, idx);
    let sorted = newest_first(s, idx);
    let r = dashboard_rows(s, cutoff, limit);
    assert forall|k: int| 0 <= k < r.len() implies {
        let i = #[trigger] r[k];
        &&& 0 <= i < s.len()
        &&& (cutoff matches Some(c) ==> later(s[i].updated_at, c))
    } by {
        assert(r[k] == sorted[k]);
        assert(idx.contains(sorted[k]));
        let w = choose|w: int| 0 <= w < idx.len() && idx[w] == sorted[k];
        assert(idx[w] == r[k]);
    }
    assert forall|a: int, b: int| 0 <= a < b < r.len() implies !later(s[r[b]].updated_at, s[r[a]].updated_at) by {
        assert(r[a] == sorted[a] && r[b] == sorted[b]);
    }
}

} // verus!
