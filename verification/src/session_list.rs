//! Which saved sessions `nca sessions` lists, and in what order; which one `--resume`
//! continues.

use crate::approval::{to_lowercase, unicode_lower};
use crate::cli_values::SessionStatusFilter;
use crate::prompt::opt_view;
use crate::session::{status_label, status_name, SessionSnapshot, SessionStatus, UtcTime};
use crate::styled::cat2;
use crate::wrap::views;
use crate::text::{chars_of, contains_seq, contains_vec};
use vstd::prelude::*;

verus! {

/// `a` is a later instant than `b`.
pub open spec fn later(a: UtcTime, b: UtcTime) -> bool {
    a.secs > b.secs || (a.secs == b.secs && a.nanos > b.nanos)
}

/// Whether `a` is a later instant than `b`.
pub fn is_later(a: UtcTime, b: UtcTime) -> (r: bool)
    ensures
        r == later(a, b),
{
    a.secs > b.secs || (a.secs == b.secs && a.nanos > b.nanos)
}

/// `a` comes before `b` in code-point order (as `str` orders them).
pub open spec fn text_lt(a: Seq<char>, b: Seq<char>) -> bool
    decreases a.len(),
{
    if b.len() == 0 {
        false
    } else if a.len() == 0 {
        true
    } else if a[0] != b[0] {
        (a[0] as int) < (b[0] as int)
    } else {
        text_lt(a.drop_first(), b.drop_first())
    }
}

/// Whether `a` comes before `b` in code-point order.
pub fn text_less(a: &str, b: &str) -> (r: bool)
    ensures
        r == text_lt(a@, b@),
{
    let x = chars_of(a);
    let y = chars_of(b);
    let mut i: usize = 0;
    assert(x@.skip(0) =~= x@);
    assert(y@.skip(0) =~= y@);
    while i < x.len() && i < y.len() && x[i] == y[i]
        invariant
            i <= x@.len(),
            i <= y@.len(),
            x@ == a@,
            y@ == b@,
            text_lt(a@, b@) == text_lt(x@.skip(i as int), y@.skip(i as int)),
        decreases x@.len() - i,
    {
        assert(x@.skip(i as int).drop_first() =~= x@.skip(i + 1));
        assert(y@.skip(i as int).drop_first() =~= y@.skip(i + 1));
        i += 1;
    }
    if i >= y.len() {
        false
    } else if i >= x.len() {
        true
    } else {
        assert(x@.skip(i as int)[0] == x@[i as int]);
        assert(y@.skip(i as int)[0] == y@[i as int]);
        x[i] < y[i]
    }
}

pub(crate) proof fn lemma_text_lt_irreflexive(a: Seq<char>)
    ensures
        !text_lt(a, a),
    decreases a.len(),
{
    if a.len() > 0 {
        lemma_text_lt_irreflexive(a.drop_first());
    }
}

pub(crate) proof fn lemma_text_lt_total(a: Seq<char>, b: Seq<char>)
    ensures
        a == b || text_lt(a, b) || text_lt(b, a),
    decreases a.len(),
{
    if a.len() > 0 && b.len() > 0 && a[0] == b[0] {
        lemma_text_lt_total(a.drop_first(), b.drop_first());
        if a.drop_first() == b.drop_first() {
            assert(a.len() == b.len());
            assert forall|i: int| 0 <= i < a.len() implies a[i] == b[i] by {
                if i > 0 {
                    assert(a[i] == a.drop_first()[i - 1]);
                    assert(b[i] == b.drop_first()[i - 1]);
                }
            }
            assert(a =~= b);
        }
    } else if a.len() == 0 && b.len() == 0 {
        assert(a =~= b);
    } else if a.len() > 0 && b.len() > 0 {
        assert((a[0] as int) != (b[0] as int));
    }
}

pub(crate) proof fn lemma_text_lt_asym(a: Seq<char>, b: Seq<char>)
    ensures
        !(text_lt(a, b) && text_lt(b, a)),
    decreases a.len(),
{
    if a.len() > 0 && b.len() > 0 && a[0] == b[0] {
        lemma_text_lt_asym(a.drop_first(), b.drop_first());
    }
}

pub(crate) proof fn lemma_text_lt_trans(a: Seq<char>, b: Seq<char>, c: Seq<char>)
    requires
        text_lt(a, b),
        text_lt(b, c),
    ensures
        text_lt(a, c),
    decreases a.len(),
{
    if a.len() > 0 && b.len() > 0 && c.len() > 0 && a[0] == b[0] && b[0] == c[0] {
        lemma_text_lt_trans(a.drop_first(), b.drop_first(), c.drop_first());
    }
}

/// A status filter admits a status (`failed` admits sessions that ended in an error).
pub open spec fn status_admits(f: SessionStatusFilter, s: SessionStatus) -> bool {
    match f {
        SessionStatusFilter::Running => s == SessionStatus::Running,
        SessionStatusFilter::Completed => s == SessionStatus::Completed,
        SessionStatusFilter::Cancelled => s == SessionStatus::Cancelled,
        SessionStatusFilter::Failed => s == SessionStatus::Error,
    }
}

/// A session passes the listing's filters: the status filter, the cutoff (updated after
/// it), and the search text (in the lower-cased id, summary or model).
pub open spec fn listed(
    s: SessionSnapshot,
    status: Option<SessionStatusFilter>,
    cutoff: Option<UtcTime>,
    search: Option<Seq<char>>,
) -> bool {
    &&& (status matches Some(f) ==> status_admits(f, s.status))
    &&& (cutoff matches Some(c) ==> later(s.updated_at, c))
    &&& (search matches Some(p) ==> {
        let q = unicode_lower(p);
        contains_seq(unicode_lower(s.id@), q) || (s.session_summary matches Some(sum)
            && contains_seq(unicode_lower(sum@), q)) || contains_seq(unicode_lower(s.model@), q)
    })
}

/// Listing order of positions `i` and `j`: the later update first, then the smaller id,
/// then the earlier position.
pub open spec fn listed_before(sessions: Seq<SessionSnapshot>, i: int, j: int) -> bool {
    let a = sessions[i];
    let b = sessions[j];
    later(a.updated_at, b.updated_at) || (a.updated_at == b.updated_at && (text_lt(a.id@, b.id@)
        || (a.id@ == b.id@ && i < j)))
}

proof fn lemma_before_trans(s: Seq<SessionSnapshot>, i: int, j: int, k: int)
    requires
        listed_before(s, i, j),
        listed_before(s, j, k),
    ensures
        listed_before(s, i, k),
{
    if s[i].updated_at == s[j].updated_at && s[j].updated_at == s[k].updated_at {
        if text_lt(s[i].id@, s[j].id@) && text_lt(s[j].id@, s[k].id@) {
            lemma_text_lt_trans(s[i].id@, s[j].id@, s[k].id@);
        }
    }
}

proof fn lemma_before_total(s: Seq<SessionSnapshot>, i: int, j: int)
    requires
        i != j,
    ensures
        listed_before(s, i, j) || listed_before(s, j, i),
        !(listed_before(s, i, j) && listed_before(s, j, i)),
{
    lemma_text_lt_total(s[i].id@, s[j].id@);
    lemma_text_lt_asym(s[i].id@, s[j].id@);
    lemma_text_lt_irreflexive(s[i].id@);
}

/// Number of sessions among the first `n` that pass the filters.
pub open spec fn listed_count(
    sessions: Seq<SessionSnapshot>,
    status: Option<SessionStatusFilter>,
    cutoff: Option<UtcTime>,
    search: Option<Seq<char>>,
    n: int,
) -> nat
    decreases n,
{
    if n <= 0 {
        0
    } else {
        listed_count(sessions, status, cutoff, search, n - 1) + if listed(
            sessions[n - 1],
            status,
            cutoff,
            search,
        ) {
            1nat
        } else {
            0nat
        }
    }
}

/// `r` is the listing: the positions of at most `limit` sessions that pass the filters,
/// in listing order, none left out that comes before one shown.
pub open spec fn is_listing(
    sessions: Seq<SessionSnapshot>,
    status: Option<SessionStatusFilter>,
    cutoff: Option<UtcTime>,
    search: Option<Seq<char>>,
    limit: nat,
    r: Seq<usize>,
) -> bool {
    let total = listed_count(sessions, status, cutoff, search, sessions.len() as int);
    &&& r.len() == if limit <= total {
        limit
    } else {
        total
    }
    &&& forall|k: int| 0 <= k < r.len() ==> #[trigger] r[k] < sessions.len() && listed(
        sessions[r[k] as int],
        status,
        cutoff,
        search,
    )
    &&& forall|a: int, b: int| 0 <= a < b < r.len() ==> listed_before(
        sessions,
        #[trigger] r[a] as int,
        #[trigger] r[b] as int,
    )
    &&& forall|j: int, k: int|
        0 <= j < sessions.len() && listed(sessions[j], status, cutoff, search) && 0 <= k < r.len()
            && !r.contains(j as usize) ==> #[trigger] listed_before(sessions, r[k] as int, j)
}

/// Whether session `s` passes the filters (the search text already lower-cased).
fn passes(
    s: &SessionSnapshot,
    status: Option<SessionStatusFilter>,
    cutoff: Option<UtcTime>,
    search: &Option<String>,
    query: &Vec<char>,
) -> (b: bool)
    requires
        search matches Some(p) ==> query@ == unicode_lower(p@),
    ensures
        b == listed(
            *s,
            status,
            cutoff,
            opt_view(*search),
        ),
{
    let status_ok = match status {
        Some(f) => match f {
            SessionStatusFilter::Running => match s.status {
                SessionStatus::Running => true,
                _ => false,
            },
            SessionStatusFilter::Completed => match s.status {
                SessionStatus::Completed => true,
                _ => false,
            },
            SessionStatusFilter::Cancelled => match s.status {
                SessionStatus::Cancelled => true,
                _ => false,
            },
            SessionStatusFilter::Failed => match s.status {
                SessionStatus::Error => true,
                _ => false,
            },
        },
        None => true,
    };
    if !status_ok {
        return false;
    }
    let time_ok = match cutoff {
        Some(c) => is_later(s.updated_at, c),
        None => true,
    };
    if !time_ok {
        return false;
    }
    match search {
        None => true,
        Some(_) => {
            let id = chars_of(to_lowercase(s.id.as_str()).as_str());
            if contains_vec(&id, query) {
                return true;
            }
            let in_summary = match &s.session_summary {
                Some(sum) => contains_vec(&chars_of(to_lowercase(sum.as_str()).as_str()), query),
                None => false,
            };
            if in_summary {
                return true;
            }
            contains_vec(&chars_of(to_lowercase(s.model.as_str()).as_str()), query)
        },
    }
}

/// Whether position `i` comes before position `j` in listing order.
fn before_exec(sessions: &[SessionSnapshot], i: usize, j: usize) -> (b: bool)
    requires
        i < sessions@.len(),
        j < sessions@.len(),
    ensures
        b == listed_before(sessions@, i as int, j as int),
{
    let a = &sessions[i];
    let c = &sessions[j];
    if is_later(a.updated_at, c.updated_at) {
        return true;
    }
    if !(a.updated_at.secs == c.updated_at.secs && a.updated_at.nanos == c.updated_at.nanos) {
        return false;
    }
    if text_less(a.id.as_str(), c.id.as_str()) {
        return true;
    }
    let same_id = crate::text::eq_vec(&chars_of(a.id.as_str()), &chars_of(c.id.as_str()));
    same_id && i < j
}

/// The positions of the sessions `nca sessions` shows (see [`is_listing`]): those that
/// pass the status filter, the cutoff and the search, newest first, at most `limit`.
pub fn session_listing(
    sessions: &[SessionSnapshot],
    status: Option<SessionStatusFilter>,
    cutoff: Option<UtcTime>,
    search: Option<String>,
    limit: usize,
) -> (r: Vec<usize>)
    ensures
        is_listing(
            sessions@,
            status,
            cutoff,
            opt_view(search),
            limit as nat,
            r@,
        ),
{
    let ghost sv = opt_view(search);
    let query = match &search {
        Some(p) => chars_of(to_lowercase(p.as_str()).as_str()),
        None => Vec::new(),
    };
    let ghost s = sessions@;
    let mut acc: Vec<usize> = Vec::new();
    let mut i: usize = 0;
    while i < sessions.len()
        invariant
            s == sessions@,
            i <= s.len(),
            search matches Some(p) ==> query@ == unicode_lower(p@),
            sv == opt_view(search),
            acc@.len() == listed_count(s, status, cutoff, sv, i as int),
            forall|k: int| 0 <= k < acc@.len() ==> #[trigger] acc@[k] < i && listed(
                s[acc@[k] as int],
                status,
                cutoff,
                sv,
            ),
            forall|a: int, b: int| 0 <= a < b < acc@.len() ==> listed_before(
                s,
                #[trigger] acc@[a] as int,
                #[trigger] acc@[b] as int,
            ),
            forall|j: int|
                0 <= j < i && listed(s[j], status, cutoff, sv) ==> #[trigger] acc@.contains(
                    j as usize,
                ),
        decreases s.len() - i,
    {
        if passes(&sessions[i], status, cutoff, &search, &query) {
            let mut p: usize = 0;
            while p < acc.len() && before_exec(sessions, acc[p], i)
                invariant
                    s == sessions@,
                    i < s.len(),
                    p <= acc@.len(),
                    forall|k: int| 0 <= k < acc@.len() ==> #[trigger] acc@[k] < i,
                    forall|k: int| 0 <= k < p ==> listed_before(s, #[trigger] acc@[k] as int, i as int),
                decreases acc@.len() - p,
            {
                p += 1;
            }
            let ghost a0 = acc@;
            proof {
                assert forall|k: int| p <= k < a0.len() implies listed_before(
                    s,
                    i as int,
                    #[trigger] a0[k] as int,
                ) by {
                    if k == p {
                        lemma_before_total(s, a0[k] as int, i as int);
                    } else {
                        lemma_before_total(s, a0[p as int] as int, i as int);
                        lemma_before_trans(s, i as int, a0[p as int] as int, a0[k] as int);
                    }
                }
            }
            acc.insert(p, i);
            proof {
                a0.insert_ensures(p as int, i);
                assert forall|a: int, b: int| 0 <= a < b < acc@.len() implies listed_before(
                    s,
                    #[trigger] acc@[a] as int,
                    #[trigger] acc@[b] as int,
                ) by {
                    if b < p {
                    } else if a < p && b == p {
                    } else if a < p && b > p {
                        assert(acc@[b] == a0[b - 1]);
                    } else if a == p {
                        assert(acc@[b] == a0[b - 1]);
                    } else {
                        assert(acc@[a] == a0[a - 1]);
                        assert(acc@[b] == a0[b - 1]);
                    }
                }
                assert forall|j: int|
                    0 <= j < i + 1 && listed(s[j], status, cutoff, sv) implies #[trigger] acc@.contains(
                    j as usize,
                ) by {
                    if j == i {
                        assert(acc@[p as int] == i);
                    } else {
                        assert(a0.contains(j as usize));
                        let k = choose|k: int| 0 <= k < a0.len() && a0[k] == j as usize;
                        if k < p {
                            assert(acc@[k] == a0[k]);
                        } else {
                            assert(acc@[k + 1] == a0[k]);
                        }
                    }
                }
            }
        } else {
            proof {
                assert forall|j: int|
                    0 <= j < i + 1 && listed(s[j], status, cutoff, sv) implies #[trigger] acc@.contains(
                    j as usize,
                ) by {}
            }
        }
        i += 1;
    }
    let ghost full = acc@;
    acc.truncate(limit);
    assert(limit <= full.len() ==> acc@ =~= full.take(limit as int));
    proof {
        assert forall|j: int, k: int|
            0 <= j < s.len() && listed(s[j], status, cutoff, sv) && 0 <= k < acc@.len()
                && !acc@.contains(j as usize) implies #[trigger] listed_before(s, acc@[k] as int, j) by {
            assert(full.contains(j as usize));
            let m = choose|m: int| 0 <= m < full.len() && full[m] == j as usize;
            assert(acc@[k] == full[k]);
            if m < acc@.len() {
                assert(acc@[m] == full[m]);
                assert(false);
            }
        }
    }
    acc
}

/// `r` is the id of the latest of the loadable sessions (the first of equally late ones).
pub open spec fn latest_of(sessions: Seq<(String, UtcTime)>, r: Option<String>) -> bool {
    match r {
        None => sessions.len() == 0,
        Some(id) => exists|k: int|
            0 <= k < sessions.len() && sessions[k].0@ == id@ && (forall|j: int|
                0 <= j < sessions.len() ==> !later(#[trigger] sessions[j].1, sessions[k].1)) && (
            forall|j: int| 0 <= j < k ==> later(sessions[k].1, #[trigger] sessions[j].1)),
    }
}

/// The session `--resume` continues: the latest update among the loadable sessions (given
/// as id and update instant), the first one when several are equally late.
pub fn latest_session_id(sessions: &[(String, UtcTime)]) -> (r: Option<String>)
    ensures
        latest_of(sessions@, r),
{
    if sessions.len() == 0 {
        return None;
    }
    let mut best: usize = 0;
    let mut i: usize = 1;
    while i < sessions.len()
        invariant
            1 <= i <= sessions@.len(),
            best < i,
            forall|j: int| 0 <= j < i ==> !later(#[trigger] sessions@[j].1, sessions@[best as int].1),
            forall|j: int| 0 <= j < best ==> later(sessions@[best as int].1, #[trigger] sessions@[j].1),
        decreases sessions@.len() - i,
    {
        if is_later(sessions[i].1, sessions[best].1) {
            proof {
                assert forall|j: int| 0 <= j < i implies later(sessions@[i as int].1, #[trigger] sessions@[j].1) by {
                    assert(!later(sessions@[j].1, sessions@[best as int].1));
                }
            }
            best = i;
        }
        i += 1;
    }
    let id = sessions[best].0.clone();
    assert(latest_of(sessions@, Some(id))) by {
        assert(sessions@[best as int].0@ == id@);
    }
    Some(id)
}

/// Why `--resume` has no session to continue.
#[derive(Clone, Copy, PartialEq, Eq, Debug)]
pub enum ResumeError {
    /// No saved session could be loaded.
    NoSavedSessions,
}

impl ResumeError {
    /// The message the command line reports.
    pub fn message(&self) -> (r: &'static str)
        ensures
            r@ == "no saved sessions found to resume"@,
    {
        "no saved sessions found to resume"
    }
}

/// The session `--resume` continues (see [`latest_of`]), or the error that there is none.
pub fn resume_session_id(sessions: &[(String, UtcTime)]) -> (r: Result<String, ResumeError>)
    ensures
        sessions@.len() == 0 <==> r is Err,
        match r {
            Ok(id) => latest_of(sessions@, Some(id)),
            Err(e) => e == ResumeError::NoSavedSessions,
        },
{
    match latest_session_id(sessions) {
        Some(id) => Ok(id),
        None => Err(ResumeError::NoSavedSessions),
    }
}

/// Where inserting `x` into the first `j` texts of `s` puts it: after every text not
/// greater than it.
pub open spec fn text_pos(s: Seq<Seq<char>>, x: Seq<char>, j: nat) -> nat
    decreases j,
{
    if j == 0 || j > s.len() || !text_lt(x, s[j - 1]) {
        j
    } else {
        text_pos(s, x, (j - 1) as nat)
    }
}

/// The texts in code-point order (as `sort` orders strings).
pub open spec fn sorted_texts(s: Seq<Seq<char>>) -> Seq<Seq<char>>
    decreases s.len(),
{
    if s.len() == 0 {
        seq![]
    } else {
        let t = sorted_texts(s.drop_last());
        t.insert(text_pos(t, s.last(), t.len()) as int, s.last())
    }
}

/// The texts sorted in code-point order (see [`sorted_texts`]), as the ids of unreadable
/// sessions are listed.
pub fn sort_texts(texts: Vec<String>) -> (r: Vec<String>)
    ensures
        crate::wrap::views(r@) == sorted_texts(crate::wrap::views(texts@)),
{
    let ghost a = crate::wrap::views(texts@);
    let mut rest = texts;
    let mut out: Vec<String> = Vec::new();
    let n = rest.len();
    let mut i: usize = 0;
    assert(a.take(0) =~= Seq::<Seq<char>>::empty());
    assert(crate::wrap::views(rest@) =~= a.skip(0));
    while i < n
        invariant
            n == a.len(),
            i <= n,
            crate::wrap::views(rest@) == a.skip(i as int),
            crate::wrap::views(out@) == sorted_texts(a.take(i as int)),
        decreases n - i,
    {
        let ghost r0 = rest@;
        assert(crate::wrap::views(rest@).len() == rest@.len());
        let x = rest.remove(0);
        assert(crate::wrap::views(rest@) =~= crate::wrap::views(r0).skip(1));
        assert(a.skip(i as int).skip(1) =~= a.skip(i + 1));
        assert(crate::wrap::views(rest@) =~= a.skip(i + 1));
        assert(x@ == a[i as int]) by {
            assert(crate::wrap::views(r0)[0] == x@);
        }
        let ghost ov = crate::wrap::views(out@);
        let mut j = out.len();
        while j > 0 && text_less(x.as_str(), out[j - 1].as_str())
            invariant
                j <= out@.len(),
                ov == crate::wrap::views(out@),
                text_pos(ov, x@, ov.len()) == text_pos(ov, x@, j as nat),
            decreases j,
        {
            j -= 1;
        }
        assert(text_pos(ov, x@, j as nat) == j);
        out.insert(j, x);
        assert(crate::wrap::views(out@) =~= ov.insert(j as int, a[i as int]));
        assert(a.take(i + 1).drop_last() =~= a.take(i as int));
        assert(a.take(i + 1).last() == a[i as int]);
        i += 1;
    }
    assert(a.take(n as int) =~= a);
    out
}

proof fn lemma_text_pos(s: Seq<Seq<char>>, x: Seq<char>, j: nat)
    requires
        j <= s.len(),
    ensures
        text_pos(s, x, j) <= j,
        forall|k: int| text_pos(s, x, j) <= k < j ==> text_lt(x, #[trigger] s[k]),
        text_pos(s, x, j) > 0 ==> !text_lt(x, s[text_pos(s, x, j) - 1]),
    decreases j,
{
    if j > 0 && text_lt(x, s[j - 1]) {
        lemma_text_pos(s, x, (j - 1) as nat);
    }
}

proof fn lemma_not_lt_chain(x: Seq<char>, y: Seq<char>, z: Seq<char>)
    requires
        !text_lt(y, x),
        !text_lt(z, y),
    ensures
        !text_lt(z, x),
{
    lemma_text_lt_total(x, y);
    if text_lt(z, x) && text_lt(x, y) {
        lemma_text_lt_trans(z, x, y);
    }
}

/// Sorting texts keeps every text and puts them in code-point order: no text comes after
/// a greater one.
pub proof fn law_sorted_texts_ordered(s: Seq<Seq<char>>)
    ensures
        sorted_texts(s).len() == s.len(),
        forall|a: int, b: int| 0 <= a < b < s.len() ==> !text_lt(sorted_texts(s)[b], sorted_texts(s)[a]),
        forall|k: int| 0 <= k < s.len() ==> s.contains(#[trigger] sorted_texts(s)[k]),
        forall|i: int| 0 <= i < s.len() ==> sorted_texts(s).contains(#[trigger] s[i]),
    decreases s.len(),
{
    if s.len() > 0 {
        let t = s.drop_last();
        law_sorted_texts_ordered(t);
        let o = sorted_texts(t);
        let x = s.last();
        let p = text_pos(o, x, o.len()) as int;
        lemma_text_pos(o, x, o.len());
        let r = sorted_texts(s);
        assert(r == o.insert(p, x));
        assert forall|a: int, b: int| 0 <= a < b < s.len() implies !text_lt(r[b], r[a]) by {
            if b < p {
                assert(r[a] == o[a] && r[b] == o[b]);
            } else if a > p {
                assert(r[a] == o[a - 1] && r[b] == o[b - 1]);
            } else if a < p && b > p {
                assert(r[a] == o[a] && r[b] == o[b - 1]);
            } else if b == p {
                assert(r[a] == o[a] && r[b] == x);
                if a < p - 1 {
                    lemma_not_lt_chain(o[a], o[p - 1], x);
                }
            } else {
                assert(a == p && r[a] == x && r[b] == o[b - 1]);
                lemma_text_lt_asym(x, o[b - 1]);
            }
        }
        assert forall|k: int| 0 <= k < s.len() implies s.contains(#[trigger] r[k]) by {
            if k == p {
                assert(s[s.len() - 1] == x);
            } else {
                let q = if k < p { k } else { k - 1 };
                assert(r[k] == o[q]);
                assert(t.contains(o[q]));
                let w = choose|w: int| 0 <= w < t.len() && t[w] == o[q];
                assert(s[w] == t[w]);
            }
        }
        assert forall|i: int| 0 <= i < s.len() implies r.contains(#[trigger] s[i]) by {
            if i == s.len() - 1 {
                assert(r[p] == x);
            } else {
                assert(s[i] == t[i]);
                assert(o.contains(t[i]));
                let w = choose|w: int| 0 <= w < o.len() && o[w] == t[i];
                if w < p {
                    assert(r[w] == o[w]);
                } else {
                    assert(r[w + 1] == o[w]);
                }
            }
        }
    }
}

/// The line `nca sessions` prints for a session: its id, a tab and its status.
pub open spec fn session_list_line(s: SessionSnapshot) -> Seq<char> {
    s.id@ + "\t"@ + status_name(s.status)
}

/// The line `nca sessions` prints for a session file it could not read.
pub open spec fn unreadable_line(id: Seq<char>) -> Seq<char> {
    id + "\tUnreadable"@
}

/// The lines of `nca sessions`: one per listed session, in the order of `order`, then one
/// per unreadable id in code-point order.
pub open spec fn session_list_text(
    sessions: Seq<SessionSnapshot>,
    order: Seq<usize>,
    unreadable: Seq<Seq<char>>,
) -> Seq<Seq<char>> {
    Seq::new(order.len(), |k: int| session_list_line(sessions[order[k] as int])) + sorted_texts(
        unreadable,
    ).map_values(|id: Seq<char>| unreadable_line(id))
}

/// The lines of `nca sessions` for the listing positions `order` (see
/// [`session_list_text`]).
pub fn session_list_lines_for(sessions: &[SessionSnapshot], order: &[usize], unreadable: Vec<String>) -> (r: Vec<
    String,
>)
    requires
        forall|k: int| 0 <= k < order@.len() ==> #[trigger] order@[k] < sessions@.len(),
    ensures
        views(r@) == session_list_text(sessions@, order@, views(unreadable@)),
{
    let ghost head = Seq::new(order@.len(), |k: int| session_list_line(sessions@[order@[k] as int]));
    let mut out: Vec<String> = Vec::new();
    let mut k: usize = 0;
    while k < order.len()
        invariant
            k <= order@.len(),
            forall|j: int| 0 <= j < order@.len() ==> #[trigger] order@[j] < sessions@.len(),
            head == Seq::new(order@.len(), |k: int| session_list_line(sessions@[order@[k] as int])),
            views(out@) == head.take(k as int),
        decreases order@.len() - k,
    {
        let s = &sessions[order[k]];
        let line = cat2(&cat2(s.id.as_str(), "\t"), status_label(s.status));
        let ghost o = views(out@);
        out.push(line);
        assert(views(out@) =~= o.push(line@));
        assert(head.take(k + 1) =~= head.take(k as int).push(head[k as int]));
        k = k + 1;
    }
    assert(head.take(order@.len() as int) =~= head);
    let sorted = sort_texts(unreadable);
    let ghost tail = views(sorted@).map_values(|id: Seq<char>| unreadable_line(id));
    let ghost base = views(out@);
    let mut i: usize = 0;
    while i < sorted.len()
        invariant
            i <= sorted@.len(),
            base == head,
            tail == views(sorted@).map_values(|id: Seq<char>| unreadable_line(id)),
            views(out@) == base + tail.take(i as int),
        decreases sorted@.len() - i,
    {
        let line = cat2(sorted[i].as_str(), "\tUnreadable");
        let ghost o = views(out@);
        out.push(line);
        assert(views(out@) =~= o.push(line@));
        assert(tail.take(i + 1) =~= tail.take(i as int).push(tail[i as int]));
        i = i + 1;
    }
    assert(tail.take(sorted@.len() as int) =~= tail);
    out
}

/// What `nca sessions` prints without `--json`: the sessions that pass the filters, newest
/// first, at most `limit` (see [`is_listing`]), one `id<TAB>Status` line each, then the
/// unreadable ids in code-point order, one `id<TAB>Unreadable` line each.
pub fn session_list_lines(
    sessions: &[SessionSnapshot],
    status: Option<SessionStatusFilter>,
    cutoff: Option<UtcTime>,
    search: Option<String>,
    limit: usize,
    unreadable: Vec<String>,
) -> (r: Vec<String>)
    ensures
        exists|order: Seq<usize>|
            is_listing(sessions@, status, cutoff, opt_view(search), limit as nat, order) && views(r@)
                == session_list_text(sessions@, order, views(unreadable@)),
{
    let ghost sv = opt_view(search);
    let order = session_listing(sessions, status, cutoff, search, limit);
    let r = session_list_lines_for(sessions, &order, unreadable);
    assert(is_listing(sessions@, status, cutoff, sv, limit as nat, order@));
    r
}

} // verus!
