//! The lines the branch and session pickers draw.

use crate::branch::{branch_window, filtered_branch_indices, matching_branches, BranchPickerState, BRANCH_PICKER_MAX_ROWS};
use crate::searchable_list::{adjusted_scroll, min, sat_sub};
use crate::session_picker::{matching_sessions, row_label, SessionPickerState, SESSION_PICKER_MAX_ROWS};
use crate::session::dec;
use crate::styled::{cat2, count_line, push_empty, push_muted, push_styled, styled_view};
use crate::transcript_view::{spans_view, Tone};
use crate::wrap::views;
use vstd::prelude::*;
use vstd::string::StringSliceAdditionalSpecFns;

verus! {

/// The line of a branch: its name, ` *` for the current branch, highlighted when selected.
pub open spec fn branch_row(name: Seq<char>, selected: bool, current: Seq<char>) -> Seq<(Tone, Seq<char>)> {
    seq![
        (
            if selected { Tone::Selected } else { Tone::Text },
            " "@ + name + if name == current { " *"@ } else { Seq::empty() },
        ),
    ]
}

/// The lines of filtered positions `from..to`.
pub open spec fn branch_rows(
    branches: Seq<Seq<char>>,
    filtered: Seq<int>,
    index: nat,
    current: Seq<char>,
    from: nat,
    to: nat,
) -> Seq<Seq<(Tone, Seq<char>)>>
    decreases to,
{
    if to <= from {
        seq![]
    } else {
        branch_rows(branches, filtered, index, current, from, (to - 1) as nat).push(
            branch_row(branches[filtered[to - 1]], index == to - 1, current),
        )
    }
}

/// The branch picker's lines: the query, the branches in its window (or how to create
/// one when none matches), and the key hints.
pub open spec fn branch_picker_lines(s: BranchPickerState) -> Seq<Seq<(Tone, Seq<char>)>> {
    let bv = views(s.branches@);
    let f = matching_branches(bv, s.query@);
    let (scroll, n_show) = branch_window(s.index as nat, f.len());
    seq![
        seq![
            (Tone::MutedBold, " Branch "@),
            (Tone::Text, if s.query@.len() == 0 { Seq::empty() } else { ": "@ + s.query@ }),
        ],
        seq![],
    ] + if f.len() == 0 {
        seq![seq![(Tone::Muted, "  (no branches — type a name to create)"@)]]
    } else {
        branch_rows(bv, f, s.index as nat, s.current_branch@, scroll, scroll + n_show)
    } + seq![seq![], seq![(Tone::Muted, " Enter switch  /name new  Esc close"@)]]
}

/// Height of the branch picker popup: its rows plus six, at least eight.
pub open spec fn branch_popup_height(n: nat) -> nat {
    let rows = min(n as int, BRANCH_PICKER_MAX_ROWS as int);
    if rows + 6 >= 8 {
        (rows + 6) as nat
    } else {
        8
    }
}

/// The line of a session: its label, highlighted when selected.
pub open spec fn session_row(label: Seq<char>, selected: bool) -> Seq<(Tone, Seq<char>)> {
    seq![(if selected { Tone::Selected } else { Tone::Text }, label)]
}

/// The lines of matching positions `from..to`.
pub open spec fn session_rows(s: SessionPickerState, m: Seq<int>, pick: int, from: nat, to: nat) -> Seq<
    Seq<(Tone, Seq<char>)>,
>
    decreases to,
{
    if to <= from {
        seq![]
    } else {
        session_rows(s, m, pick, from, (to - 1) as nat).push(
            session_row(row_label(s.entries@[m[to - 1]], s.current_session_id@), pick == to - 1),
        )
    }
}

/// The session picker's lines for a scroll offset: the search, the sessions on screen
/// with counts of those above and below (or a note that none match), and the key hints.
pub open spec fn session_picker_lines(s: SessionPickerState, scroll: nat) -> Seq<Seq<(Tone, Seq<char>)>> {
    let m = matching_sessions(s.entries@, s.search@);
    let n = m.len();
    let pick = min(s.index as int, sat_sub(n as int, 1) as int);
    let end = min(scroll + min(n as int, SESSION_PICKER_MAX_ROWS as int), n as int) as nat;
    let search_text = if s.search@.len() == 0 { "type to filter"@ } else { s.search@ };
    seq![seq![(Tone::MutedBold, " Search "@), (Tone::Text, search_text)], seq![]] + if n == 0 {
        seq![seq![(Tone::Muted, " No matching sessions"@)]]
    } else {
        (if scroll > 0 {
            seq![seq![(Tone::Muted, "  ▲ "@ + dec(scroll) + " more"@)]]
        } else {
            seq![]
        }) + session_rows(s, m, pick, scroll, end) + if n > end {
            seq![seq![(Tone::Muted, "  ▼ "@ + dec((n - end) as nat) + " more"@)]]
        } else {
            seq![]
        }
    } + seq![seq![], seq![(Tone::Muted, " Enter resume · Esc close "@)]]
}

/// Height of the session picker popup: its rows plus eight, at least ten.
pub open spec fn session_popup_height(n: nat) -> nat {
    let rows = min(n as int, SESSION_PICKER_MAX_ROWS as int);
    if rows + 8 >= 10 {
        (rows + 8) as nat
    } else {
        10
    }
}

impl BranchPickerState {
    /// The popup's lines and height (see [`branch_picker_lines`] and
    /// [`branch_popup_height`]).
    pub fn view_lines(&self) -> (r: (Vec<Vec<(Tone, String)>>, u16))
        ensures
            styled_view(r.0@) == branch_picker_lines(*self),
            r.1 as nat == branch_popup_height(matching_branches(views(self.branches@), self.query@).len()),
    {
        let filtered = filtered_branch_indices(&self.branches, self.query.as_str());
        let ghost fv = filtered@.map_values(|i: usize| i as int);
        let ghost bv = views(self.branches@);
        let n = filtered.len();
        assert(fv.len() == n);
        let (scroll, n_show) = self.visible_window();
        let height: u16 = if n >= 2 {
            if n < BRANCH_PICKER_MAX_ROWS {
                (n + 6) as u16
            } else {
                (BRANCH_PICKER_MAX_ROWS + 6) as u16
            }
        } else {
            8
        };
        let mut out: Vec<Vec<(Tone, String)>> = Vec::new();
        let q = if self.query.as_str().unicode_len() == 0 {
            String::new()
        } else {
            cat2(": ", self.query.as_str())
        };
        let ghost qv = q@;
        let first = vec![(Tone::MutedBold, " Branch ".to_owned()), (Tone::Text, q)];
        assert(spans_view(first@) =~= seq![(Tone::MutedBold, " Branch "@), (Tone::Text, qv)]);
        push_styled(&mut out, first);
        push_empty(&mut out);
        if n == 0 {
            push_muted(&mut out, "  (no branches — type a name to create)".to_owned());
        } else {
            let ghost mid = styled_view(out@);
            let mut k = scroll;
            while k < scroll + n_show
                invariant
                    scroll <= k <= scroll + n_show <= n,
                    n == filtered@.len(),
                    fv == filtered@.map_values(|i: usize| i as int),
                    bv == views(self.branches@),
                    forall|j: int| 0 <= j < filtered@.len() ==> filtered@[j] < self.branches@.len(),
                    styled_view(out@) == mid + branch_rows(bv, fv, self.index as nat, self.current_branch@, scroll as nat, k as nat),
                decreases scroll + n_show - k,
            {
                let name = &self.branches[filtered[k]];
                assert(fv[k as int] == filtered@[k as int] as int);
                assert(bv[fv[k as int]] == name@);
                let mut label = cat2(" ", name.as_str());
                if *name == self.current_branch {
                    label.append(" *");
                }
                let tone = if k == self.index {
                    Tone::Selected
                } else {
                    Tone::Text
                };
                let l = vec![(tone, label)];
                assert(spans_view(l@) =~= branch_row(name@, self.index as nat == k as nat, self.current_branch@));
                push_styled(&mut out, l);
                k += 1;
            }
        }
        push_empty(&mut out);
        push_muted(&mut out, " Enter switch  /name new  Esc close".to_owned());
        assert(styled_view(out@) =~= branch_picker_lines(*self));
        (out, height)
    }
}

impl SessionPickerState {
    /// Bring the selection into view (as [`SessionPickerState::visible_rows`] does) and give
    /// the popup's lines and height (see [`session_picker_lines`] and
    /// [`session_popup_height`]).
    pub fn view_lines(&mut self) -> (r: (Vec<Vec<(Tone, String)>>, u16))
        ensures
            final(self).entries == old(self).entries,
            final(self).search == old(self).search,
            final(self).index == old(self).index,
            final(self).current_session_id == old(self).current_session_id,
            final(self).scroll == adjusted_scroll(
                min(old(self).index as int, sat_sub(matching_sessions(old(self).entries@, old(self).search@).len() as int, 1) as int) as nat,
                old(self).scroll as nat,
                SESSION_PICKER_MAX_ROWS as nat,
                matching_sessions(old(self).entries@, old(self).search@).len(),
            ),
            styled_view(r.0@) == session_picker_lines(*final(self), final(self).scroll as nat),
            r.1 as nat == session_popup_height(matching_sessions(old(self).entries@, old(self).search@).len()),
    {
        let rows = self.visible_rows();
        let ghost mv = rows.matches@.map_values(|i: usize| i as int);
        let n = rows.matches.len();
        assert(mv.len() == n);
        let height: u16 = if n >= 2 {
            if n < SESSION_PICKER_MAX_ROWS {
                (n + 8) as u16
            } else {
                (SESSION_PICKER_MAX_ROWS + 8) as u16
            }
        } else {
            10
        };
        let mut out: Vec<Vec<(Tone, String)>> = Vec::new();
        let search_text = if self.search.as_str().unicode_len() == 0 {
            "type to filter".to_owned()
        } else {
            self.search.clone()
        };
        let ghost st = search_text@;
        let first = vec![(Tone::MutedBold, " Search ".to_owned()), (Tone::Text, search_text)];
        assert(spans_view(first@) =~= seq![(Tone::MutedBold, " Search "@), (Tone::Text, st)]);
        push_styled(&mut out, first);
        push_empty(&mut out);
        if n == 0 {
            push_muted(&mut out, " No matching sessions".to_owned());
        } else {
            if rows.start > 0 {
                push_styled(&mut out, count_line("  ▲ ", rows.start));
            }
            let ghost mid = styled_view(out@);
            let mut k = rows.start;
            while k < rows.end
                invariant
                    rows.start <= k <= rows.end <= n,
                    n == rows.matches@.len(),
                    mv == rows.matches@.map_values(|i: usize| i as int),
                    mv == matching_sessions(self.entries@, self.search@),
                    forall|j: int| 0 <= j < rows.matches@.len() ==> rows.matches@[j] < self.entries@.len(),
                    styled_view(out@) == mid + session_rows(*self, mv, rows.pick as int, rows.start as nat, k as nat),
                decreases rows.end - k,
            {
                assert(mv[k as int] == rows.matches@[k as int] as int);
                let label = self.row_text(rows.matches[k]);
                let tone = if k == rows.pick {
                    Tone::Selected
                } else {
                    Tone::Text
                };
                let l = vec![(tone, label)];
                assert(spans_view(l@) =~= session_row(
                    row_label(self.entries@[mv[k as int]], self.current_session_id@),
                    rows.pick as int == k as int,
                ));
                push_styled(&mut out, l);
                k += 1;
            }
            if n > rows.end {
                push_styled(&mut out, count_line("  ▼ ", n - rows.end));
            }
        }
        push_empty(&mut out);
        push_muted(&mut out, " Enter resume · Esc close ".to_owned());
        assert(styled_view(out@) =~= session_picker_lines(*self, self.scroll as nat));
        (out, height)
    }
}

} // verus!
