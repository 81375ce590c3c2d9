//! The model picker popup: provider headers and models, filtered by a typed search.

use crate::keys::{is_typing, KeyCode, KeyEvent, MOD_NONE, MOD_SHIFT};
use crate::provider::ProviderKind;
use crate::searchable_list::{min, sat_sub};
use crate::session::dec;
use crate::styled::{cat2, count_line, push_empty, push_muted, push_styled, styled_view};
use crate::transcript_view::{spans_view, Tone};
use crate::text::{
    chars_of, clear_string, contains_seq, contains_vec, lower, lower_vec, pop_char, push_char,
};
use vstd::prelude::*;
use vstd::string::StringSliceAdditionalSpecFns;

verus! {

/// Rows the model picker lists before it scrolls.
pub const MODEL_PICKER_MAX_ROWS: usize = 18;

/// What picking an entry does.
#[derive(Clone, PartialEq, Eq, Debug)]
pub enum ModelPickerAction {
    SwitchProvider(ProviderKind),
    ApplyModel(String),
}

/// One row of the model picker: a provider header or a model.
#[derive(Clone, Debug)]
pub struct ModelPickerEntry {
    pub label: String,
    pub detail: String,
    pub action: ModelPickerAction,
    pub is_header: bool,
}

/// Model picker popup state.
pub struct ModelPickerState {
    pub search: String,
    pub index: usize,
    pub scroll: usize,
    pub entries: Vec<ModelPickerEntry>,
}

/// Action of the model picker.
#[derive(Clone, PartialEq, Eq, Debug)]
pub enum ModelPickerPopupAction {
    NoOp,
    Close,
    ApplyModel(String),
    SwitchProvider(ProviderKind),
}

/// An entry matches the lower-cased filter `f` when `f` is empty or occurs in its
/// lower-cased label or detail.
pub open spec fn entry_matches(e: ModelPickerEntry, f: Seq<char>) -> bool {
    f.len() == 0 || contains_seq(lower(e.label@), f) || contains_seq(lower(e.detail@), f)
}

/// Indices among the first `n` entries of the models (not headers) that match `f`.
pub open spec fn selectable_prefix(entries: Seq<ModelPickerEntry>, f: Seq<char>, n: nat) -> Seq<int>
    decreases n,
{
    if n == 0 {
        seq![]
    } else {
        let prev = selectable_prefix(entries, f, (n - 1) as nat);
        let e = entries[n - 1];
        if !e.is_header && entry_matches(e, f) {
            prev.push(n - 1)
        } else {
            prev
        }
    }
}

/// Indices of the selectable entries for search text `search`, in list order.
pub open spec fn selectable(entries: Seq<ModelPickerEntry>, search: Seq<char>) -> Seq<int> {
    selectable_prefix(entries, lower(search), entries.len())
}

/// The popup action of picking an entry.
pub open spec fn action_of(a: ModelPickerAction) -> ModelPickerPopupAction {
    match a {
        ModelPickerAction::SwitchProvider(p) => ModelPickerPopupAction::SwitchProvider(p),
        ModelPickerAction::ApplyModel(m) => ModelPickerPopupAction::ApplyModel(m),
    }
}

/// What Enter picks: the selected model (the last one when the selection is past the end).
pub open spec fn enter_action(entries: Seq<ModelPickerEntry>, search: Seq<char>, index: nat) -> Option<
    ModelPickerAction,
> {
    let sel = selectable(entries, search);
    let pick = min(index as int, sat_sub(sel.len() as int, 1) as int);
    if pick < sel.len() {
        Some(entries[sel[pick]].action)
    } else {
        None
    }
}

/// The two actions agree, the model names by their characters.
pub open spec fn same_action(r: ModelPickerPopupAction, a: ModelPickerAction) -> bool {
    match (r, a) {
        (ModelPickerPopupAction::SwitchProvider(p), ModelPickerAction::SwitchProvider(q)) => p == q,
        (ModelPickerPopupAction::ApplyModel(m), ModelPickerAction::ApplyModel(n)) => m@ == n@,
        _ => false,
    }
}

/// Indices among the first `n` entries that the picker shows for the lower-cased filter
/// `f`: every header and the models that match.
pub open spec fn shown_prefix(entries: Seq<ModelPickerEntry>, f: Seq<char>, n: nat) -> Seq<int>
    decreases n,
{
    if n == 0 {
        seq![]
    } else {
        let prev = shown_prefix(entries, f, (n - 1) as nat);
        let e = entries[n - 1];
        if e.is_header || entry_matches(e, f) {
            prev.push(n - 1)
        } else {
            prev
        }
    }
}

/// Indices of the entries shown for `search`, in list order.
pub open spec fn shown(entries: Seq<ModelPickerEntry>, search: Seq<char>) -> Seq<int> {
    shown_prefix(entries, lower(search), entries.len())
}

/// Positions among the first `n` shown rows that hold a model (not a header).
pub open spec fn model_rows(entries: Seq<ModelPickerEntry>, vis: Seq<int>, n: nat) -> Seq<int>
    decreases n,
{
    if n == 0 {
        seq![]
    } else {
        let prev = model_rows(entries, vis, (n - 1) as nat);
        if !entries[vis[n - 1]].is_header {
            prev.push(n - 1)
        } else {
            prev
        }
    }
}

/// The shown row that is highlighted: the `index`-th model row (the last when past the
/// end), the first row when there is none.
pub open spec fn highlighted_row(entries: Seq<ModelPickerEntry>, search: Seq<char>, index: nat) -> int {
    let vis = shown(entries, search);
    let rows = model_rows(entries, vis, vis.len());
    if rows.len() > 0 {
        rows[min(index as int, rows.len() - 1)]
    } else {
        0
    }
}

/// Rows of the model list on screen for `n` shown rows.
pub open spec fn model_viewport(n: nat) -> nat {
    min(n as int, MODEL_PICKER_MAX_ROWS as int) as nat
}

/// The first shown row on screen: the stored scroll moved just enough to show the
/// highlighted row, then kept within the list.
pub open spec fn model_scroll(scroll: nat, sel: int, n: nat) -> nat {
    let vp = model_viewport(n);
    let s: int = if sel < scroll {
        sel
    } else if vp > 0 && sel >= scroll + vp {
        sat_sub(sel, vp - 1) as int
    } else {
        scroll as int
    };
    min(s, sat_sub(n as int, vp as int) as int) as nat
}

/// Height of the model picker popup: the list rows plus seven, at least ten.
pub open spec fn model_popup_height(n: nat) -> nat {
    if model_viewport(n) + 7 >= 10 {
        model_viewport(n) + 7
    } else {
        10
    }
}

/// The line of shown row `vi` (entry `e`): a header in heading tone, a model as label and
/// detail, highlighted when selected.
pub open spec fn model_row_line(e: ModelPickerEntry, selected: bool) -> Seq<(Tone, Seq<char>)> {
    if e.is_header {
        seq![(Tone::Heading, " "@ + e.label@)]
    } else if selected {
        seq![(Tone::Selected, "   "@ + e.label@), (Tone::Selected, "  "@ + e.detail@)]
    } else {
        seq![(Tone::Text, "   "@ + e.label@), (Tone::Muted, "  "@ + e.detail@)]
    }
}

/// The lines of shown rows `from..to`.
pub open spec fn model_row_lines(
    entries: Seq<ModelPickerEntry>,
    vis: Seq<int>,
    sel: int,
    from: nat,
    to: nat,
) -> Seq<Seq<(Tone, Seq<char>)>>
    decreases to,
{
    if to <= from {
        seq![]
    } else {
        model_row_lines(entries, vis, sel, from, (to - 1) as nat).push(
            model_row_line(entries[vis[to - 1]], sel == to - 1),
        )
    }
}

/// The popup's lines: the search line, then the rows on screen with counts of the rows
/// above and below them (or a note that nothing matches), then the key hints.
pub open spec fn model_picker_lines(s: ModelPickerState) -> Seq<Seq<(Tone, Seq<char>)>> {
    let vis = shown(s.entries@, s.search@);
    let n = vis.len();
    let sel = highlighted_row(s.entries@, s.search@, s.index as nat);
    let start = model_scroll(s.scroll as nat, sel, n);
    let end = min((start + model_viewport(n)) as int, n as int) as nat;
    let search_text = if s.search@.len() == 0 { "type to filter…"@ } else { s.search@ };
    seq![seq![(Tone::MutedBold, "Search "@), (Tone::Text, search_text)], seq![]] + if n == 0 {
        seq![seq![(Tone::Muted, " No models match"@)]]
    } else {
        (if start > 0 {
            seq![seq![(Tone::Muted, "  ▲ "@ + dec(start) + " more"@)]]
        } else {
            seq![]
        }) + model_row_lines(s.entries@, vis, sel, start, end) + if n > end {
            seq![seq![(Tone::Muted, "  ▼ "@ + dec((n - end) as nat) + " more"@)]]
        } else {
            seq![]
        }
    } + seq![seq![], seq![(Tone::Muted, " ↑↓ select · Enter apply · Esc close "@)]]
}


/// Whether an entry matches the lower-cased filter.
fn entry_matches_exec(e: &ModelPickerEntry, f: &[char]) -> (b: bool)
    ensures
        b == entry_matches(*e, f@),
{
    if f.len() == 0 {
        return true;
    }
    let label = lower_vec(&chars_of(e.label.as_str()));
    if contains_vec(&label, f) {
        return true;
    }
    let detail = lower_vec(&chars_of(e.detail.as_str()));
    contains_vec(&detail, f)
}

/// Indices of the selectable entries for `search`.
pub fn selectable_indices(entries: &[ModelPickerEntry], search: &str) -> (r: Vec<usize>)
    ensures
        r@.map_values(|i: usize| i as int) == selectable(entries@, search@),
        forall|k: int| 0 <= k < r@.len() ==> r@[k] < entries@.len(),
{
    let f = lower_vec(&chars_of(search));
    let mut r: Vec<usize> = Vec::new();
    let mut i: usize = 0;
    while i < entries.len()
        invariant
            i <= entries@.len(),
            f@ == lower(search@),
            r@.map_values(|k: usize| k as int) == selectable_prefix(entries@, f@, i as nat),
            forall|k: int| 0 <= k < r@.len() ==> r@[k] < i,
        decreases entries@.len() - i,
    {
        let ghost r0 = r@;
        if !entries[i].is_header && entry_matches_exec(&entries[i], &f) {
            r.push(i);
            assert(r@.map_values(|k: usize| k as int) =~= r0.map_values(|k: usize| k as int).push(
                i as int,
            ));
        }
        i += 1;
    }
    r
}

impl ModelPickerState {
    /// An empty picker.
    pub fn new() -> (r: Self)
        ensures
            r.search@ == Seq::<char>::empty(),
            r.index == 0,
            r.scroll == 0,
            r.entries@.len() == 0,
    {
        ModelPickerState { search: String::new(), index: 0, scroll: 0, entries: Vec::new() }
    }

    /// Show `entries` with an empty search and the first model selected.
    pub fn open(&mut self, entries: Vec<ModelPickerEntry>)
        ensures
            final(self).entries == entries,
            final(self).search@ == Seq::<char>::empty(),
            final(self).index == 0,
            final(self).scroll == 0,
    {
        self.entries = entries;
        clear_string(&mut self.search);
        self.index = 0;
        self.scroll = 0;
    }

    /// Forget the entries and the search.
    pub fn close(&mut self)
        ensures
            final(self).entries@.len() == 0,
            final(self).search@ == Seq::<char>::empty(),
            final(self).index == 0,
            final(self).scroll == 0,
    {
        self.entries.clear();
        clear_string(&mut self.search);
        self.index = 0;
        self.scroll = 0;
    }

    /// A mounted picker is open.
    pub fn is_open(&self) -> (r: bool)
        ensures
            r,
    {
        true
    }

    /// Number of models that match the search.
    pub fn selectable_count(&self) -> (n: usize)
        ensures
            n == selectable(self.entries@, self.search@).len(),
    {
        selectable_indices(&self.entries, self.search.as_str()).len()
    }

    /// Handle a key: Esc closes, arrows move among the matching models, Enter picks,
    /// Backspace and typed characters edit the search and reset the selection.
    pub fn handle_key(&mut self, key: KeyEvent) -> (r: ModelPickerPopupAction)
        ensures
            model_picker_key_step(*old(self), *final(self), key, r),
    {
        let sel = selectable_indices(&self.entries, self.search.as_str());
        let n = sel.len();
        match key.code {
            KeyCode::Esc => ModelPickerPopupAction::Close,
            KeyCode::Up => {
                if n > 0 {
                    let up = if self.index > 0 {
                        self.index - 1
                    } else {
                        0
                    };
                    self.index = if up < n - 1 {
                        up
                    } else {
                        n - 1
                    };
                }
                ModelPickerPopupAction::NoOp
            },
            KeyCode::Down => {
                if n > 0 {
                    self.index = if self.index < n - 1 {
                        self.index + 1
                    } else {
                        n - 1
                    };
                }
                ModelPickerPopupAction::NoOp
            },
            KeyCode::Enter => {
                let last = if n > 0 {
                    n - 1
                } else {
                    0
                };
                let pick = if self.index < last {
                    self.index
                } else {
                    last
                };
                if pick < n {
                    let idx = sel[pick];
                    proof {
                        assert(sel@.map_values(|i: usize| i as int)[pick as int] == idx as int);
                    }
                    match &self.entries[idx].action {
                        ModelPickerAction::SwitchProvider(p) => ModelPickerPopupAction::SwitchProvider(
                            *p,
                        ),
                        ModelPickerAction::ApplyModel(m) => ModelPickerPopupAction::ApplyModel(
                            m.clone(),
                        ),
                    }
                } else {
                    ModelPickerPopupAction::NoOp
                }
            },
            KeyCode::Backspace => {
                let _ = pop_char(&mut self.search);
                self.index = 0;
                self.scroll = 0;
                ModelPickerPopupAction::NoOp
            },
            KeyCode::Char(c) => {
                if key.modifiers == MOD_NONE || key.modifiers == MOD_SHIFT {
                    push_char(&mut self.search, c);
                    self.index = 0;
                    self.scroll = 0;
                }
                ModelPickerPopupAction::NoOp
            },
            _ => ModelPickerPopupAction::NoOp,
        }
    }
}

/// One key press of [`ModelPickerState::handle_key`]: the state goes from `s0` to `s1` and the
/// action is `r`.
pub open spec fn model_picker_key_step(
    s0: ModelPickerState,
    s1: ModelPickerState,
    key: KeyEvent,
    r: ModelPickerPopupAction,
) -> bool {
    &&& s1.entries == s0.entries
    &&& ({
            let n = selectable(s0.entries@, s0.search@).len();
            let unchanged = s1.search == s0.search && s1.index == s0.index && s1.scroll == s0.scroll;
            match key.code {
                KeyCode::Esc => r == ModelPickerPopupAction::Close && unchanged,
                KeyCode::Up => r == ModelPickerPopupAction::NoOp && s1.search == s0.search && s1.scroll == s0.scroll && s1.index == (
                if n > 0 {
                    min(sat_sub(s0.index as int, 1) as int, n - 1)
                } else {
                    s0.index as int
                }),
                KeyCode::Down => r == ModelPickerPopupAction::NoOp && s1.search
                    == s0.search && s1.scroll == s0.scroll && s1.index == (if n > 0 {
                    min(s0.index + 1, n - 1)
                } else {
                    s0.index as int
                }),
                KeyCode::Enter => unchanged && match enter_action(
                    s0.entries@,
                    s0.search@,
                    s0.index as nat,
                ) {
                    Some(a) => same_action(r, a),
                    None => r == ModelPickerPopupAction::NoOp,
                },
                KeyCode::Backspace => r == ModelPickerPopupAction::NoOp && s1.search@
                    == (if s0.search@.len() > 0 {
                    s0.search@.drop_last()
                } else {
                    s0.search@
                }) && s1.index == 0 && s1.scroll == 0,
                KeyCode::Char(c) => r == ModelPickerPopupAction::NoOp && if is_typing(key) {
                    s1.search@ == s0.search@.push(c) && s1.index == 0
                        && s1.scroll == 0
                } else {
                    unchanged
                },
                _ => r == ModelPickerPopupAction::NoOp && unchanged,
            }
        })
}

/// Indices of the entries shown for `search` (see [`shown`]).
fn shown_indices(entries: &[ModelPickerEntry], search: &str) -> (r: Vec<usize>)
    ensures
        r@.map_values(|i: usize| i as int) == shown(entries@, search@),
        forall|k: int| 0 <= k < r@.len() ==> r@[k] < entries@.len(),
{
    let f = lower_vec(&chars_of(search));
    let mut r: Vec<usize> = Vec::new();
    let mut i: usize = 0;
    while i < entries.len()
        invariant
            i <= entries@.len(),
            f@ == lower(search@),
            r@.map_values(|k: usize| k as int) == shown_prefix(entries@, f@, i as nat),
            forall|k: int| 0 <= k < r@.len() ==> r@[k] < i,
        decreases entries@.len() - i,
    {
        let ghost r0 = r@;
        if entries[i].is_header || entry_matches_exec(&entries[i], &f) {
            r.push(i);
            assert(r@.map_values(|k: usize| k as int) =~= r0.map_values(|k: usize| k as int).push(
                i as int,
            ));
        }
        i += 1;
    }
    r
}

/// Positions of the shown rows that hold a model (see [`model_rows`]).
fn model_row_positions(entries: &[ModelPickerEntry], vis: &Vec<usize>) -> (r: Vec<usize>)
    requires
        forall|k: int| 0 <= k < vis@.len() ==> vis@[k] < entries@.len(),
    ensures
        r@.map_values(|i: usize| i as int) == model_rows(
            entries@,
            vis@.map_values(|i: usize| i as int),
            vis@.len() as nat,
        ),
        forall|k: int| 0 <= k < r@.len() ==> r@[k] < vis@.len(),
{
    let ghost vv = vis@.map_values(|i: usize| i as int);
    let mut r: Vec<usize> = Vec::new();
    let mut i: usize = 0;
    while i < vis.len()
        invariant
            i <= vis@.len(),
            vv == vis@.map_values(|i: usize| i as int),
            forall|k: int| 0 <= k < vis@.len() ==> vis@[k] < entries@.len(),
            r@.map_values(|k: usize| k as int) == model_rows(entries@, vv, i as nat),
            forall|k: int| 0 <= k < r@.len() ==> r@[k] < i,
        decreases vis@.len() - i,
    {
        let ghost r0 = r@;
        assert(vv[i as int] == vis@[i as int] as int);
        if !entries[vis[i]].is_header {
            r.push(i);
            assert(r@.map_values(|k: usize| k as int) =~= r0.map_values(|k: usize| k as int).push(
                i as int,
            ));
        }
        i += 1;
    }
    r
}

/// The first and one-past-last shown rows on screen.
fn model_window(scroll: usize, sel: usize, n: usize) -> (r: (usize, usize))
    ensures
        r.0 as nat == model_scroll(scroll as nat, sel as int, n as nat),
        r.1 as int == min(r.0 + model_viewport(n as nat), n as int),
        r.0 <= r.1 <= n || n == 0,
{
    let vp: usize = if n < MODEL_PICKER_MAX_ROWS {
        n
    } else {
        MODEL_PICKER_MAX_ROWS
    };
    let mut start: usize = if sel < scroll {
        sel
    } else if vp > 0 && sel - scroll >= vp {
        sel - (vp - 1)
    } else {
        scroll
    };
    if start > n - vp {
        start = n - vp;
    }
    let end: usize = if start + vp < n {
        start + vp
    } else {
        n
    };
    (start, end)
}

fn push_model_rows(
    out: &mut Vec<Vec<(Tone, String)>>,
    entries: &[ModelPickerEntry],
    vis: &Vec<usize>,
    sel: usize,
    start: usize,
    end: usize,
)
    requires
        start <= end <= vis@.len(),
        forall|k: int| 0 <= k < vis@.len() ==> vis@[k] < entries@.len(),
    ensures
        styled_view(final(out)@) == styled_view(old(out)@) + model_row_lines(
            entries@,
            vis@.map_values(|i: usize| i as int),
            sel as int,
            start as nat,
            end as nat,
        ),
{
    let ghost vv = vis@.map_values(|i: usize| i as int);
    let ghost mid = styled_view(out@);
    let mut vi = start;
    while vi < end
        invariant
            start <= vi <= end <= vis@.len(),
            vv == vis@.map_values(|i: usize| i as int),
            forall|k: int| 0 <= k < vis@.len() ==> vis@[k] < entries@.len(),
            styled_view(out@) == mid + model_row_lines(entries@, vv, sel as int, start as nat, vi as nat),
        decreases end - vi,
    {
        let e = &entries[vis[vi]];
        assert(vv[vi as int] == vis@[vi as int] as int);
        let l: Vec<(Tone, String)> = if e.is_header {
            vec![(Tone::Heading, cat2(" ", e.label.as_str()))]
        } else if sel == vi {
            vec![(Tone::Selected, cat2("   ", e.label.as_str())), (Tone::Selected, cat2("  ", e.detail.as_str()))]
        } else {
            vec![(Tone::Text, cat2("   ", e.label.as_str())), (Tone::Muted, cat2("  ", e.detail.as_str()))]
        };
        assert(spans_view(l@) =~= model_row_line(*e, sel as int == vi as int));
        push_styled(out, l);
        assert(styled_view(out@) =~= mid + model_row_lines(entries@, vv, sel as int, start as nat, (vi + 1) as nat));
        vi += 1;
    }
}

impl ModelPickerState {
    /// The shown rows and the highlighted one (see [`shown`] and [`highlighted_row`]).
    fn shown_and_highlighted(&self) -> (r: (Vec<usize>, usize))
        ensures
            r.0@.map_values(|i: usize| i as int) == shown(self.entries@, self.search@),
            forall|k: int| 0 <= k < r.0@.len() ==> r.0@[k] < self.entries@.len(),
            r.1 as int == highlighted_row(self.entries@, self.search@, self.index as nat),
    {
        let vis = shown_indices(&self.entries, self.search.as_str());
        let rows = model_row_positions(&self.entries, &vis);
        let ghost rv = rows@.map_values(|i: usize| i as int);
        let sel: usize = if rows.len() > 0 {
            let pick = if self.index < rows.len() - 1 {
                self.index
            } else {
                rows.len() - 1
            };
            assert(rv[pick as int] == rows@[pick as int] as int);
            rows[pick]
        } else {
            0
        };
        (vis, sel)
    }

    /// The popup's lines and height (see [`model_picker_lines`] and
    /// [`model_popup_height`]).
    pub fn view_lines(&self) -> (r: (Vec<Vec<(Tone, String)>>, u16))
        ensures
            styled_view(r.0@) == model_picker_lines(*self),
            r.1 as nat == model_popup_height(shown(self.entries@, self.search@).len()),
    {
        let (vis, sel) = self.shown_and_highlighted();
        let ghost vv = vis@.map_values(|i: usize| i as int);
        let n = vis.len();
        assert(vv.len() == n);
        let (start, end) = model_window(self.scroll, sel, n);
        let height: u16 = if n >= 3 {
            if n < MODEL_PICKER_MAX_ROWS {
                (n + 7) as u16
            } else {
                (MODEL_PICKER_MAX_ROWS + 7) as u16
            }
        } else {
            10
        };
        let mut out: Vec<Vec<(Tone, String)>> = Vec::new();
        let search_text = if self.search.as_str().unicode_len() == 0 {
            "type to filter…".to_owned()
        } else {
            self.search.clone()
        };
        let ghost st = search_text@;
        let first = vec![(Tone::MutedBold, "Search ".to_owned()), (Tone::Text, search_text)];
        assert(spans_view(first@) =~= seq![(Tone::MutedBold, "Search "@), (Tone::Text, st)]);
        push_styled(&mut out, first);
        push_empty(&mut out);
        if n == 0 {
            push_muted(&mut out, " No models match".to_owned());
        } else {
            if start > 0 {
                push_styled(&mut out, count_line("  ▲ ", start));
            }
            push_model_rows(&mut out, &self.entries, &vis, sel, start, end);
            if n > end {
                push_styled(&mut out, count_line("  ▼ ", n - end));
            }
        }
        push_empty(&mut out);
        push_muted(&mut out, " ↑↓ select · Enter apply · Esc close ".to_owned());
        assert(styled_view(out@) =~= model_picker_lines(*self));
        (out, height)
    }
}

proof fn lemma_model_rows(entries: Seq<ModelPickerEntry>, vis: Seq<int>, n: nat)
    requires
        n <= vis.len(),
    ensures
        forall|k: int| 0 <= k < model_rows(entries, vis, n).len() ==> {
            let p = #[trigger] model_rows(entries, vis, n)[k];
            0 <= p < n && !entries[vis[p]].is_header
        },
    decreases n,
{
    if n > 0 {
        lemma_model_rows(entries, vis, (n - 1) as nat);
        let prev = model_rows(entries, vis, (n - 1) as nat);
        let r = model_rows(entries, vis, n);
        assert forall|k: int| 0 <= k < r.len() implies {
            let p = #[trigger] r[k];
            0 <= p < n && !entries[vis[p]].is_header
        } by {
            if k < prev.len() {
                assert(r[k] == prev[k]);
            }
        }
    }
}

/// When any model is shown, the highlighted row is a shown model, never a header.
pub proof fn law_highlight_is_a_model(entries: Seq<ModelPickerEntry>, search: Seq<char>, index: nat)
    requires
        model_rows(entries, shown(entries, search), shown(entries, search).len()).len() > 0,
    ensures
        0 <= highlighted_row(entries, search, index) < shown(entries, search).len(),
        !entries[shown(entries, search)[highlighted_row(entries, search, index)]].is_header,
{
    let vis = shown(entries, search);
    lemma_model_rows(entries, vis, vis.len());
    let rows = model_rows(entries, vis, vis.len());
    let k = min(index as int, rows.len() - 1);
    assert(rows[k] == highlighted_row(entries, search, index));
}

} // verus!
