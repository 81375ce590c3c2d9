//! The lines the agent, provider and permission pickers, the info popup and the API key
//! popup draw.

use crate::pickers::{
    agent_window, AgentPickerState, ApiKeyModalState, InfoModalState, PermissionPickerState,
    ProviderPickerState, INFO_MODAL_MAX_VIS, PERMISSION_COUNT,
};
use crate::provider::{all_providers, provider_display_name, ProviderKind, PROVIDER_COUNT};
use crate::searchable_list::{min, sat_sub};
use crate::session::{dec, push_decimal};
use crate::slash::pad_right;
use crate::styled::{cat2, pad_to, push_empty, push_muted, push_styled, styled_view};
use crate::transcript_view::{spans_view, Tone};
use vstd::prelude::*;

verus! {

/// A styled line as plain values.
pub type LineSpans = Seq<(Tone, Seq<char>)>;

/// A selectable row: ` name` highlighted when selected.
pub open spec fn choice_row(name: Seq<char>, selected: bool) -> LineSpans {
    seq![(if selected { Tone::Selected } else { Tone::Text }, " "@ + name)]
}

/// Height of a popup with `rows` rows: six more, at least eight.
pub open spec fn popup_height(rows: nat) -> nat {
    if rows + 6 >= 8 {
        rows + 6
    } else {
        8
    }
}

/// The row of agent `i`: name padded to 14 columns and description, highlighted when
/// selected.
pub open spec fn agent_row(label: (String, String), selected: bool) -> LineSpans {
    seq![
        (if selected { Tone::Selected } else { Tone::Text }, " "@ + pad_right(label.0@, 14)),
        (if selected { Tone::SelectedDetail } else { Tone::Muted }, " "@ + label.1@),
    ]
}

/// The agent rows `from..to`.
pub open spec fn agent_rows(labels: Seq<(String, String)>, index: nat, from: nat, to: nat) -> Seq<LineSpans>
    decreases to,
{
    if to <= from {
        seq![]
    } else {
        agent_rows(labels, index, from, (to - 1) as nat).push(agent_row(labels[to - 1], index == to - 1))
    }
}

/// The agent picker's lines: title, the agents in its window, key hints.
pub open spec fn agent_picker_lines(s: AgentPickerState) -> Seq<LineSpans> {
    let (scroll, n_show) = agent_window(s.index as nat, s.labels@.len());
    let end = min((scroll + n_show) as int, s.labels@.len() as int) as nat;
    seq![seq![(Tone::MutedBold, " Agent "@)], seq![]] + agent_rows(s.labels@, s.index as nat, scroll, end)
        + seq![seq![], seq![(Tone::Muted, " Enter apply · Esc cancel "@)]]
}

/// The provider rows `0..n`.
pub open spec fn provider_rows(index: nat, n: nat) -> Seq<LineSpans>
    decreases n,
{
    if n == 0 {
        seq![]
    } else {
        provider_rows(index, (n - 1) as nat).push(
            choice_row(provider_display_name(all_providers()[n - 1]), index == n - 1),
        )
    }
}

/// The provider picker's lines: its purpose, every provider, key hints.
pub open spec fn provider_picker_lines(s: ProviderPickerState) -> Seq<LineSpans> {
    seq![
        seq![
            (
                Tone::MutedBold,
                if s.for_api_key { " Select provider for API key "@ } else { " Default LLM provider "@ },
            ),
        ],
        seq![],
    ] + provider_rows(s.index as nat, PROVIDER_COUNT as nat) + seq![
        seq![],
        seq![(Tone::Muted, " Enter confirm · Esc cancel "@)],
    ]
}

/// The names of the permission modes, in picker order.
pub open spec fn permission_labels() -> Seq<Seq<char>> {
    seq!["Default"@, "Plan"@, "AcceptEdits"@, "DontAsk"@, "BypassPermissions"@]
}

/// The permission rows `0..n`.
pub open spec fn permission_rows(index: nat, n: nat) -> Seq<LineSpans>
    decreases n,
{
    if n == 0 {
        seq![]
    } else {
        permission_rows(index, (n - 1) as nat).push(choice_row(permission_labels()[n - 1], index == n - 1))
    }
}

/// The permission picker's lines: title, every mode, key hints.
pub open spec fn permission_picker_lines(s: PermissionPickerState) -> Seq<LineSpans> {
    seq![seq![(Tone::MutedBold, " Permission mode "@)], seq![]] + permission_rows(
        s.index as nat,
        PERMISSION_COUNT as nat,
    ) + seq![seq![], seq![(Tone::Muted, " Enter apply · Esc cancel "@)]]
}

/// The text rows `from..to` of an info popup.
pub open spec fn info_rows(lines: Seq<String>, from: nat, to: nat) -> Seq<LineSpans>
    decreases to,
{
    if to <= from {
        seq![]
    } else {
        info_rows(lines, from, (to - 1) as nat).push(seq![(Tone::Text, " "@ + lines[to - 1]@)])
    }
}

/// The info popup's lines at scroll offset `start`: the lines on screen, a position note
/// when not all fit, key hints.
pub open spec fn info_modal_lines(s: InfoModalState, start: nat) -> Seq<LineSpans> {
    let n = s.lines@.len();
    let n_show = min(n as int, INFO_MODAL_MAX_VIS as int) as nat;
    let end = min((start + n_show) as int, n as int) as nat;
    info_rows(s.lines@, start, end) + if n > INFO_MODAL_MAX_VIS {
        seq![seq![(Tone::Muted, " ─ "@ + dec(start + 1) + "/"@ + dec(n) + " · ↑↓ scroll"@)]]
    } else {
        seq![]
    } + seq![seq![], seq![(Tone::Muted, " Esc close "@)]]
}

/// The API key popup's lines: the provider, the key typed so far as stars, and hints.
pub open spec fn api_key_lines(s: ApiKeyModalState) -> Seq<LineSpans> {
    let provider = match s.target_provider {
        Some(p) => provider_display_name(p),
        None => "provider"@,
    };
    seq![
        seq![(Tone::TextBold, " Provider: "@ + provider)],
        seq![],
        seq![(Tone::Muted, " API key "@), (Tone::Secret, Seq::new(s.input@.len(), |i: int| '*'))],
        seq![],
        seq![
            (
                Tone::Muted,
                if s.has_existing {
                    " Press Enter to keep current key, or paste a new key to replace it. "@
                } else {
                    " Paste API key, then press Enter. "@
                },
            ),
        ],
        seq![(Tone::Muted, " Enter confirm · Esc cancel "@)],
    ]
}

/// The API key popup's title.
pub open spec fn api_key_title(s: ApiKeyModalState) -> Seq<char> {
    if s.connect_after_save {
        " Connect provider "@
    } else {
        " API key "@
    }
}

fn push_choice(out: &mut Vec<Vec<(Tone, String)>>, name: &str, selected: bool)
    ensures
        styled_view(final(out)@) == styled_view(old(out)@).push(choice_row(name@, selected)),
{
    let tone = if selected {
        Tone::Selected
    } else {
        Tone::Text
    };
    let l = vec![(tone, cat2(" ", name))];
    assert(spans_view(l@) =~= choice_row(name@, selected));
    push_styled(out, l);
}

fn push_title(out: &mut Vec<Vec<(Tone, String)>>, t: &str)
    ensures
        styled_view(final(out)@) == styled_view(old(out)@) + seq![seq![(Tone::MutedBold, t@)], seq![]],
{
    let ghost o = styled_view(out@);
    let l = vec![(Tone::MutedBold, t.to_owned())];
    assert(spans_view(l@) =~= seq![(Tone::MutedBold, t@)]);
    push_styled(out, l);
    push_empty(out);
    assert(styled_view(out@) =~= o + seq![seq![(Tone::MutedBold, t@)], seq![]]);
}

fn push_hints(out: &mut Vec<Vec<(Tone, String)>>, t: &str)
    ensures
        styled_view(final(out)@) == styled_view(old(out)@) + seq![seq![], seq![(Tone::Muted, t@)]],
{
    let ghost o = styled_view(out@);
    push_empty(out);
    push_muted(out, t.to_owned());
    assert(styled_view(out@) =~= o + seq![seq![], seq![(Tone::Muted, t@)]]);
}

fn height_for(rows: usize) -> (h: u16)
    requires
        rows <= 100,
    ensures
        h as nat == popup_height(rows as nat),
{
    if rows + 6 >= 8 {
        (rows + 6) as u16
    } else {
        8
    }
}

impl AgentPickerState {
    /// The popup's lines and height (see [`agent_picker_lines`]).
    pub fn view_lines(&self) -> (r: (Vec<Vec<(Tone, String)>>, u16))
        ensures
            styled_view(r.0@) == agent_picker_lines(*self),
            r.1 as nat == popup_height(agent_window(self.index as nat, self.labels@.len()).1),
    {
        let (scroll, n_show) = self.visible_window();
        let total = self.labels.len();
        assert(scroll + n_show <= total);
        let end = scroll + n_show;
        let mut out: Vec<Vec<(Tone, String)>> = Vec::new();
        push_title(&mut out, " Agent ");
        let ghost mid = styled_view(out@);
        let mut i = scroll;
        while i < end
            invariant
                scroll <= i <= end <= self.labels@.len(),
                styled_view(out@) == mid + agent_rows(self.labels@, self.index as nat, scroll as nat, i as nat),
            decreases end - i,
        {
            let (name, desc) = &self.labels[i];
            let sel = i == self.index;
            let l = vec![
                (if sel { Tone::Selected } else { Tone::Text }, cat2(" ", pad_to(name.as_str(), 14).as_str())),
                (if sel { Tone::SelectedDetail } else { Tone::Muted }, cat2(" ", desc.as_str())),
            ];
            assert(spans_view(l@) =~= agent_row(self.labels@[i as int], self.index as nat == i as nat));
            push_styled(&mut out, l);
            i += 1;
        }
        push_hints(&mut out, " Enter apply · Esc cancel ");
        assert(styled_view(out@) =~= agent_picker_lines(*self));
        (out, height_for(n_show))
    }
}

impl ProviderPickerState {
    /// The popup's lines and height (see [`provider_picker_lines`]).
    pub fn view_lines(&self) -> (r: (Vec<Vec<(Tone, String)>>, u16))
        ensures
            styled_view(r.0@) == provider_picker_lines(*self),
            r.1 as nat == popup_height(PROVIDER_COUNT as nat),
    {
        let mut out: Vec<Vec<(Tone, String)>> = Vec::new();
        push_title(
            &mut out,
            if self.for_api_key {
                " Select provider for API key "
            } else {
                " Default LLM provider "
            },
        );
        let ghost mid = styled_view(out@);
        let mut i: usize = 0;
        while i < PROVIDER_COUNT
            invariant
                i <= PROVIDER_COUNT,
                styled_view(out@) == mid + provider_rows(self.index as nat, i as nat),
            decreases PROVIDER_COUNT - i,
        {
            let p = ProviderKind::from_index(i);
            push_choice(&mut out, p.display_name(), i == self.index);
            i += 1;
        }
        push_hints(&mut out, " Enter confirm · Esc cancel ");
        assert(styled_view(out@) =~= provider_picker_lines(*self));
        (out, height_for(PROVIDER_COUNT))
    }
}

impl PermissionPickerState {
    /// The popup's lines and height (see [`permission_picker_lines`]).
    pub fn view_lines(&self) -> (r: (Vec<Vec<(Tone, String)>>, u16))
        ensures
            styled_view(r.0@) == permission_picker_lines(*self),
            r.1 as nat == popup_height(PERMISSION_COUNT as nat),
    {
        let labels: [&str; 5] = ["Default", "Plan", "AcceptEdits", "DontAsk", "BypassPermissions"];
        assert(labels@.map_values(|l: &str| l@) =~= permission_labels());
        let mut out: Vec<Vec<(Tone, String)>> = Vec::new();
        push_title(&mut out, " Permission mode ");
        let ghost mid = styled_view(out@);
        let mut i: usize = 0;
        while i < PERMISSION_COUNT
            invariant
                i <= PERMISSION_COUNT,
                labels@.map_values(|l: &str| l@) == permission_labels(),
                styled_view(out@) == mid + permission_rows(self.index as nat, i as nat),
            decreases PERMISSION_COUNT - i,
        {
            assert(labels@.map_values(|l: &str| l@)[i as int] == labels@[i as int]@);
            push_choice(&mut out, labels[i], i == self.index);
            i += 1;
        }
        push_hints(&mut out, " Enter apply · Esc cancel ");
        assert(styled_view(out@) =~= permission_picker_lines(*self));
        (out, height_for(PERMISSION_COUNT))
    }
}

impl InfoModalState {
    /// Keep the scroll offset within the lines and give the popup's lines and height (see
    /// [`info_modal_lines`]).
    pub fn view_lines(&mut self) -> (r: (Vec<Vec<(Tone, String)>>, u16))
        ensures
            final(self).title == old(self).title,
            final(self).lines == old(self).lines,
            final(self).scroll == min(
                old(self).scroll as int,
                sat_sub(old(self).lines@.len() as int, INFO_MODAL_MAX_VIS as int) as int,
            ),
            styled_view(r.0@) == info_modal_lines(*final(self), final(self).scroll as nat),
            r.1 as nat == popup_height(min(old(self).lines@.len() as int, INFO_MODAL_MAX_VIS as int) as nat),
    {
        let n = self.lines.len();
        let n_show = if n < INFO_MODAL_MAX_VIS {
            n
        } else {
            INFO_MODAL_MAX_VIS
        };
        let max_scroll = n - n_show;
        if self.scroll > max_scroll {
            self.scroll = max_scroll;
        }
        let start = self.scroll;
        let end = if start + n_show < n {
            start + n_show
        } else {
            n
        };
        let mut out: Vec<Vec<(Tone, String)>> = Vec::new();
        let mut i = start;
        while i < end
            invariant
                start <= i <= end <= self.lines@.len(),
                styled_view(out@) == info_rows(self.lines@, start as nat, i as nat),
            decreases end - i,
        {
            let l = vec![(Tone::Text, cat2(" ", self.lines[i].as_str()))];
            assert(spans_view(l@) =~= seq![(Tone::Text, " "@ + self.lines@[i as int]@)]);
            push_styled(&mut out, l);
            i += 1;
        }
        if n > INFO_MODAL_MAX_VIS {
            let mut t = " ─ ".to_owned();
            push_decimal(&mut t, (start + 1) as u64);
            t.append("/");
            push_decimal(&mut t, n as u64);
            t.append(" · ↑↓ scroll");
            push_muted(&mut out, t);
        }
        push_hints(&mut out, " Esc close ");
        assert(styled_view(out@) =~= info_modal_lines(*self, self.scroll as nat));
        (out, height_for(n_show))
    }
}

impl ApiKeyModalState {
    /// The popup's lines and title (see [`api_key_lines`] and [`api_key_title`]).
    pub fn view_lines(&self) -> (r: (Vec<Vec<(Tone, String)>>, &'static str))
        ensures
            styled_view(r.0@) == api_key_lines(*self),
            r.1@ == api_key_title(*self),
    {
        let provider: &str = match self.target_provider {
            Some(p) => p.display_name(),
            None => "provider",
        };
        let n = crate::text::chars_of(self.input.as_str()).len();
        let mut stars = String::new();
        let mut k: usize = 0;
        while k < n
            invariant
                k <= n,
                stars@ == Seq::new(k as nat, |i: int| '*'),
            decreases n - k,
        {
            crate::text::push_char(&mut stars, '*');
            assert(stars@ =~= Seq::new((k + 1) as nat, |i: int| '*'));
            k += 1;
        }
        let mut out: Vec<Vec<(Tone, String)>> = Vec::new();
        let first = vec![(Tone::TextBold, cat2(" Provider: ", provider))];
        assert(spans_view(first@) =~= api_key_lines(*self)[0]);
        push_styled(&mut out, first);
        push_empty(&mut out);
        let ghost sv = stars@;
        let key = vec![(Tone::Muted, " API key ".to_owned()), (Tone::Secret, stars)];
        assert(spans_view(key@) =~= seq![(Tone::Muted, " API key "@), (Tone::Secret, sv)]);
        push_styled(&mut out, key);
        push_empty(&mut out);
        push_muted(
            &mut out,
            if self.has_existing {
                " Press Enter to keep current key, or paste a new key to replace it. ".to_owned()
            } else {
                " Paste API key, then press Enter. ".to_owned()
            },
        );
        push_muted(&mut out, " Enter confirm · Esc cancel ".to_owned());
        assert(styled_view(out@) =~= api_key_lines(*self));
        let title = if self.connect_after_save {
            " Connect provider "
        } else {
            " API key "
        };
        (out, title)
    }
}

} // verus!
