//! The categorized command palette and the slash / `@` completion panels.

use crate::cost_dashboard::{pad_left, pad_left_to};
use crate::keys::{is_typing, KeyCode, KeyEvent, MOD_CONTROL};
use crate::searchable_list::{min, sat_sub};
use crate::styled::{cat2, push_empty, push_muted, push_styled, styled_view};
use crate::transcript_view::{spans_view, Tone};
use crate::text::{chars_of, clear_string, contains_seq, contains_vec, lower, lower_vec, pop_char, push_char, trim, trim_vec};
use vstd::prelude::*;

verus! {

/// A row of the command palette.
#[derive(Clone, Copy, PartialEq, Eq, Debug)]
pub enum PaletteRow {
    Section(&'static str),
    Entry { label: &'static str, shortcut: &'static str },
}

/// The palette's sections, each with its `(label, shortcut)` entries, in display order.
pub open spec fn palette_groups() -> Seq<(&'static str, Seq<(&'static str, &'static str)>)> {
    seq![
        ("Suggested", seq![("Switch model", "ctrl+x m"), ("Connect provider", "")]),
        ("Session", seq![
            ("Open editor", "ctrl+x e"),
            ("Switch session", "ctrl+x l"),
            ("New session", "ctrl+x n"),
            ("Compact", "ctrl+x c"),
            ("Export session", ""),
        ]),
        ("Prompt", seq![("Skills", ""), ("Agent profile", "ctrl+x a"), ("Toggle thinking", "")]),
        ("Provider", seq![("Connect provider", ""), ("Switch provider", ""), ("API key", "")]),
        ("System", seq![
            ("View status", "ctrl+x s"),
            ("Config", ""),
            ("Doctor", ""),
            ("Help", "ctrl+x h"),
            ("Permissions", ""),
            ("Memory", ""),
            ("Logs", ""),
            ("MCP servers", ""),
            ("Clear screen", "ctrl+l"),
            ("Exit", "ctrl+x q"),
        ]),
    ]
}

/// The rows of one section: its header followed by the given entries.
pub open spec fn group_rows(title: &'static str, entries: Seq<(&'static str, &'static str)>) -> Seq<PaletteRow> {
    seq![PaletteRow::Section(title)] + entries.map_values(
        |e: (&'static str, &'static str)| PaletteRow::Entry { label: e.0, shortcut: e.1 },
    )
}

/// The full palette: every section followed by its entries.
pub open spec fn palette_catalog() -> Seq<PaletteRow> {
    palette_groups().map_values(
        |g: (&'static str, Seq<(&'static str, &'static str)>)| group_rows(g.0, g.1),
    ).flatten()
}

fn groups_exec() -> (r: Vec<(&'static str, Vec<(&'static str, &'static str)>)>)
    ensures
        r@.len() == palette_groups().len(),
        forall|i: int| 0 <= i < r@.len() ==> r@[i].0 == palette_groups()[i].0 && r@[i].1@ == palette_groups()[i].1,
{
    let mut r: Vec<(&'static str, Vec<(&'static str, &'static str)>)> = Vec::new();
    r.push(("Suggested", vec![("Switch model", "ctrl+x m"), ("Connect provider", "")]));
    r.push(
        (
            "Session",
            vec![
                ("Open editor", "ctrl+x e"),
                ("Switch session", "ctrl+x l"),
                ("New session", "ctrl+x n"),
                ("Compact", "ctrl+x c"),
                ("Export session", ""),
            ],
        ),
    );
    r.push(("Prompt", vec![("Skills", ""), ("Agent profile", "ctrl+x a"), ("Toggle thinking", "")]));
    r.push(("Provider", vec![("Connect provider", ""), ("Switch provider", ""), ("API key", "")]));
    r.push(
        (
            "System",
            vec![
                ("View status", "ctrl+x s"),
                ("Config", ""),
                ("Doctor", ""),
                ("Help", "ctrl+x h"),
                ("Permissions", ""),
                ("Memory", ""),
                ("Logs", ""),
                ("MCP servers", ""),
                ("Clear screen", "ctrl+l"),
                ("Exit", "ctrl+x q"),
            ],
        ),
    );
    assert(r@[0].1@ =~= palette_groups()[0].1);
    assert(r@[1].1@ =~= palette_groups()[1].1);
    assert(r@[2].1@ =~= palette_groups()[2].1);
    assert(r@[3].1@ =~= palette_groups()[3].1);
    assert(r@[4].1@ =~= palette_groups()[4].1);
    r
}

/// The slash command a palette label runs (`/help` for unknown labels).
pub open spec fn palette_command(label: Seq<char>) -> Seq<char> {
    if label == "Switch model"@ {
        "/models"@
    } else if label == "Connect provider"@ {
        "/connect"@
    } else if label == "Open editor"@ {
        "/editor"@
    } else if label == "Switch session"@ {
        "/sessions"@
    } else if label == "New session"@ {
        "/new"@
    } else if label == "Compact"@ {
        "/compact"@
    } else if label == "Export session"@ {
        "/export"@
    } else if label == "Skills"@ {
        "/skills"@
    } else if label == "Agent profile"@ {
        "/agent"@
    } else if label == "Toggle thinking"@ {
        "/thinking"@
    } else if label == "Switch provider"@ {
        "/provider"@
    } else if label == "API key"@ {
        "/apikey"@
    } else if label == "View status"@ {
        "/status"@
    } else if label == "Config"@ {
        "/config"@
    } else if label == "Doctor"@ {
        "/doctor"@
    } else if label == "Help"@ {
        "/help"@
    } else if label == "Permissions"@ {
        "/permissions"@
    } else if label == "Memory"@ {
        "/memory"@
    } else if label == "Logs"@ {
        "/logs"@
    } else if label == "MCP servers"@ {
        "/mcp"@
    } else if label == "Clear screen"@ {
        "/clear"@
    } else if label == "Exit"@ {
        "/exit"@
    } else {
        "/help"@
    }
}

fn same(a: &[char], b: &str) -> (r: bool)
    ensures
        r == (a@ == b@),
{
    crate::text::eq_vec(a, &chars_of(b))
}

/// The slash command a palette label runs.
pub fn palette_command_for_label(label: &str) -> (r: &'static str)
    ensures
        r@ == palette_command(label@),
{
    let l = chars_of(label);
    if same(&l, "Switch model") {
        "/models"
    } else if same(&l, "Connect provider") {
        "/connect"
    } else if same(&l, "Open editor") {
        "/editor"
    } else if same(&l, "Switch session") {
        "/sessions"
    } else if same(&l, "New session") {
        "/new"
    } else if same(&l, "Compact") {
        "/compact"
    } else if same(&l, "Export session") {
        "/export"
    } else if same(&l, "Skills") {
        "/skills"
    } else if same(&l, "Agent profile") {
        "/agent"
    } else if same(&l, "Toggle thinking") {
        "/thinking"
    } else if same(&l, "Switch provider") {
        "/provider"
    } else if same(&l, "API key") {
        "/apikey"
    } else if same(&l, "View status") {
        "/status"
    } else if same(&l, "Config") {
        "/config"
    } else if same(&l, "Doctor") {
        "/doctor"
    } else if same(&l, "Help") {
        "/help"
    } else if same(&l, "Permissions") {
        "/permissions"
    } else if same(&l, "Memory") {
        "/memory"
    } else if same(&l, "Logs") {
        "/logs"
    } else if same(&l, "MCP servers") {
        "/mcp"
    } else if same(&l, "Clear screen") {
        "/clear"
    } else if same(&l, "Exit") {
        "/exit"
    } else {
        "/help"
    }
}

/// An entry matches the (lower-cased, trimmed) query when its lower-cased label or
/// shortcut, or its command, contains it.
pub open spec fn entry_matches(e: (&'static str, &'static str), needle: Seq<char>) -> bool {
    contains_seq(lower(e.0@), needle) || contains_seq(lower(e.1@), needle) || contains_seq(
        palette_command(e.0@),
        needle,
    )
}

/// The rows the palette shows for `query`: everything for a blank query; otherwise each
/// section with a matching entry, followed by its matching entries, in catalog order.
pub open spec fn palette_rows_for(query: Seq<char>) -> Seq<PaletteRow> {
    let needle = lower(trim(query));
    if needle.len() == 0 {
        palette_catalog()
    } else {
        palette_groups().map_values(
            |g: (&'static str, Seq<(&'static str, &'static str)>)| {
                let m = g.1.filter(|e: (&'static str, &'static str)| entry_matches(e, needle));
                if m.len() > 0 {
                    group_rows(g.0, m)
                } else {
                    seq![]
                }
            },
        ).flatten()
    }
}

fn entry_matches_exec(e: (&'static str, &'static str), needle: &[char]) -> (b: bool)
    ensures
        b == entry_matches(e, needle@),
{
    contains_vec(&lower_vec(&chars_of(e.0)), needle) || contains_vec(
        &lower_vec(&chars_of(e.1)),
        needle,
    ) || contains_vec(&chars_of(palette_command_for_label(e.0)), needle)
}

fn push_group(out: &mut Vec<PaletteRow>, title: &'static str, entries: &Vec<(&'static str, &'static str)>)
    ensures
        final(out)@ == old(out)@ + group_rows(title, entries@),
{
    let ghost start = out@;
    out.push(PaletteRow::Section(title));
    let mut k: usize = 0;
    while k < entries.len()
        invariant
            k <= entries@.len(),
            out@ == start + group_rows(title, entries@.take(k as int)),
        decreases entries@.len() - k,
    {
        let e = entries[k];
        out.push(PaletteRow::Entry { label: e.0, shortcut: e.1 });
        assert(group_rows(title, entries@.take(k + 1)) =~= group_rows(title, entries@.take(k as int)).push(PaletteRow::Entry { label: e.0, shortcut: e.1 }));
        k += 1;
    }
    assert(entries@.take(entries@.len() as int) =~= entries@);
}

/// The palette rows shown for `query` (see [`palette_rows_for`]).
pub fn filter_palette_rows(query: &str) -> (r: Vec<PaletteRow>)
    ensures
        r@ == palette_rows_for(query@),
{
    let needle = lower_vec(&trim_vec(&chars_of(query)));
    let groups = groups_exec();
    let ghost gs = palette_groups();
    let ghost nd = needle@;
    let ghost gf = |g: (&'static str, Seq<(&'static str, &'static str)>)| {
        let m = g.1.filter(|e: (&'static str, &'static str)| entry_matches(e, nd));
        if m.len() > 0 {
            group_rows(g.0, m)
        } else {
            seq![]
        }
    };
    let ghost cf = |g: (&'static str, Seq<(&'static str, &'static str)>)| group_rows(g.0, g.1);
    let mut out: Vec<PaletteRow> = Vec::new();
    let mut i: usize = 0;
    let empty = needle.len() == 0;
    while i < groups.len()
        invariant
            i <= groups@.len(),
            groups@.len() == gs.len(),
            gs == palette_groups(),
            forall|j: int| 0 <= j < groups@.len() ==> groups@[j].0 == gs[j].0 && groups@[j].1@ == gs[j].1,
            nd == needle@,
            empty == (nd.len() == 0),
            gf == (|g: (&'static str, Seq<(&'static str, &'static str)>)| {
                let m = g.1.filter(|e: (&'static str, &'static str)| entry_matches(e, nd));
                if m.len() > 0 {
                    group_rows(g.0, m)
                } else {
                    seq![]
                }
            }),
            cf == (|g: (&'static str, Seq<(&'static str, &'static str)>)| group_rows(g.0, g.1)),
            empty ==> out@ == gs.take(i as int).map_values(cf).flatten(),
            !empty ==> out@ == gs.take(i as int).map_values(gf).flatten(),
        decreases groups@.len() - i,
    {
        let title = groups[i].0;
        let entries = &groups[i].1;
        let ghost g = gs[i as int];
        assert(gs.take(i + 1) =~= gs.take(i as int).push(g));
        assert(gs.take(i + 1).map_values(cf) =~= gs.take(i as int).map_values(cf).push(cf(g)));
        assert(gs.take(i + 1).map_values(gf) =~= gs.take(i as int).map_values(gf).push(gf(g)));
        proof {
            gs.take(i as int).map_values(cf).lemma_flatten_push(cf(g));
            gs.take(i as int).map_values(gf).lemma_flatten_push(gf(g));
        }
        if empty {
            push_group(&mut out, title, entries);
        } else {
            let mut m: Vec<(&'static str, &'static str)> = Vec::new();
            let mut k: usize = 0;
            let ghost pred = |e: (&'static str, &'static str)| entry_matches(e, nd);
            while k < entries.len()
                invariant
                    k <= entries@.len(),
                    entries@ == g.1,
                    nd == needle@,
                    pred == (|e: (&'static str, &'static str)| entry_matches(e, nd)),
                    m@ == entries@.take(k as int).filter(pred),
                decreases entries@.len() - k,
            {
                let e = entries[k];
                assert(entries@.take(k + 1).drop_last() =~= entries@.take(k as int));
                assert(entries@.take(k + 1).last() == e);
                reveal_with_fuel(Seq::filter, 1);
                if entry_matches_exec(e, &needle) {
                    m.push(e);
                }
                k += 1;
            }
            assert(entries@.take(entries@.len() as int) =~= entries@);
            if m.len() > 0 {
                push_group(&mut out, title, &m);
            } else {
                assert(out@ + Seq::<PaletteRow>::empty() =~= out@);
            }
        }
        i += 1;
    }
    assert(gs.take(groups@.len() as int) =~= gs);
    out
}

/// The positions of the entry rows of `rows`, in order.
pub open spec fn entry_positions(rows: Seq<PaletteRow>) -> Seq<int>
    decreases rows.len(),
{
    if rows.len() == 0 {
        seq![]
    } else {
        entry_positions(rows.drop_last()) + if rows.last() is Entry {
            seq![rows.len() - 1]
        } else {
            seq![]
        }
    }
}

/// Indices of the selectable (entry) rows.
pub fn palette_selectable_indices(rows: &[PaletteRow]) -> (r: Vec<usize>)
    ensures
        r@.len() == entry_positions(rows@).len(),
        forall|k: int| 0 <= k < r@.len() ==> r@[k] as int == #[trigger] entry_positions(rows@)[k],
        forall|k: int| 0 <= k < r@.len() ==> r@[k] < rows@.len() && rows@[r@[k] as int] is Entry,
        forall|k: int, l: int| 0 <= k < l < r@.len() ==> r@[k] < r@[l],
        forall|i: int| 0 <= i < rows@.len() && rows@[i] is Entry ==> exists|k: int| 0 <= k < r@.len() && r@[k] == i,
{
    let mut r: Vec<usize> = Vec::new();
    let mut i: usize = 0;
    while i < rows.len()
        invariant
            i <= rows@.len(),
            forall|k: int| 0 <= k < r@.len() ==> r@[k] < i && rows@[r@[k] as int] is Entry,
            forall|k: int, l: int| 0 <= k < l < r@.len() ==> r@[k] < r@[l],
            forall|j: int| 0 <= j < i && rows@[j] is Entry ==> exists|k: int| 0 <= k < r@.len() && r@[k] == j,
            r@.len() == entry_positions(rows@.take(i as int)).len(),
            forall|k: int| 0 <= k < r@.len() ==> r@[k] as int == #[trigger] entry_positions(rows@.take(i as int))[k],
        decreases rows@.len() - i,
    {
        assert(rows@.take(i + 1).drop_last() =~= rows@.take(i as int));
        if let PaletteRow::Entry { .. } = rows[i] {
            let ghost r0 = r@;
            r.push(i);
            assert forall|j: int| 0 <= j < i + 1 && rows@[j] is Entry implies exists|k: int| 0 <= k < r@.len() && r@[k] == j by {
                if j < i {
                    let k = choose|k: int| 0 <= k < r0.len() && r0[k] == j;
                    assert(r@[k] == j);
                } else {
                    assert(r@[r@.len() - 1] == j);
                }
            };
        }
        i += 1;
    }
    assert(rows@.take(rows@.len() as int) =~= rows@);
    r
}

/// The open/closed state, search text and highlighted entry of the command palette.
pub struct PaletteState {
    pub open: bool,
    pub query: String,
    /// Position of the highlighted entry among the entries shown.
    pub index: usize,
}

/// How many entries the palette shows for `query`.
pub open spec fn entry_count(query: Seq<char>) -> nat {
    entry_positions(palette_rows_for(query)).len()
}

/// `index` kept on one of `n` entries (0 when there are none).
pub open spec fn clamp_entry(index: nat, n: nat) -> nat {
    if n == 0 {
        0
    } else if index <= n - 1 {
        index
    } else {
        (n - 1) as nat
    }
}

/// The command of the highlighted entry for `query`, if any entry is shown.
pub open spec fn palette_choice(query: Seq<char>, index: nat) -> Option<Seq<char>> {
    let rows = palette_rows_for(query);
    let pos = entry_positions(rows);
    if pos.len() == 0 {
        None
    } else {
        match rows[pos[clamp_entry(index, pos.len()) as int]] {
            PaletteRow::Entry { label, shortcut } => Some(palette_command(label@)),
            PaletteRow::Section(_) => None,
        }
    }
}

/// The palette after `key` as (open, query, index), and the command it puts in the
/// composer: Esc or Ctrl+P closes it; Up and Down move among the entries; Enter closes it
/// and hands over the highlighted entry's command; Backspace and typed characters edit the
/// search and keep the highlight on a shown entry.
pub open spec fn palette_step(open: bool, q: Seq<char>, index: nat, key: KeyEvent) -> ((bool, Seq<char>, nat), Option<Seq<char>>) {
    if key.code == KeyCode::Esc || (key.code == KeyCode::Char('p') && key.modifiers == MOD_CONTROL) {
        ((false, seq![], 0), None)
    } else if key.code == KeyCode::Up && index > 0 {
        ((open, q, (index - 1) as nat), None)
    } else if key.code == KeyCode::Down {
        let n = entry_count(q);
        ((open, q, if n > 0 { clamp_entry(index + 1, n) } else { index }), None)
    } else if key.code == KeyCode::Enter {
        ((false, seq![], 0), palette_choice(q, index))
    } else if key.code == KeyCode::Backspace {
        let q2 = if q.len() > 0 { q.drop_last() } else { q };
        ((open, q2, clamp_entry(index, entry_count(q2))), None)
    } else if is_typing(key) {
        let q2 = q.push(key.code->Char_0);
        ((open, q2, clamp_entry(index, entry_count(q2))), None)
    } else {
        ((open, q, index), None)
    }
}

fn clamp_exec(index: usize, n: usize) -> (r: usize)
    ensures
        r == clamp_entry(index as nat, n as nat),
{
    if n == 0 {
        0
    } else if index <= n - 1 {
        index
    } else {
        n - 1
    }
}

impl PaletteState {
    /// A closed palette with no search.
    pub fn new() -> (r: Self)
        ensures
            !r.open,
            r.query@ == Seq::<char>::empty(),
            r.index == 0,
    {
        PaletteState { open: false, query: String::new(), index: 0 }
    }

    /// Open the palette with an empty search.
    pub fn open(&mut self)
        ensures
            final(self).open,
            final(self).query@ == Seq::<char>::empty(),
            final(self).index == 0,
    {
        self.open = true;
        clear_string(&mut self.query);
        self.index = 0;
    }

    /// Apply a key to the open palette (see [`palette_step`]); the command to load into
    /// the composer comes back.
    pub fn handle_key(&mut self, key: KeyEvent) -> (r: Option<&'static str>)
        ensures
            final(self).open == palette_step(old(self).open, old(self).query@, old(self).index as nat, key).0.0,
            final(self).query@ == palette_step(old(self).open, old(self).query@, old(self).index as nat, key).0.1,
            final(self).index == palette_step(old(self).open, old(self).query@, old(self).index as nat, key).0.2,
            match r {
                Some(c) => palette_step(old(self).open, old(self).query@, old(self).index as nat, key).1 == Some(c@),
                None => palette_step(old(self).open, old(self).query@, old(self).index as nat, key).1 is None,
            },
    {
        let closes = match key.code {
            KeyCode::Esc => true,
            KeyCode::Char(c) => c == 'p' && key.modifiers == MOD_CONTROL,
            _ => false,
        };
        let (is_up, is_down, is_enter, is_back) = match key.code {
            KeyCode::Up => (true, false, false, false),
            KeyCode::Down => (false, true, false, false),
            KeyCode::Enter => (false, false, true, false),
            KeyCode::Backspace => (false, false, false, true),
            _ => (false, false, false, false),
        };
        let typed = match key.code {
            KeyCode::Char(c) => if key.modifiers == crate::keys::MOD_NONE || key.modifiers == crate::keys::MOD_SHIFT {
                Some(c)
            } else {
                None
            },
            _ => None,
        };
        if closes {
            self.open = false;
            clear_string(&mut self.query);
            self.index = 0;
            None
        } else if is_up && self.index > 0 {
            self.index = self.index - 1;
            None
        } else if is_down {
            let rows = filter_palette_rows(self.query.as_str());
            let sel = palette_selectable_indices(&rows);
            if sel.len() > 0 {
                self.index = if self.index < sel.len() - 1 {
                    self.index + 1
                } else {
                    sel.len() - 1
                };
            }
            None
        } else if is_enter {
            let rows = filter_palette_rows(self.query.as_str());
            let sel = palette_selectable_indices(&rows);
            let mut cmd: Option<&'static str> = None;
            if sel.len() > 0 {
                let pick = clamp_exec(self.index, sel.len());
                let abs = sel[pick];
                if let PaletteRow::Entry { label, .. } = rows[abs] {
                    cmd = Some(palette_command_for_label(label));
                }
            }
            self.open = false;
            clear_string(&mut self.query);
            self.index = 0;
            cmd
        } else if is_back {
            pop_char(&mut self.query);
            let rows = filter_palette_rows(self.query.as_str());
            let sel = palette_selectable_indices(&rows);
            self.index = clamp_exec(self.index, sel.len());
            None
        } else if let Some(c) = typed {
            push_char(&mut self.query, c);
            let rows = filter_palette_rows(self.query.as_str());
            let sel = palette_selectable_indices(&rows);
            self.index = clamp_exec(self.index, sel.len());
            None
        } else {
            None
        }
    }
}

/// The highlight stays on a shown entry: after any key, an open palette's highlight is
/// within its entries (or 0 when none is shown), given that it was before.
pub proof fn law_palette_highlight_on_entry(open: bool, q: Seq<char>, index: nat, key: KeyEvent)
    requires
        index == clamp_entry(index, entry_count(q)),
    ensures
        ({
            let next = palette_step(open, q, index, key).0;
            next.2 == clamp_entry(next.2, entry_count(next.1))
        }),
{
    reveal_with_fuel(entry_positions, 1);
    let empty = Seq::<char>::empty();
    assert(palette_rows_for(empty) == palette_rows_for(seq![]));
}

/// Rows the palette popup lists at once.
pub const COMMAND_PALETTE_MAX_ROWS: usize = 10;

/// Columns of the palette popup.
pub const COMMAND_PALETTE_WIDTH: u16 = 48;

/// One row of the palette popup: a section title, or an entry with its shortcut right
/// aligned, highlighted when `selected`.
pub open spec fn palette_row_line(row: PaletteRow, selected: bool) -> Seq<(Tone, Seq<char>)> {
    match row {
        PaletteRow::Section(name) => seq![(Tone::SectionTitle, "  "@ + name@)],
        PaletteRow::Entry { label, shortcut } => seq![
            (if selected { Tone::Selected } else { Tone::Text }, "  "@ + label@),
        ] + if shortcut@.len() > 0 {
            seq![
                (
                    if selected { Tone::SelectedDetail } else { Tone::Muted },
                    pad_left(shortcut@, sat_sub(sat_sub(36, label@.len() as int) as int, 2)),
                ),
            ]
        } else {
            seq![]
        },
    }
}

/// The row of the highlighted entry for `query` (0 when no entry is shown).
pub open spec fn palette_pick(query: Seq<char>, index: nat) -> int {
    let pos = entry_positions(palette_rows_for(query));
    if pos.len() == 0 {
        0
    } else {
        pos[clamp_entry(index, pos.len()) as int]
    }
}

/// The lines of the palette popup: the search line, the rows around the highlighted entry
/// (from five rows above it, ten at most), or a note that nothing matches, and the footer.
pub open spec fn palette_popup_view(query: Seq<char>, index: nat) -> Seq<Seq<(Tone, Seq<char>)>> {
    let rows = palette_rows_for(query);
    let pick = palette_pick(query, index);
    let scroll = sat_sub(pick, 5);
    let end = min(scroll + 10int, rows.len() as int);
    seq![
        seq![(Tone::MutedBold, "  Search "@), (Tone::Text, if query.len() == 0 { "type to filter"@ } else { query })],
        seq![],
    ] + (if entry_positions(rows).len() == 0 {
        seq![seq![(Tone::Muted, " No matching commands"@)]]
    } else {
        Seq::new(sat_sub(end, scroll as int), |k: int| palette_row_line(rows[scroll + k], scroll + k == pick))
    }) + seq![seq![], seq![(Tone::Muted, " Enter apply · Esc close "@)]]
}

fn push_row_line(out: &mut Vec<Vec<(Tone, String)>>, row: PaletteRow, selected: bool)
    ensures
        styled_view(final(out)@) == styled_view(old(out)@).push(palette_row_line(row, selected)),
{
    match row {
        PaletteRow::Section(name) => {
            let l = vec![(Tone::SectionTitle, cat2("  ", name))];
            assert(spans_view(l@) =~= palette_row_line(row, selected));
            push_styled(out, l);
        },
        PaletteRow::Entry { label, shortcut } => {
            let mut l = vec![(if selected { Tone::Selected } else { Tone::Text }, cat2("  ", label))];
            let ghost l0 = spans_view(l@);
            let n = chars_of(shortcut).len();
            if n > 0 {
                let ll = chars_of(label).len();
                let pad = if ll <= 36 && 36 - ll >= 2 {
                    36 - ll - 2
                } else {
                    0
                };
                l.push((if selected { Tone::SelectedDetail } else { Tone::Muted }, pad_left_to(shortcut, pad)));
                assert(spans_view(l@) =~= l0.push(
                    (
                        if selected { Tone::SelectedDetail } else { Tone::Muted },
                        pad_left(shortcut@, sat_sub(sat_sub(36, label@.len() as int) as int, 2)),
                    ),
                ));
            }
            assert(spans_view(l@) =~= palette_row_line(row, selected));
            push_styled(out, l);
        },
    }
}

/// The lines of the palette popup for the search `query` with entry `index` highlighted
/// (see [`palette_popup_view`]).
pub fn palette_popup_lines(query: &str, index: usize) -> (r: Vec<Vec<(Tone, String)>>)
    ensures
        styled_view(r@) == palette_popup_view(query@, index as nat),
{
    let rows = filter_palette_rows(query);
    let sel = palette_selectable_indices(&rows);
    let pick: usize = if sel.len() == 0 {
        0
    } else {
        sel[clamp_exec(index, sel.len())]
    };
    let mut out: Vec<Vec<(Tone, String)>> = Vec::new();
    let shown = if query.is_empty() {
        String::from_str("type to filter")
    } else {
        query.to_string()
    };
    let l = vec![(Tone::MutedBold, String::from_str("  Search ")), (Tone::Text, shown)];
    assert(spans_view(l@) =~= seq![
        (Tone::MutedBold, "  Search "@),
        (Tone::Text, if query@.len() == 0 { "type to filter"@ } else { query@ }),
    ]);
    push_styled(&mut out, l);
    push_empty(&mut out);
    let ghost head = styled_view(out@);
    let ghost rv = rows@;
    if sel.len() == 0 {
        let l = vec![(Tone::Muted, String::from_str(" No matching commands"))];
        assert(spans_view(l@) =~= seq![(Tone::Muted, " No matching commands"@)]);
        push_styled(&mut out, l);
    } else {
        let scroll = if pick >= 5 {
            pick - 5
        } else {
            0
        };
        let end = if rows.len() - scroll >= COMMAND_PALETTE_MAX_ROWS {
            scroll + COMMAND_PALETTE_MAX_ROWS
        } else {
            rows.len()
        };
        let ghost body = Seq::new(
            sat_sub(end as int, scroll as int),
            |k: int| palette_row_line(rv[scroll + k], scroll + k == pick),
        );
        let mut i = scroll;
        while i < end
            invariant
                scroll <= i <= end || (i == scroll && end < scroll),
                end <= rv.len(),
                rv == rows@,
                body == Seq::new(
                    sat_sub(end as int, scroll as int),
                    |k: int| palette_row_line(rv[scroll + k], scroll + k == pick),
                ),
                styled_view(out@) == head + body.take(i - scroll),
            decreases end - i,
        {
            push_row_line(&mut out, rows[i], i == pick);
            assert(body.take(i + 1 - scroll) =~= body.take(i - scroll).push(body[i - scroll]));
            i = i + 1;
        }
        assert(body.take(sat_sub(end as int, scroll as int) as int) =~= body);
    }
    push_empty(&mut out);
    push_muted(&mut out, String::from_str(" Enter apply · Esc close "));
    assert(styled_view(out@) =~= palette_popup_view(query@, index as nat));
    out
}

/// Rows of the palette popup for `filtered_len` rows: between one and ten of them, the
/// search line, spacing, footer and borders.
pub fn palette_popup_height(filtered_len: usize) -> (h: u16)
    ensures
        h == (if filtered_len < 1 {
            1
        } else if filtered_len > COMMAND_PALETTE_MAX_ROWS {
            COMMAND_PALETTE_MAX_ROWS as int
        } else {
            filtered_len as int
        }) + 6,
{
    let vis: u16 = if filtered_len < 1 {
        1
    } else if filtered_len > COMMAND_PALETTE_MAX_ROWS {
        10
    } else {
        filtered_len as u16
    };
    vis + 6
}

} // verus!
