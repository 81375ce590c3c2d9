//! The slash panel: the commands and skills it offers, the order it lists them in, and
//! which of them match what is typed.

use crate::approval::{to_lowercase, unicode_lower};
use crate::composer::{at_completion_matches, at_matches, slash_panel_visible, slash_visible};
use crate::layout::{at_panel_height, chrome_rows, slash_panel_height};
use crate::text::{chars_of, has_prefix, lower, lower_vec, starts_with_vec};
use crate::session_list::{
    lemma_text_lt_asym, lemma_text_lt_irreflexive, lemma_text_lt_total, lemma_text_lt_trans, text_less,
    text_lt,
};
use crate::text::eq_vec;
use crate::wrap::views;
use vstd::prelude::*;

verus! {

/// Where a discovered skill was defined.
#[derive(Clone, Copy, Debug, PartialEq, Eq, Structural)]
pub enum SkillSource {
    AgentsMd,
    FileSystem,
}

/// An entry of the slash panel: a built-in command (written with its `/`) or a skill.
#[derive(Clone, Debug)]
pub enum SlashEntry {
    Command(String),
    Skill { command: String, description: Option<String>, source: SkillSource },
}

/// Width the skill name is padded to before its description.
pub const SKILL_NAME_COLUMNS: usize = 20;

/// The command an entry inserts: a built-in as written, a skill as `/` and its name.
pub open spec fn entry_command(e: SlashEntry) -> Seq<char> {
    match e {
        SlashEntry::Command(s) => s@,
        SlashEntry::Skill { command, .. } => seq!['/'] + command@,
    }
}

/// `s` followed by spaces up to `w` characters (unchanged when already that long).
pub open spec fn pad_right(s: Seq<char>, w: nat) -> Seq<char> {
    if s.len() >= w {
        s
    } else {
        s + Seq::new((w - s.len()) as nat, |i: int| ' ')
    }
}

/// The tag that says where a skill comes from.
pub open spec fn source_tag(src: SkillSource) -> Seq<char> {
    match src {
        SkillSource::AgentsMd => " (AGENTS.md)"@,
        SkillSource::FileSystem => " (skill dir)"@,
    }
}

/// How the panel shows an entry: a built-in as written; a skill as `/name`, padded to
/// [`SKILL_NAME_COLUMNS`] and followed by ` — ` and its description when it has one, then
/// its source tag.
pub open spec fn entry_display(e: SlashEntry) -> Seq<char> {
    match e {
        SlashEntry::Command(s) => s@,
        SlashEntry::Skill { command, description, source } => match description {
            Some(d) => seq!['/'] + pad_right(command@, SKILL_NAME_COLUMNS as nat) + " — "@ + d@
                + source_tag(source),
            None => seq!['/'] + command@ + source_tag(source),
        },
    }
}

fn append_str(s: &mut String, a: &str)
    ensures
        final(s)@ == old(s)@ + a@,
{
    s.append(a);
}

impl SlashEntry {
    /// The command the entry inserts (see [`entry_command`]).
    pub fn command_str(&self) -> (r: String)
        ensures
            r@ == entry_command(*self),
    {
        match self {
            SlashEntry::Command(s) => s.clone(),
            SlashEntry::Skill { command, .. } => {
                let mut r = String::new();
                crate::text::push_char(&mut r, '/');
                append_str(&mut r, command.as_str());
                assert(r@ =~= seq!['/'] + command@);
                r
            },
        }
    }

    /// The entry's line in the panel (see [`entry_display`]).
    pub fn display_text(&self) -> (r: String)
        ensures
            r@ == entry_display(*self),
    {
        match self {
            SlashEntry::Command(s) => s.clone(),
            SlashEntry::Skill { command, description, source } => {
                let mut r = String::new();
                crate::text::push_char(&mut r, '/');
                append_str(&mut r, command.as_str());
                let tag: &str = match source {
                    SkillSource::AgentsMd => " (AGENTS.md)",
                    SkillSource::FileSystem => " (skill dir)",
                };
                match description {
                    Some(d) => {
                        let n = chars_of(command.as_str()).len();
                        let mut k = n;
                        let ghost head = r@;
                        assert(r@ =~= head + Seq::new(0nat, |i: int| ' '));
                        while k < SKILL_NAME_COLUMNS
                            invariant
                                n == command@.len(),
                                n <= k <= SKILL_NAME_COLUMNS || (k == n && n > SKILL_NAME_COLUMNS),
                                r@ == head + Seq::new((k - n) as nat, |i: int| ' '),
                            decreases SKILL_NAME_COLUMNS - k,
                        {
                            crate::text::push_char(&mut r, ' ');
                            assert(r@ =~= head + Seq::new((k + 1 - n) as nat, |i: int| ' '));
                            k += 1;
                        }
                        assert(seq!['/'] + pad_right(command@, SKILL_NAME_COLUMNS as nat) =~= r@);
                        append_str(&mut r, " — ");
                        append_str(&mut r, d.as_str());
                        append_str(&mut r, tag);
                        assert(r@ =~= entry_display(*self));
                    },
                    None => {
                        append_str(&mut r, tag);
                        assert(r@ =~= entry_display(*self));
                    },
                }
                r
            },
        }
    }
}

/// `s` without its leading `/` characters.
pub open spec fn strip_slashes(s: Seq<char>) -> Seq<char>
    decreases s.len(),
{
    if s.len() > 0 && s[0] == '/' {
        strip_slashes(s.drop_first())
    } else {
        s
    }
}

fn strip_slashes_vec(v: &[char]) -> (r: Vec<char>)
    ensures
        r@ == strip_slashes(v@),
{
    let mut i: usize = 0;
    assert(v@.skip(0) =~= v@);
    while i < v.len() && v[i] == '/'
        invariant
            i <= v@.len(),
            strip_slashes(v@) == strip_slashes(v@.skip(i as int)),
        decreases v@.len() - i,
    {
        assert(v@.skip(i as int).drop_first() =~= v@.skip(i + 1));
        i += 1;
    }
    let r = crate::text::slice_vec(v, i, v.len());
    assert(r@ =~= v@.skip(i as int));
    r
}

/// An entry matches what is typed when its command, without leading slashes and
/// lower-cased, starts with the typed text treated the same way.
pub open spec fn entry_matches(e: SlashEntry, typed: Seq<char>) -> bool {
    has_prefix(unicode_lower(strip_slashes(entry_command(e))), unicode_lower(strip_slashes(typed)))
}

/// Indices among the first `n` entries that match `typed`, ascending.
pub open spec fn matching_entries_prefix(entries: Seq<SlashEntry>, typed: Seq<char>, n: nat) -> Seq<
    int,
>
    decreases n,
{
    if n == 0 {
        seq![]
    } else {
        let prev = matching_entries_prefix(entries, typed, (n - 1) as nat);
        if entry_matches(entries[n - 1], typed) {
            prev.push(n - 1)
        } else {
            prev
        }
    }
}

/// The entries the panel offers for `typed`, by index: none unless the panel is visible.
pub open spec fn matching_entries(entries: Seq<SlashEntry>, typed: Seq<char>) -> Seq<int> {
    if slash_visible(typed) {
        matching_entries_prefix(entries, typed, entries.len())
    } else {
        seq![]
    }
}

/// The indices of the entries that match the buffer, in panel order (see
/// [`matching_entries`]).
pub fn filter_slash_entries(entries: &[SlashEntry], buffer: &str) -> (r: Vec<usize>)
    ensures
        r@.map_values(|i: usize| i as int) == matching_entries(entries@, buffer@),
        forall|k: int| 0 <= k < r@.len() ==> r@[k] < entries@.len(),
{
    let mut r: Vec<usize> = Vec::new();
    if !slash_panel_visible(buffer) {
        assert(r@.map_values(|i: usize| i as int) =~= Seq::<int>::empty());
        return r;
    }
    let typed = chars_of(to_lowercase(chars_as_string(&strip_slashes_vec(&chars_of(buffer))).as_str()).as_str());
    let mut i: usize = 0;
    while i < entries.len()
        invariant
            i <= entries@.len(),
            slash_visible(buffer@),
            typed@ == unicode_lower(strip_slashes(buffer@)),
            r@.map_values(|k: usize| k as int) == matching_entries_prefix(entries@, buffer@, i as nat),
            forall|k: int| 0 <= k < r@.len() ==> r@[k] < i,
        decreases entries@.len() - i,
    {
        let cmd = entries[i].command_str();
        let key = chars_of(to_lowercase(chars_as_string(&strip_slashes_vec(&chars_of(cmd.as_str()))).as_str()).as_str());
        let ghost r0 = r@;
        if starts_with_vec(&key, &typed) {
            r.push(i);
            assert(r@.map_values(|k: usize| k as int) =~= r0.map_values(|k: usize| k as int).push(
                i as int,
            ));
        }
        i += 1;
    }
    r
}

fn chars_as_string(v: &Vec<char>) -> (s: String)
    ensures
        s@ == v@,
{
    crate::text::string_of(v.as_slice())
}

/// Height of the composer's completion area for this buffer and cursor (see
/// [`chrome_rows`]).
pub fn composer_chrome_height(
    slash_entries: &[SlashEntry],
    workspace_files: &[String],
    buffer: &str,
    cursor_char_idx: usize,
) -> (h: u16)
    ensures
        h as nat == chrome_rows(
            slash_visible(buffer@),
            matching_entries(slash_entries@, buffer@).len(),
            at_matches(views(workspace_files@), buffer@, cursor_char_idx as nat).len(),
        ),
{
    let slash_filtered = filter_slash_entries(slash_entries, buffer);
    let at = at_completion_matches(workspace_files, buffer, cursor_char_idx);
    assert(slash_filtered@.map_values(|i: usize| i as int).len() == slash_filtered@.len());
    assert(views(at@).len() == at@.len());
    let slash_h: u16 = if slash_panel_visible(buffer) {
        slash_panel_height(slash_filtered.len())
    } else {
        0
    };
    let at_h: u16 = if at.len() > 0 {
        at_panel_height(at.len())
    } else {
        0
    };
    if slash_h >= at_h {
        slash_h
    } else {
        at_h
    }
}

/// The key the panel orders entries by: the lower-cased command.
pub open spec fn entry_key(e: SlashEntry) -> Seq<char> {
    unicode_lower(entry_command(e))
}

/// Where a stable insertion puts `x` among the first `j` entries of `s`: after the last of
/// them whose key does not come after `x`'s.
pub open spec fn insert_pos(s: Seq<SlashEntry>, x: SlashEntry, j: nat) -> nat
    decreases j,
{
    if j == 0 || j > s.len() || !text_lt(entry_key(x), entry_key(s[j - 1])) {
        j
    } else {
        insert_pos(s, x, (j - 1) as nat)
    }
}

/// `s` with `x` inserted by key, after the entries whose key equals its own.
pub open spec fn insert_by_key(s: Seq<SlashEntry>, x: SlashEntry) -> Seq<SlashEntry> {
    s.insert(insert_pos(s, x, s.len()) as int, x)
}

/// `s` stably sorted by [`entry_key`].
pub open spec fn sort_by_key(s: Seq<SlashEntry>) -> Seq<SlashEntry>
    decreases s.len(),
{
    if s.len() == 0 {
        seq![]
    } else {
        insert_by_key(sort_by_key(s.drop_last()), s.last())
    }
}

/// Two entries insert the same command up to ASCII case.
pub open spec fn same_command(a: SlashEntry, b: SlashEntry) -> bool {
    lower(entry_command(a)) == lower(entry_command(b))
}

/// `s` without each entry whose command equals that of the entry kept before it, up to
/// ASCII case.
pub open spec fn dedup_commands(s: Seq<SlashEntry>) -> Seq<SlashEntry>
    decreases s.len(),
{
    if s.len() == 0 {
        seq![]
    } else {
        let d = dedup_commands(s.drop_last());
        if d.len() > 0 && same_command(d.last(), s.last()) {
            d
        } else {
            d.push(s.last())
        }
    }
}

/// The built-in commands as panel entries.
pub open spec fn command_entries(commands: Seq<String>) -> Seq<SlashEntry> {
    commands.map_values(|c: String| SlashEntry::Command(c))
}

/// The panel's entries: the built-in commands and the skills, sorted by lower-cased
/// command, without repeated commands.
pub open spec fn panel_entries(commands: Seq<String>, skills: Seq<SlashEntry>) -> Seq<SlashEntry> {
    dedup_commands(sort_by_key(command_entries(commands) + skills))
}

fn entry_key_of(e: &SlashEntry) -> (r: String)
    ensures
        r@ == entry_key(*e),
{
    to_lowercase(e.command_str().as_str())
}

fn sort_entries(all: Vec<SlashEntry>) -> (r: Vec<SlashEntry>)
    ensures
        r@ == sort_by_key(all@),
{
    let ghost a = all@;
    let mut rest = all;
    let mut out: Vec<SlashEntry> = Vec::new();
    let mut keys: Vec<String> = Vec::new();
    let n = rest.len();
    let mut i: usize = 0;
    assert(a.take(0) =~= Seq::<SlashEntry>::empty());
    assert(a.skip(0) =~= a);
    while i < n
        invariant
            n == a.len(),
            i <= n,
            rest@ == a.skip(i as int),
            out@ == sort_by_key(a.take(i as int)),
            keys@.len() == out@.len(),
            forall|k: int| 0 <= k < keys@.len() ==> (#[trigger] keys@[k])@ == entry_key(out@[k]),
        decreases n - i,
    {
        let x = rest.remove(0);
        assert(rest@ =~= a.skip(i + 1));
        let kx = entry_key_of(&x);
        let mut j = out.len();
        while j > 0 && text_less(kx.as_str(), keys[j - 1].as_str())
            invariant
                j <= out@.len(),
                keys@.len() == out@.len(),
                forall|k: int| 0 <= k < keys@.len() ==> (#[trigger] keys@[k])@ == entry_key(out@[k]),
                kx@ == entry_key(x),
                insert_pos(out@, x, out@.len()) == insert_pos(out@, x, j as nat),
            decreases j,
        {
            j -= 1;
        }
        assert(insert_pos(out@, x, j as nat) == j);
        let ghost o0 = out@;
        let ghost k0 = keys@;
        out.insert(j, x);
        keys.insert(j, kx);
        assert forall|k: int| 0 <= k < keys@.len() implies (#[trigger] keys@[k])@ == entry_key(out@[k]) by {
            if k < j {
                assert(keys@[k] == k0[k] && out@[k] == o0[k]);
            } else if k > j {
                assert(keys@[k] == k0[k - 1] && out@[k] == o0[k - 1]);
            }
        }
        assert(a.take(i + 1).drop_last() =~= a.take(i as int));
        assert(a.take(i + 1).last() == x);
        i += 1;
    }
    assert(a.take(n as int) =~= a);
    out
}

fn dedup_entries(sorted: Vec<SlashEntry>) -> (r: Vec<SlashEntry>)
    ensures
        r@ == dedup_commands(sorted@),
{
    let ghost a = sorted@;
    let mut rest = sorted;
    let mut out: Vec<SlashEntry> = Vec::new();
    let mut last_low: Vec<char> = Vec::new();
    let n = rest.len();
    let mut i: usize = 0;
    assert(a.take(0) =~= Seq::<SlashEntry>::empty());
    assert(a.skip(0) =~= a);
    while i < n
        invariant
            n == a.len(),
            i <= n,
            rest@ == a.skip(i as int),
            out@ == dedup_commands(a.take(i as int)),
            out@.len() > 0 ==> last_low@ == lower(entry_command(out@.last())),
        decreases n - i,
    {
        let x = rest.remove(0);
        assert(rest@ =~= a.skip(i + 1));
        let low = lower_vec(&chars_of(x.command_str().as_str()));
        assert(a.take(i + 1).drop_last() =~= a.take(i as int));
        assert(a.take(i + 1).last() == x);
        if out.len() > 0 && eq_vec(&low, &last_low) {
        } else {
            out.push(x);
            last_low = low;
        }
        i += 1;
    }
    assert(a.take(n as int) =~= a);
    out
}

/// The slash panel's entries: the built-in `commands` and the discovered `skills`, sorted
/// by lower-cased command, each command once up to ASCII case (the first in that order
/// stays).
pub fn load_slash_entries(commands: &[String], skills: Vec<SlashEntry>) -> (r: Vec<SlashEntry>)
    ensures
        r@ == panel_entries(commands@, skills@),
{
    let mut all: Vec<SlashEntry> = Vec::new();
    let mut i: usize = 0;
    while i < commands.len()
        invariant
            i <= commands@.len(),
            all@ == command_entries(commands@.take(i as int)),
        decreases commands@.len() - i,
    {
        all.push(SlashEntry::Command(commands[i].clone()));
        assert(command_entries(commands@.take(i + 1)) =~= command_entries(commands@.take(i as int)).push(
            SlashEntry::Command(commands@[i as int]),
        ));
        i += 1;
    }
    assert(commands@.take(commands@.len() as int) =~= commands@);
    let ghost head = all@;
    let mut rest = skills;
    let ghost sk = rest@;
    let mut k: usize = 0;
    let m = rest.len();
    assert(sk.skip(0) =~= sk);
    while k < m
        invariant
            m == sk.len(),
            k <= m,
            rest@ == sk.skip(k as int),
            all@ == head + sk.take(k as int),
        decreases m - k,
    {
        let x = rest.remove(0);
        assert(rest@ =~= sk.skip(k + 1));
        all.push(x);
        assert(head + sk.take(k + 1) =~= (head + sk.take(k as int)).push(x));
        k += 1;
    }
    assert(sk.take(m as int) =~= sk);
    dedup_entries(sort_entries(all))
}

/// The entries' keys never decrease.
pub open spec fn keys_sorted(s: Seq<SlashEntry>) -> bool {
    forall|a: int, b: int| 0 <= a < b < s.len() ==> !text_lt(entry_key(s[b]), entry_key(s[a]))
}

/// No entry has the same command as the one after it, up to ASCII case.
pub open spec fn no_adjacent_repeats(s: Seq<SlashEntry>) -> bool {
    forall|a: int| 0 <= a < s.len() - 1 ==> !same_command(#[trigger] s[a], s[a + 1])
}

proof fn lemma_not_lt_trans(x: Seq<char>, y: Seq<char>, z: Seq<char>)
    requires
        !text_lt(y, x),
        !text_lt(z, y),
    ensures
        !text_lt(z, x),
{
    lemma_text_lt_total(x, y);
    if text_lt(z, x) && text_lt(x, y) {
        lemma_text_lt_trans(z, x, y);
    }
}

proof fn lemma_insert_pos(s: Seq<SlashEntry>, x: SlashEntry, j: nat)
    requires
        j <= s.len(),
    ensures
        insert_pos(s, x, j) <= j,
        forall|k: int| insert_pos(s, x, j) <= k < j ==> text_lt(entry_key(x), entry_key(#[trigger] s[k])),
        insert_pos(s, x, j) > 0 ==> !text_lt(entry_key(x), entry_key(s[insert_pos(s, x, j) - 1])),
    decreases j,
{
    if j > 0 && text_lt(entry_key(x), entry_key(s[j - 1])) {
        lemma_insert_pos(s, x, (j - 1) as nat);
    }
}

proof fn lemma_insert_sorted(s: Seq<SlashEntry>, x: SlashEntry)
    requires
        keys_sorted(s),
    ensures
        keys_sorted(insert_by_key(s, x)),
        insert_by_key(s, x).len() == s.len() + 1,
        forall|k: int| 0 <= k < s.len() ==> insert_by_key(s, x).contains(#[trigger] s[k]),
        insert_by_key(s, x).contains(x),
        forall|k: int| 0 <= k < s.len() + 1 ==> (#[trigger] insert_by_key(s, x)[k] == x || s.contains(
            insert_by_key(s, x)[k],
        )),
{
    let p = insert_pos(s, x, s.len()) as int;
    lemma_insert_pos(s, x, s.len());
    let r = insert_by_key(s, x);
    assert(r == s.insert(p, x));
    assert forall|a: int, b: int| 0 <= a < b < r.len() implies !text_lt(entry_key(r[b]), entry_key(r[a])) by {
        if b < p {
            assert(r[a] == s[a] && r[b] == s[b]);
        } else if a > p {
            assert(r[a] == s[a - 1] && r[b] == s[b - 1]);
        } else if a < p && b > p {
            assert(r[a] == s[a] && r[b] == s[b - 1]);
        } else if b == p {
            assert(r[a] == s[a] && r[b] == x);
            assert(!text_lt(entry_key(s[p - 1]), entry_key(s[a])) || a == p - 1);
            if a < p - 1 {
                lemma_not_lt_trans(entry_key(s[a]), entry_key(s[p - 1]), entry_key(x));
            }
        } else {
            assert(a == p && r[a] == x && r[b] == s[b - 1]);
            assert(text_lt(entry_key(x), entry_key(s[b - 1])));
            lemma_text_lt_asym(entry_key(x), entry_key(s[b - 1]));
        }
    }
    assert forall|k: int| 0 <= k < s.len() implies r.contains(#[trigger] s[k]) by {
        if k < p {
            assert(r[k] == s[k]);
        } else {
            assert(r[k + 1] == s[k]);
        }
    }
    assert(r[p] == x);
    assert forall|k: int| 0 <= k < s.len() + 1 implies (#[trigger] r[k] == x || s.contains(r[k])) by {
        if k < p {
            assert(r[k] == s[k]);
        } else if k > p {
            assert(r[k] == s[k - 1]);
        }
    }
}

proof fn lemma_sort(s: Seq<SlashEntry>)
    ensures
        keys_sorted(sort_by_key(s)),
        sort_by_key(s).len() == s.len(),
        forall|i: int| 0 <= i < s.len() ==> sort_by_key(s).contains(#[trigger] s[i]),
        forall|k: int| 0 <= k < s.len() ==> s.contains(#[trigger] sort_by_key(s)[k]),
    decreases s.len(),
{
    if s.len() > 0 {
        let t = s.drop_last();
        lemma_sort(t);
        let st = sort_by_key(t);
        lemma_insert_sorted(st, s.last());
        let r = sort_by_key(s);
        assert forall|i: int| 0 <= i < s.len() implies r.contains(#[trigger] s[i]) by {
            if i < s.len() - 1 {
                assert(s[i] == t[i]);
                let k = choose|k: int| 0 <= k < st.len() && st[k] == t[i];
                assert(r.contains(st[k]));
            }
        }
        assert forall|k: int| 0 <= k < s.len() implies s.contains(#[trigger] r[k]) by {
            if r[k] == s.last() {
                assert(s[s.len() - 1] == r[k]);
            } else {
                assert(st.contains(r[k]));
                let m = choose|m: int| 0 <= m < st.len() && st[m] == r[k];
                assert(t.contains(st[m]));
                let q = choose|q: int| 0 <= q < t.len() && t[q] == st[m];
                assert(s[q] == t[q]);
            }
        }
    }
}

proof fn lemma_dedup_members(s: Seq<SlashEntry>)
    ensures
        forall|k: int| 0 <= k < dedup_commands(s).len() ==> s.contains(#[trigger] dedup_commands(s)[k]),
    decreases s.len(),
{
    if s.len() > 0 {
        let t = s.drop_last();
        lemma_dedup_members(t);
        let d = dedup_commands(t);
        let r = dedup_commands(s);
        assert forall|k: int| 0 <= k < r.len() implies s.contains(#[trigger] r[k]) by {
            if k < d.len() {
                assert(r[k] == d[k]);
                assert(t.contains(d[k]));
                let q = choose|q: int| 0 <= q < t.len() && t[q] == d[k];
                assert(s[q] == t[q]);
            } else {
                assert(s[s.len() - 1] == r[k]);
            }
        }
    }
}

proof fn lemma_dedup_covers(s: Seq<SlashEntry>)
    ensures
        forall|i: int| #![trigger s[i]] 0 <= i < s.len() ==> exists|k: int|
            0 <= k < dedup_commands(s).len() && same_command(#[trigger] dedup_commands(s)[k], s[i]),
        s.len() > 0 ==> dedup_commands(s).len() > 0 && same_command(dedup_commands(s).last(), s.last()),
    decreases s.len(),
{
    if s.len() > 0 {
        let t = s.drop_last();
        lemma_dedup_covers(t);
        let d = dedup_commands(t);
        let r = dedup_commands(s);
        assert forall|i: int| #![trigger s[i]] 0 <= i < s.len() implies exists|k: int|
            0 <= k < r.len() && same_command(#[trigger] r[k], s[i]) by {
            if i < s.len() - 1 {
                assert(s[i] == t[i]);
                let k = choose|k: int| 0 <= k < d.len() && same_command(#[trigger] d[k], t[i]);
                assert(r[k] == d[k]);
            } else {
                assert(same_command(r[r.len() - 1], s[i]));
            }
        }
    }
}

proof fn lemma_dedup_sorted(s: Seq<SlashEntry>)
    requires
        keys_sorted(s),
    ensures
        keys_sorted(dedup_commands(s)),
    decreases s.len(),
{
    if s.len() > 0 {
        let t = s.drop_last();
        assert forall|a: int, b: int| 0 <= a < b < t.len() implies !text_lt(
            entry_key(t[b]),
            entry_key(t[a]),
        ) by {
            assert(t[a] == s[a] && t[b] == s[b]);
        }
        lemma_dedup_sorted(t);
        lemma_dedup_members(t);
        let d = dedup_commands(t);
        let r = dedup_commands(s);
        assert forall|a: int, b: int| 0 <= a < b < r.len() implies !text_lt(
            entry_key(r[b]),
            entry_key(r[a]),
        ) by {
            if b < d.len() {
                assert(r[a] == d[a] && r[b] == d[b]);
            } else {
                assert(r[b] == s.last() && r[a] == d[a]);
                assert(t.contains(d[a]));
                let q = choose|q: int| 0 <= q < t.len() && t[q] == d[a];
                assert(s[q] == d[a]);
                assert(!text_lt(entry_key(s[s.len() - 1]), entry_key(s[q])));
            }
        }
    }
}

proof fn lemma_dedup_no_repeats(s: Seq<SlashEntry>)
    ensures
        no_adjacent_repeats(dedup_commands(s)),
    decreases s.len(),
{
    if s.len() > 0 {
        let t = s.drop_last();
        lemma_dedup_no_repeats(t);
        let d = dedup_commands(t);
        let r = dedup_commands(s);
        assert forall|a: int| 0 <= a < r.len() - 1 implies !same_command(#[trigger] r[a], r[a + 1]) by {
            if a + 1 < d.len() {
                assert(r[a] == d[a] && r[a + 1] == d[a + 1]);
            } else {
                assert(r[a] == d.last());
            }
        }
    }
}

/// The slash panel lists its entries ordered by lower-cased command, never shows the same
/// command twice in a row (up to ASCII case), shows only entries it was given, and shows
/// every given command in some spelling.
pub proof fn law_panel_entries_ordered(commands: Seq<String>, skills: Seq<SlashEntry>)
    ensures
        keys_sorted(panel_entries(commands, skills)),
        no_adjacent_repeats(panel_entries(commands, skills)),
        forall|k: int| 0 <= k < panel_entries(commands, skills).len() ==> (command_entries(commands)
            + skills).contains(#[trigger] panel_entries(commands, skills)[k]),
        forall|i: int| #![trigger (command_entries(commands) + skills)[i]]
            0 <= i < (command_entries(commands) + skills).len() ==> exists|k: int|
            0 <= k < panel_entries(commands, skills).len() && same_command(
                #[trigger] panel_entries(commands, skills)[k],
                (command_entries(commands) + skills)[i],
            ),
{
    let all = command_entries(commands) + skills;
    let sorted = sort_by_key(all);
    lemma_sort(all);
    lemma_dedup_members(sorted);
    lemma_dedup_covers(sorted);
    lemma_dedup_sorted(sorted);
    lemma_dedup_no_repeats(sorted);
    let r = panel_entries(commands, skills);
    assert forall|k: int| 0 <= k < r.len() implies all.contains(#[trigger] r[k]) by {
        assert(sorted.contains(r[k]));
        let m = choose|m: int| 0 <= m < sorted.len() && sorted[m] == r[k];
        assert(all.contains(sorted[m]));
    }
    assert forall|i: int| #![trigger all[i]] 0 <= i < all.len() implies exists|k: int|
        0 <= k < r.len() && same_command(#[trigger] r[k], all[i]) by {
        assert(sorted.contains(all[i]));
        let m = choose|m: int| 0 <= m < sorted.len() && sorted[m] == all[i];
        let k = choose|k: int| 0 <= k < r.len() && same_command(#[trigger] r[k], sorted[m]);
    }
}

} // verus!
