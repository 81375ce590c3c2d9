//! Editing keys of the composer line: cursor motion, typing and deletion, the `@` and
//! slash completion menus, and what Enter hands on.

use crate::composer::{
    apply_selected_at_completion, at_completion_matches, at_matches, completed_mention,
    delete_completed_at_mention, selected_completion, slash_panel_visible, slash_visible,
};
use crate::keys::{is_typing, KeyCode, KeyEvent, MOD_CONTROL};
use crate::slash::{entry_command, filter_slash_entries, matching_entries, SlashEntry};
use crate::text::{chars_of, string_of};
use crate::wrap::views;
use vstd::prelude::*;

verus! {

/// The composer line: its text, the cursor (a character index) and the selected rows of
/// the slash and `@` menus.
pub struct ComposerState {
    pub input_buffer: String,
    pub cursor_char_idx: usize,
    pub slash_menu_index: usize,
    pub at_menu_index: usize,
}

/// The composer as a value: text, cursor, slash selection, `@` selection.
pub struct ComposerModel {
    pub buffer: Seq<char>,
    pub cursor: nat,
    pub slash_index: nat,
    pub at_index: nat,
}

impl View for ComposerState {
    type V = ComposerModel;

    open spec fn view(&self) -> ComposerModel {
        ComposerModel {
            buffer: self.input_buffer@,
            cursor: self.cursor_char_idx as nat,
            slash_index: self.slash_menu_index as nat,
            at_index: self.at_menu_index as nat,
        }
    }
}

/// What the session does after a composer key beyond the composer itself.
#[derive(Clone, Debug)]
pub enum ComposerEffect {
    NoOp,
    /// Scroll the transcript up one line (no menu took the key).
    ScrollUp,
    /// Scroll the transcript down one line (no menu took the key).
    ScrollDown,
    /// Jump to the end of the transcript and follow it.
    FollowTail,
    /// Switch to the next agent profile (Tab with nothing to complete).
    CycleAgent,
    /// The line was submitted.
    Submit(String),
}

/// The kind of a [`ComposerEffect`], with the submitted text for `Submit`.
pub enum EffectKind {
    NoOp,
    ScrollUp,
    ScrollDown,
    FollowTail,
    CycleAgent,
    Submit(Seq<char>),
}

/// An effect has the given kind.
pub open spec fn effect_is(e: ComposerEffect, k: EffectKind) -> bool {
    match (e, k) {
        (ComposerEffect::NoOp, EffectKind::NoOp) => true,
        (ComposerEffect::ScrollUp, EffectKind::ScrollUp) => true,
        (ComposerEffect::ScrollDown, EffectKind::ScrollDown) => true,
        (ComposerEffect::FollowTail, EffectKind::FollowTail) => true,
        (ComposerEffect::CycleAgent, EffectKind::CycleAgent) => true,
        (ComposerEffect::Submit(line), EffectKind::Submit(t)) => line@ == t,
        _ => false,
    }
}

/// The cursor lies within the text.
pub open spec fn composer_ok(m: ComposerModel) -> bool {
    m.cursor <= m.buffer.len()
}

/// The slash selection after an edit: clamped to the last match while the panel shows
/// matches; reset to the first when a deletion leaves the panel with none.
pub open spec fn slash_after_edit(
    idx: nat,
    buffer: Seq<char>,
    entries: Seq<SlashEntry>,
    deleting: bool,
) -> nat {
    let n = matching_entries(entries, buffer).len();
    if !slash_visible(buffer) {
        idx
    } else if n > 0 {
        if idx < n {
            idx
        } else {
            (n - 1) as nat
        }
    } else if deleting {
        0
    } else {
        idx
    }
}

/// The text and cursor after Backspace: nothing at the start of the line; a completed
/// `@` mention before the cursor goes as one token; otherwise the character before the
/// cursor.
pub open spec fn backspaced(s: Seq<char>, cursor: nat) -> (Seq<char>, nat) {
    match completed_mention(s, cursor) {
        Some((a, b)) => (s.take(a as int) + s.skip(b as int), a),
        None => (s.remove(cursor - 1), (cursor - 1) as nat),
    }
}

/// What a key does to the composer, given the slash entries and workspace files, and what
/// it asks of the session (keys it does not handle change nothing).
pub open spec fn composer_step(
    m: ComposerModel,
    key: KeyEvent,
    entries: Seq<SlashEntry>,
    files: Seq<Seq<char>>,
) -> (ComposerModel, EffectKind) {
    let len = m.buffer.len();
    let at = at_matches(files, m.buffer, m.cursor);
    let slash = matching_entries(entries, m.buffer);
    let slash_shown = slash.len() > 0 && slash_visible(m.buffer);
    match key.code {
        KeyCode::Tab => match selected_completion(files, m.buffer, m.cursor, m.at_index, false) {
            Some((b, c)) => (ComposerModel { buffer: b, cursor: c, ..m }, EffectKind::NoOp),
            None => if slash_shown {
                let cmd = entry_command(entries[slash[(m.slash_index % slash.len()) as int]]);
                (ComposerModel { buffer: cmd, cursor: cmd.len(), ..m }, EffectKind::NoOp)
            } else {
                (m, EffectKind::CycleAgent)
            },
        },
        KeyCode::Enter => match selected_completion(files, m.buffer, m.cursor, m.at_index, true) {
            Some((b, c)) => (ComposerModel { buffer: b, cursor: c, ..m }, EffectKind::NoOp),
            None => (
                ComposerModel { buffer: Seq::empty(), cursor: 0, slash_index: 0, ..m },
                EffectKind::Submit(m.buffer),
            ),
        },
        KeyCode::Home => (ComposerModel { cursor: 0, ..m }, EffectKind::NoOp),
        KeyCode::Char('a') if key.modifiers == MOD_CONTROL => (
            ComposerModel { cursor: 0, ..m },
            EffectKind::NoOp,
        ),
        KeyCode::Char('e') if key.modifiers == MOD_CONTROL => (
            ComposerModel { cursor: len, ..m },
            EffectKind::NoOp,
        ),
        KeyCode::End => if len > 0 {
            (ComposerModel { cursor: len, ..m }, EffectKind::NoOp)
        } else {
            (m, EffectKind::FollowTail)
        },
        KeyCode::Left => (
            ComposerModel { cursor: if m.cursor > 0 { (m.cursor - 1) as nat } else { 0 }, ..m },
            EffectKind::NoOp,
        ),
        KeyCode::Right => (
            ComposerModel { cursor: if m.cursor + 1 < len { m.cursor + 1 } else { len }, ..m },
            EffectKind::NoOp,
        ),
        KeyCode::Up => if at.len() > 0 {
            (
                ComposerModel {
                    at_index: if m.at_index > 0 { (m.at_index - 1) as nat } else { 0 },
                    ..m
                },
                EffectKind::NoOp,
            )
        } else if slash_shown {
            (
                ComposerModel {
                    slash_index: if m.slash_index > 0 { (m.slash_index - 1) as nat } else { 0 },
                    ..m
                },
                EffectKind::NoOp,
            )
        } else {
            (m, EffectKind::ScrollUp)
        },
        KeyCode::Down => if at.len() > 0 {
            (ComposerModel { at_index: (m.at_index + 1) % at.len(), ..m }, EffectKind::NoOp)
        } else if slash_shown {
            (
                ComposerModel { slash_index: (m.slash_index + 1) % slash.len(), ..m },
                EffectKind::NoOp,
            )
        } else {
            (m, EffectKind::ScrollDown)
        },
        KeyCode::Backspace => if m.cursor > 0 {
            let (b, c) = backspaced(m.buffer, m.cursor);
            (
                ComposerModel {
                    buffer: b,
                    cursor: c,
                    slash_index: slash_after_edit(m.slash_index, b, entries, true),
                    ..m
                },
                EffectKind::NoOp,
            )
        } else {
            (m, EffectKind::NoOp)
        },
        KeyCode::Char(ch) => if is_typing(key) {
            let b = m.buffer.insert(m.cursor as int, ch);
            (
                ComposerModel {
                    buffer: b,
                    cursor: m.cursor + 1,
                    slash_index: slash_after_edit(m.slash_index, b, entries, false),
                    ..m
                },
                EffectKind::NoOp,
            )
        } else {
            (m, EffectKind::NoOp)
        },
        _ => (m, EffectKind::NoOp),
    }
}

fn next_index(x: usize, n: usize) -> (r: usize)
    requires
        n > 0,
    ensures
        r as int == (x + 1) % (n as int),
        r < n,
{
    proof {
        vstd::arithmetic::div_mod::lemma_add_mod_noop_right(1, x as int, n as int);
    }
    (x % n + 1) % n
}

/// The slash selection after an edit (see [`slash_after_edit`]).
fn slash_index_after_edit(idx: usize, buffer: &str, entries: &[SlashEntry], deleting: bool) -> (r:
    usize)
    ensures
        r as nat == slash_after_edit(idx as nat, buffer@, entries@, deleting),
{
    if !slash_panel_visible(buffer) {
        return idx;
    }
    let f = filter_slash_entries(entries, buffer);
    assert(f@.map_values(|i: usize| i as int).len() == f@.len());
    if f.len() > 0 {
        if idx < f.len() {
            idx
        } else {
            f.len() - 1
        }
    } else if deleting {
        0
    } else {
        idx
    }
}

/// `s` with its `i`-th character removed.
fn remove_char_at(s: &str, i: usize) -> (r: String)
    requires
        i < s@.len(),
    ensures
        r@ == s@.remove(i as int),
{
    let mut v = chars_of(s);
    v.remove(i);
    string_of(&v)
}

/// `s` with `c` inserted before its `i`-th character.
fn insert_char_at(s: &str, i: usize, c: char) -> (r: String)
    requires
        i <= s@.len(),
    ensures
        r@ == s@.insert(i as int, c),
        r@.len() <= usize::MAX,
{
    let mut v = chars_of(s);
    v.insert(i, c);
    let n = v.len();
    assert(v@.len() == n);
    string_of(&v)
}

proof fn lemma_completion_cursor(files: Seq<Seq<char>>, s: Seq<char>, cursor: nat, index: nat, space: bool)
    ensures
        selected_completion(files, s, cursor, index, space) matches Some((b, c)) ==> c <= b.len(),
{
    let m = at_matches(files, s, cursor);
    if m.len() > 0 && crate::composer::at_active(s, cursor) {
        let cc: int = if cursor <= s.len() { cursor as int } else { s.len() as int };
        let k = (crate::composer::at_token(s, cursor)->0).0;
        assert(k < cc);
    }
}

proof fn lemma_backspace_cursor(s: Seq<char>, cursor: nat)
    requires
        0 < cursor <= s.len(),
    ensures
        backspaced(s, cursor).1 <= backspaced(s, cursor).0.len(),
{
    if cursor <= s.len() && crate::composer::mention_ends_at(s, cursor as int) {
        crate::composer::lemma_run_start_bounds(s, cursor as int);
    } else if completed_mention(s, cursor) is Some {
        crate::composer::lemma_run_start_bounds(s, cursor - 1);
    }
}

impl ComposerState {
    /// An empty composer.
    pub fn new() -> (r: Self)
        ensures
            r@.buffer.len() == 0,
            r@.cursor == 0,
            r@.slash_index == 0,
            r@.at_index == 0,
    {
        ComposerState {
            input_buffer: String::new(),
            cursor_char_idx: 0,
            slash_menu_index: 0,
            at_menu_index: 0,
        }
    }

    /// Apply a key to the composer (see [`composer_step`]); the cursor stays within the
    /// text.
    pub fn handle_key(&mut self, key: KeyEvent, slash_entries: &[SlashEntry], workspace_files: &[String]) -> (e:
        ComposerEffect)
        requires
            composer_ok(old(self)@),
        ensures
            composer_ok(final(self)@),
            final(self)@ == composer_step(old(self)@, key, slash_entries@, views(workspace_files@)).0,
            effect_is(e, composer_step(old(self)@, key, slash_entries@, views(workspace_files@)).1),
    {
        let ghost m = self@;
        let ghost files = views(workspace_files@);
        proof {
            lemma_completion_cursor(files, m.buffer, m.cursor, m.at_index, false);
            lemma_completion_cursor(files, m.buffer, m.cursor, m.at_index, true);
        }
        match key.code {
            KeyCode::Tab => {
                match apply_selected_at_completion(
                    workspace_files,
                    self.input_buffer.as_str(),
                    self.cursor_char_idx,
                    self.at_menu_index,
                    false,
                ) {
                    Some((b, c)) => {
                        self.input_buffer = b;
                        self.cursor_char_idx = c;
                        ComposerEffect::NoOp
                    },
                    None => {
                        let f = filter_slash_entries(slash_entries, self.input_buffer.as_str());
                        assert(f@.map_values(|i: usize| i as int).len() == f@.len());
                        if f.len() > 0 && slash_panel_visible(self.input_buffer.as_str()) {
                            let pick = self.slash_menu_index % f.len();
                            assert(f@.map_values(|i: usize| i as int)[pick as int] == f@[pick as int] as int);
                            let cmd = slash_entries[f[pick]].command_str();
                            let n = chars_of(cmd.as_str()).len();
                            self.input_buffer = cmd;
                            self.cursor_char_idx = n;
                            ComposerEffect::NoOp
                        } else {
                            ComposerEffect::CycleAgent
                        }
                    },
                }
            },
            KeyCode::Enter => {
                match apply_selected_at_completion(
                    workspace_files,
                    self.input_buffer.as_str(),
                    self.cursor_char_idx,
                    self.at_menu_index,
                    true,
                ) {
                    Some((b, c)) => {
                        self.input_buffer = b;
                        self.cursor_char_idx = c;
                        ComposerEffect::NoOp
                    },
                    None => {
                        let mut line = String::new();
                        std::mem::swap(&mut line, &mut self.input_buffer);
                        self.cursor_char_idx = 0;
                        self.slash_menu_index = 0;
                        ComposerEffect::Submit(line)
                    },
                }
            },
            KeyCode::Home => {
                self.cursor_char_idx = 0;
                ComposerEffect::NoOp
            },
            KeyCode::End => {
                let n = chars_of(self.input_buffer.as_str()).len();
                if n > 0 {
                    self.cursor_char_idx = n;
                    ComposerEffect::NoOp
                } else {
                    ComposerEffect::FollowTail
                }
            },
            KeyCode::Left => {
                if self.cursor_char_idx > 0 {
                    self.cursor_char_idx = self.cursor_char_idx - 1;
                }
                ComposerEffect::NoOp
            },
            KeyCode::Right => {
                let n = chars_of(self.input_buffer.as_str()).len();
                if self.cursor_char_idx < n {
                    self.cursor_char_idx = self.cursor_char_idx + 1;
                }
                ComposerEffect::NoOp
            },
            KeyCode::Up | KeyCode::Down => {
                let up = match key.code {
                    KeyCode::Up => true,
                    _ => false,
                };
                let at = at_completion_matches(
                    workspace_files,
                    self.input_buffer.as_str(),
                    self.cursor_char_idx,
                );
                assert(views(at@).len() == at@.len());
                if at.len() > 0 {
                    if up {
                        if self.at_menu_index > 0 {
                            self.at_menu_index = self.at_menu_index - 1;
                        }
                    } else {
                        self.at_menu_index = next_index(self.at_menu_index, at.len());
                    }
                    return ComposerEffect::NoOp;
                }
                let f = filter_slash_entries(slash_entries, self.input_buffer.as_str());
                assert(f@.map_values(|i: usize| i as int).len() == f@.len());
                if f.len() > 0 && slash_panel_visible(self.input_buffer.as_str()) {
                    if up {
                        if self.slash_menu_index > 0 {
                            self.slash_menu_index = self.slash_menu_index - 1;
                        }
                    } else {
                        self.slash_menu_index = next_index(self.slash_menu_index, f.len());
                    }
                    ComposerEffect::NoOp
                } else if up {
                    ComposerEffect::ScrollUp
                } else {
                    ComposerEffect::ScrollDown
                }
            },
            KeyCode::Backspace => {
                if self.cursor_char_idx == 0 {
                    return ComposerEffect::NoOp;
                }
                proof {
                    lemma_backspace_cursor(m.buffer, m.cursor);
                }
                match delete_completed_at_mention(self.input_buffer.as_str(), self.cursor_char_idx) {
                    Some((b, c)) => {
                        self.input_buffer = b;
                        self.cursor_char_idx = c;
                    },
                    None => {
                        let b = remove_char_at(self.input_buffer.as_str(), self.cursor_char_idx - 1);
                        self.input_buffer = b;
                        self.cursor_char_idx = self.cursor_char_idx - 1;
                    },
                }
                self.slash_menu_index = slash_index_after_edit(
                    self.slash_menu_index,
                    self.input_buffer.as_str(),
                    slash_entries,
                    true,
                );
                ComposerEffect::NoOp
            },
            KeyCode::Char(ch) => {
                if key.modifiers == MOD_CONTROL && (ch == 'a' || ch == 'e') {
                    if ch == 'a' {
                        self.cursor_char_idx = 0;
                    } else {
                        self.cursor_char_idx = chars_of(self.input_buffer.as_str()).len();
                    }
                    return ComposerEffect::NoOp;
                }
                if key.modifiers != 0 && key.modifiers != 1 {
                    return ComposerEffect::NoOp;
                }
                let b = insert_char_at(self.input_buffer.as_str(), self.cursor_char_idx, ch);
                self.input_buffer = b;
                self.cursor_char_idx = self.cursor_char_idx + 1;
                self.slash_menu_index = slash_index_after_edit(
                    self.slash_menu_index,
                    self.input_buffer.as_str(),
                    slash_entries,
                    false,
                );
                ComposerEffect::NoOp
            },
            _ => ComposerEffect::NoOp,
        }
    }
}

/// Typing a character and then pressing Backspace gives back the text and the cursor,
/// unless the typed character completed an `@` mention (which Backspace removes whole).
pub proof fn law_type_then_backspace(
    m: ComposerModel,
    ch: char,
    key: KeyEvent,
    entries: Seq<SlashEntry>,
    files: Seq<Seq<char>>,
    backspace: KeyEvent,
)
    requires
        composer_ok(m),
        key.code == KeyCode::Char(ch),
        is_typing(key),
        backspace.code == KeyCode::Backspace,
        completed_mention(m.buffer.insert(m.cursor as int, ch), m.cursor + 1) is None,
    ensures
        ({
            let typed = composer_step(m, key, entries, files).0;
            let back = composer_step(typed, backspace, entries, files).0;
            back.buffer == m.buffer && back.cursor == m.cursor
        }),
{
    let b = m.buffer.insert(m.cursor as int, ch);
    assert(b.remove(m.cursor as int) =~= m.buffer);
}

/// Every key leaves the cursor within the text.
pub proof fn law_keys_keep_cursor_in_text(
    m: ComposerModel,
    key: KeyEvent,
    entries: Seq<SlashEntry>,
    files: Seq<Seq<char>>,
)
    requires
        composer_ok(m),
    ensures
        composer_ok(composer_step(m, key, entries, files).0),
{
    lemma_completion_cursor(files, m.buffer, m.cursor, m.at_index, false);
    lemma_completion_cursor(files, m.buffer, m.cursor, m.at_index, true);
    if m.cursor > 0 {
        lemma_backspace_cursor(m.buffer, m.cursor);
    }
}

} // verus!
