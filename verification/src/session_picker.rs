//! The session picker popup: saved sessions filtered by id or title, resumed on Enter.

use crate::keys::{is_typing, KeyCode, KeyEvent, MOD_NONE, MOD_SHIFT};
use crate::searchable_list::{adjusted_scroll, dec, min, sat_sub};
use crate::session::SessionSnapshot;
use crate::text::{chars_of, clear_string, contains_seq, contains_vec, lower, lower_vec, pop_char, push_char};
use vstd::prelude::*;

verus! {

/// Rows the session picker lists before it scrolls.
pub const SESSION_PICKER_MAX_ROWS: usize = 16;

/// Session picker popup state.
pub struct SessionPickerState {
    pub search: String,
    pub index: usize,
    pub scroll: usize,
    pub entries: Vec<SessionSnapshot>,
    pub current_session_id: String,
}

/// Action of the session picker.
#[derive(Clone, PartialEq, Eq, Debug)]
pub enum SessionPickerAction {
    NoOp,
    Close,
    ResumeSession(String),
}

/// A session matches the lower-cased filter `f` when `f` is empty or occurs in its
/// lower-cased id or title.
pub open spec fn session_matches(s: SessionSnapshot, f: Seq<char>) -> bool {
    f.len() == 0 || contains_seq(lower(s.id@), f) || match s.session_title {
        Some(t) => contains_seq(lower(t@), f),
        None => false,
    }
}

/// Indices among the first `n` sessions that match `f`.
pub open spec fn matching_prefix(entries: Seq<SessionSnapshot>, f: Seq<char>, n: nat) -> Seq<int>
    decreases n,
{
    if n == 0 {
        seq![]
    } else {
        let prev = matching_prefix(entries, f, (n - 1) as nat);
        if session_matches(entries[n - 1], f) {
            prev.push(n - 1)
        } else {
            prev
        }
    }
}

/// Indices of the sessions that match search text `search`, in list order.
pub open spec fn matching_sessions(entries: Seq<SessionSnapshot>, search: Seq<char>) -> Seq<int> {
    matching_prefix(entries, lower(search), entries.len())
}

/// The id Enter resumes: that of the selected match (the last one when the selection is
/// past the end).
pub open spec fn enter_pick(entries: Seq<SessionSnapshot>, search: Seq<char>, index: nat) -> Option<Seq<char>> {
    let m = matching_sessions(entries, search);
    let pick = min(index as int, sat_sub(m.len() as int, 1) as int);
    if pick < m.len() {
        Some(entries[m[pick]].id@)
    } else {
        None
    }
}

/// Whether a session matches the lower-cased filter.
fn session_matches_exec(s: &SessionSnapshot, f: &[char]) -> (b: bool)
    ensures
        b == session_matches(*s, f@),
{
    if f.len() == 0 {
        return true;
    }
    if contains_vec(&lower_vec(&chars_of(s.id.as_str())), f) {
        return true;
    }
    match &s.session_title {
        Some(t) => contains_vec(&lower_vec(&chars_of(t.as_str())), f),
        None => false,
    }
}

/// Indices of the sessions that match `search`.
pub fn matching_indices(entries: &[SessionSnapshot], search: &str) -> (r: Vec<usize>)
    ensures
        r@.map_values(|i: usize| i as int) == matching_sessions(entries@, search@),
        forall|k: int| 0 <= k < r@.len() ==> r@[k] < entries@.len(),
{
    let f = lower_vec(&chars_of(search));
    let mut r: Vec<usize> = Vec::new();
    let mut i: usize = 0;
    while i < entries.len()
        invariant
            i <= entries@.len(),
            f@ == lower(search@),
            r@.map_values(|k: usize| k as int) == matching_prefix(entries@, f@, i as nat),
            forall|k: int| 0 <= k < r@.len() ==> r@[k] < i,
        decreases entries@.len() - i,
    {
        let ghost r0 = r@;
        if session_matches_exec(&entries[i], &f) {
            r.push(i);
            assert(r@.map_values(|k: usize| k as int) =~= r0.map_values(|k: usize| k as int).push(
                i as int,
            ));
        }
        i += 1;
    }
    r
}

/// The rows the popup shows: the matching sessions' indices, the selected position among
/// them, and the shown range `[start, end)` of those positions.
pub struct SessionPickerRows {
    pub matches: Vec<usize>,
    pub pick: usize,
    pub start: usize,
    pub end: usize,
}

/// The label of a session row: its title (when it has one) followed by its id in
/// brackets, else its id; ` *` marks the current session.
pub open spec fn row_label(s: SessionSnapshot, current: Seq<char>) -> Seq<char> {
    let marker = if s.id@ == current {
        " *"@
    } else {
        Seq::empty()
    };
    match s.session_title {
        Some(t) => " "@ + t@ + marker + "  ["@ + s.id@ + "]"@,
        None => " "@ + s.id@ + marker,
    }
}

impl SessionPickerState {
    /// An empty picker.
    pub fn new() -> (r: Self)
        ensures
            r.search@ == Seq::<char>::empty(),
            r.index == 0,
            r.scroll == 0,
            r.entries@.len() == 0,
            r.current_session_id@ == Seq::<char>::empty(),
    {
        SessionPickerState {
            search: String::new(),
            index: 0,
            scroll: 0,
            entries: Vec::new(),
            current_session_id: String::new(),
        }
    }

    /// Show `entries`, marking `current_session_id`, with an empty search.
    pub fn open(&mut self, entries: Vec<SessionSnapshot>, current_session_id: String)
        ensures
            final(self).entries == entries,
            final(self).current_session_id == current_session_id,
            final(self).search@ == Seq::<char>::empty(),
            final(self).index == 0,
            final(self).scroll == 0,
    {
        self.entries = entries;
        self.current_session_id = current_session_id;
        clear_string(&mut self.search);
        self.index = 0;
        self.scroll = 0;
    }

    /// Forget the sessions and the search.
    pub fn close(&mut self)
        ensures
            final(self).entries@.len() == 0,
            final(self).current_session_id@ == Seq::<char>::empty(),
            final(self).search@ == Seq::<char>::empty(),
            final(self).index == 0,
            final(self).scroll == 0,
    {
        self.entries.clear();
        clear_string(&mut self.current_session_id);
        clear_string(&mut self.search);
        self.index = 0;
        self.scroll = 0;
    }

    /// A mounted picker is open.
    pub fn is_open(&self) -> (r: bool)
        ensures
            r,
    {
        true
    }

    /// Handle a key: Esc closes, arrows move, Enter resumes the selected session,
    /// Backspace and typed characters edit the search and reset the selection.
    pub fn handle_key(&mut self, key: KeyEvent) -> (r: SessionPickerAction)
        ensures
            session_picker_key_step(*old(self), *final(self), key, r),
    {
        let m = matching_indices(&self.entries, self.search.as_str());
        let n = m.len();
        match key.code {
            KeyCode::Esc => SessionPickerAction::Close,
            KeyCode::Up => {
                if self.index > 0 {
                    self.index = self.index - 1;
                }
                SessionPickerAction::NoOp
            },
            KeyCode::Down => {
                if n > 0 {
                    self.index = if self.index < n - 1 {
                        self.index + 1
                    } else {
                        n - 1
                    };
                }
                SessionPickerAction::NoOp
            },
            KeyCode::Enter => {
                let last = if n > 0 {
                    n - 1
                } else {
                    0
                };
                let pick = if self.index < last {
                    self.index
                } else {
                    last
                };
                if pick < n {
                    let idx = m[pick];
                    proof {
                        assert(m@.map_values(|i: usize| i as int)[pick as int] == idx as int);
                    }
                    SessionPickerAction::ResumeSession(self.entries[idx].id.clone())
                } else {
                    SessionPickerAction::NoOp
                }
            },
            KeyCode::Backspace => {
                let _ = pop_char(&mut self.search);
                self.index = 0;
                self.scroll = 0;
                SessionPickerAction::NoOp
            },
            KeyCode::Char(c) => {
                if key.modifiers == MOD_NONE || key.modifiers == MOD_SHIFT {
                    push_char(&mut self.search, c);
                    self.index = 0;
                    self.scroll = 0;
                }
                SessionPickerAction::NoOp
            },
            _ => SessionPickerAction::NoOp,
        }
    }

    /// Bring the selection into view and return the rows to draw: the scroll offset moves
    /// as [`adjusted_scroll`] states for the clamped selection.
    pub fn visible_rows(&mut self) -> (r: SessionPickerRows)
        ensures
            final(self).entries == old(self).entries,
            final(self).search == old(self).search,
            final(self).index == old(self).index,
            final(self).current_session_id == old(self).current_session_id,
            ({
                let n = matching_sessions(old(self).entries@, old(self).search@).len();
                let vp = min(n as int, SESSION_PICKER_MAX_ROWS as int);
                &&& r.matches@.map_values(|i: usize| i as int) == matching_sessions(
                    old(self).entries@,
                    old(self).search@,
                )
                &&& r.pick == min(old(self).index as int, sat_sub(n as int, 1) as int)
                &&& final(self).scroll == adjusted_scroll(
                    r.pick as nat,
                    old(self).scroll as nat,
                    SESSION_PICKER_MAX_ROWS as nat,
                    n,
                )
                &&& r.start == final(self).scroll
                &&& r.end == min(r.start + vp, n as int)
            }),
            forall|k: int| 0 <= k < r.matches@.len() ==> r.matches@[k] < old(self).entries@.len(),
    {
        let m = matching_indices(&self.entries, self.search.as_str());
        let n = m.len();
        let vp = if n < SESSION_PICKER_MAX_ROWS {
            n
        } else {
            SESSION_PICKER_MAX_ROWS
        };
        let last = if n > 0 {
            n - 1
        } else {
            0
        };
        let pick = if self.index < last {
            self.index
        } else {
            last
        };
        if pick < self.scroll {
            self.scroll = pick;
        } else if vp > 0 && pick - self.scroll >= vp {
            self.scroll = pick - (vp - 1);
        }
        if self.scroll > n - vp {
            self.scroll = n - vp;
        }
        let start = self.scroll;
        let end = if start + vp < n {
            start + vp
        } else {
            n
        };
        SessionPickerRows { matches: m, pick, start, end }
    }

    /// Number of sessions that match the search.
    pub fn filtered_count(&self) -> (n: usize)
        ensures
            n == matching_sessions(self.entries@, self.search@).len(),
    {
        let m = matching_indices(&self.entries, self.search.as_str());
        assert(m@.map_values(|i: usize| i as int).len() == m@.len());
        m.len()
    }

    /// The label of the session at `idx` (see [`row_label`]).
    pub fn row_text(&self, idx: usize) -> (r: String)
        requires
            idx < self.entries@.len(),
        ensures
            r@ == row_label(self.entries@[idx as int], self.current_session_id@),
    {
        let snap = &self.entries[idx];
        let current = snap.id == self.current_session_id;
        let mut s = " ".to_owned();
        match &snap.session_title {
            Some(t) => {
                s.append(t.as_str());
                if current {
                    s.append(" *");
                }
                s.append("  [");
                s.append(snap.id.as_str());
                s.append("]");
            },
            None => {
                s.append(snap.id.as_str());
                if current {
                    s.append(" *");
                }
            },
        }
        proof {
            reveal_strlit(" *");
        }
        assert(s@ =~= row_label(self.entries@[idx as int], self.current_session_id@));
        s
    }
}

/// One key press of [`SessionPickerState::handle_key`]: the state goes from `s0` to `s1` and the
/// action is `r`.
pub open spec fn session_picker_key_step(
    s0: SessionPickerState,
    s1: SessionPickerState,
    key: KeyEvent,
    r: SessionPickerAction,
) -> bool {
    &&& s1.entries == s0.entries
    &&& s1.current_session_id == s0.current_session_id
    &&& ({
            let n = matching_sessions(s0.entries@, s0.search@).len();
            let unchanged = s1.search == s0.search && s1.index == s0.index
                && s1.scroll == s0.scroll;
            match key.code {
                KeyCode::Esc => r == SessionPickerAction::Close && unchanged,
                KeyCode::Up => r == SessionPickerAction::NoOp && s1.search == s0.search
                    && s1.scroll == s0.scroll && s1.index == dec(s0.index as nat),
                KeyCode::Down => r == SessionPickerAction::NoOp && s1.search == s0.search
                    && s1.scroll == s0.scroll && s1.index == (if n > 0 {
                    min(s0.index + 1, n - 1)
                } else {
                    s0.index as int
                }),
                KeyCode::Enter => unchanged && match enter_pick(
                    s0.entries@,
                    s0.search@,
                    s0.index as nat,
                ) {
                    Some(id) => r matches SessionPickerAction::ResumeSession(s) && s@ == id,
                    None => r == SessionPickerAction::NoOp,
                },
                KeyCode::Backspace => r == SessionPickerAction::NoOp && s1.search@ == (if s0.search@.len() > 0 {
                    s0.search@.drop_last()
                } else {
                    s0.search@
                }) && s1.index == 0 && s1.scroll == 0,
                KeyCode::Char(c) => r == SessionPickerAction::NoOp && if is_typing(key) {
                    s1.search@ == s0.search@.push(c) && s1.index == 0
                        && s1.scroll == 0
                } else {
                    unchanged
                },
                _ => r == SessionPickerAction::NoOp && unchanged,
            }
        })
}

} // verus!
