//! The git branch picker: filtering branch names by a typed query and deciding what Enter does.

use crate::keys::{is_typing, KeyCode, KeyEvent};
use crate::searchable_list::{dec, min, sat_sub};
use crate::text::{
    has_prefix, slice_vec, starts_with_vec, chars_of, clear_string, contains_seq, contains_vec, eq_vec, lower, lower_vec, pop_char,
    push_char, string_of, trim, trim_vec,
};
use crate::tui_cmd::TuiCmd;
use crate::wrap::views;
use vstd::prelude::*;

verus! {

/// Rows the branch picker lists before it scrolls.
pub const BRANCH_PICKER_MAX_ROWS: usize = 12;

/// The filter text of a query: trimmed, without one leading `/`.
pub open spec fn branch_filter(q: Seq<char>) -> Seq<char> {
    let t = trim(q);
    if t.len() > 0 && t[0] == '/' {
        t.drop_first()
    } else {
        t
    }
}

/// A branch matches a filter when its ASCII-lower-cased name contains the lower-cased filter.
pub open spec fn branch_matches(branch: Seq<char>, filter: Seq<char>) -> bool {
    contains_seq(lower(branch), lower(filter))
}

/// Indices among the first `n` branches that match the filter text of `q`, ascending.
pub open spec fn matching_prefix(branches: Seq<Seq<char>>, q: Seq<char>, n: nat) -> Seq<int>
    decreases n,
{
    if n == 0 {
        seq![]
    } else {
        let prev = matching_prefix(branches, q, (n - 1) as nat);
        if branch_matches(branches[n - 1], branch_filter(q)) {
            prev.push(n - 1)
        } else {
            prev
        }
    }
}

/// Indices of the branches that match the query, in list order (every index for an empty
/// filter).
pub open spec fn matching_branches(branches: Seq<Seq<char>>, q: Seq<char>) -> Seq<int> {
    matching_prefix(branches, q, branches.len())
}

/// The first branch index at or after `i` whose name equals `name` ignoring ASCII case.
pub open spec fn first_named(branches: Seq<Seq<char>>, name: Seq<char>, i: nat) -> Option<int>
    decreases branches.len() - i,
{
    if i >= branches.len() {
        None
    } else if lower(branches[i as int]) == lower(name) {
        Some(i as int)
    } else {
        first_named(branches, name, i + 1)
    }
}

/// The name typed after the query is trimmed and stripped of its `/`.
pub open spec fn typed_name(q: Seq<char>) -> Seq<char> {
    trim(branch_filter(trim(q)))
}

/// What Enter does in the session's branch picker: `/name` creates `name` (nothing for a
/// bare `/`); a name equal to a branch ignoring case switches to it; otherwise the
/// `selected`-th filtered branch is switched to, if there is one.
pub open spec fn enter_outcome(branches: Seq<Seq<char>>, q: Seq<char>, selected: nat) -> Option<
    (bool, Seq<char>),
> {
    let raw = trim(q);
    let name = typed_name(q);
    let filtered = matching_branches(branches, raw);
    if raw.len() > 0 && raw[0] == '/' {
        if name.len() > 0 {
            Some((true, name))
        } else {
            None
        }
    } else if name.len() > 0 && first_named(branches, name, 0) is Some {
        Some((false, branches[first_named(branches, name, 0)->0]))
    } else if selected < filtered.len() {
        Some((false, branches[filtered[selected as int]]))
    } else {
        None
    }
}

/// A command matches an outcome of [`enter_outcome`]: `(true, n)` creates `n`, `(false, n)`
/// switches to `n`.
pub open spec fn command_is(cmd: Option<TuiCmd>, outcome: Option<(bool, Seq<char>)>) -> bool {
    match outcome {
        None => cmd is None,
        Some((create, name)) => match cmd {
            Some(TuiCmd::CreateBranch(n)) => create && n@ == name,
            Some(TuiCmd::SwitchBranch(n)) => !create && n@ == name,
            _ => false,
        },
    }
}

/// The filter text of a query as characters.
fn branch_filter_vec(q: &[char]) -> (r: Vec<char>)
    ensures
        r@ == branch_filter(q@),
{
    let t = trim_vec(q);
    if t.len() > 0 && t[0] == '/' {
        let r = crate::text::slice_vec(&t, 1, t.len());
        assert(r@ =~= t@.drop_first());
        r
    } else {
        t
    }
}

/// The filter text of a branch query: trimmed, without a leading `/`.
pub fn branch_filter_text(query: &str) -> (r: String)
    ensures
        r@ == branch_filter(query@),
{
    let q = chars_of(query);
    let f = branch_filter_vec(&q);
    string_of(&f)
}

/// Indices of the branches whose name contains the query's filter text, ignoring ASCII
/// case; every index when the filter is empty.
pub fn filtered_branch_indices(branches: &[String], query: &str) -> (r: Vec<usize>)
    ensures
        r@.map_values(|i: usize| i as int) == matching_branches(views(branches@), query@),
        forall|k: int| 0 <= k < r@.len() ==> r@[k] < branches@.len(),
{
    let q = chars_of(query);
    let filter = lower_vec(&branch_filter_vec(&q));
    let ghost bv = views(branches@);
    let mut r: Vec<usize> = Vec::new();
    let mut i: usize = 0;
    while i < branches.len()
        invariant
            i <= branches@.len(),
            bv == views(branches@),
            q@ == query@,
            filter@ == lower(branch_filter(query@)),
            r@.map_values(|k: usize| k as int) == matching_prefix(bv, query@, i as nat),
            forall|k: int| 0 <= k < r@.len() ==> r@[k] < i,
        decreases branches@.len() - i,
    {
        let name = lower_vec(&chars_of(branches[i].as_str()));
        let ghost r0 = r@;
        if contains_vec(&name, &filter) {
            r.push(i);
            assert(r@.map_values(|k: usize| k as int) =~= r0.map_values(|k: usize| k as int).push(
                i as int,
            ));
        }
        i += 1;
    }
    r
}

/// The first branch whose name equals `name` ignoring ASCII case.
fn find_named(branches: &[String], name: &[char]) -> (r: Option<usize>)
    ensures
        match r {
            Some(i) => i < branches@.len() && first_named(views(branches@), name@, 0) == Some(
                i as int,
            ),
            None => first_named(views(branches@), name@, 0) is None,
        },
{
    let target = lower_vec(name);
    let ghost bv = views(branches@);
    let mut i: usize = 0;
    while i < branches.len()
        invariant
            i <= branches@.len(),
            bv == views(branches@),
            target@ == lower(name@),
            first_named(bv, name@, 0) == first_named(bv, name@, i as nat),
        decreases branches@.len() - i,
    {
        let b = lower_vec(&chars_of(branches[i].as_str()));
        if eq_vec(&b, &target) {
            return Some(i);
        }
        i += 1;
    }
    None
}

/// What Enter does in the session's branch picker for `query` with the
/// `selected_filtered_idx`-th filtered branch selected (see [`enter_outcome`]).
pub fn branch_picker_enter_command(branches: &[String], query: &str, selected_filtered_idx: usize) -> (r:
    Option<TuiCmd>)
    ensures
        command_is(r, enter_outcome(views(branches@), query@, selected_filtered_idx as nat)),
{
    let raw = trim_vec(&chars_of(query));
    let name = trim_vec(&branch_filter_vec(&raw));
    let raw_s = string_of(&raw);
    let filtered = filtered_branch_indices(branches, raw_s.as_str());
    if raw.len() > 0 && raw[0] == '/' {
        if name.len() > 0 {
            return Some(TuiCmd::CreateBranch(string_of(&name)));
        }
        return None;
    }
    if name.len() > 0 {
        if let Some(idx) = find_named(branches, &name) {
            return Some(TuiCmd::SwitchBranch(branches[idx].clone()));
        }
    }
    if selected_filtered_idx < filtered.len() {
        let idx = filtered[selected_filtered_idx];
        proof {
            assert(filtered@.map_values(|i: usize| i as int)[selected_filtered_idx as int] == idx
                as int);
        }
        Some(TuiCmd::SwitchBranch(branches[idx].clone()))
    } else {
        None
    }
}

/// Branch picker popup state.
pub struct BranchPickerState {
    pub query: String,
    pub index: usize,
    pub branches: Vec<String>,
    pub current_branch: String,
}

/// Action of the branch picker.
#[derive(Clone, PartialEq, Eq, Debug)]
pub enum BranchPickerAction {
    NoOp,
    Close,
    SwitchBranch(String),
    CreateBranch(String),
}

/// What Enter does in the popup: `/name` with a non-empty name creates it; a name equal to
/// a branch ignoring case switches to it; otherwise the selected filtered branch (the last
/// one when the selection is past the end) is switched to.
pub open spec fn popup_enter_outcome(branches: Seq<Seq<char>>, q: Seq<char>, index: nat) -> Option<
    (bool, Seq<char>),
> {
    let raw = trim(q);
    let name = typed_name(q);
    let filtered = matching_branches(branches, q);
    let pick = min(index as int, sat_sub(filtered.len() as int, 1) as int);
    if raw.len() > 0 && raw[0] == '/' && name.len() > 0 {
        Some((true, name))
    } else if name.len() > 0 && first_named(branches, name, 0) is Some {
        Some((false, branches[first_named(branches, name, 0)->0]))
    } else if pick < filtered.len() {
        Some((false, branches[filtered[pick]]))
    } else {
        None
    }
}

/// An action matches an outcome of [`popup_enter_outcome`].
pub open spec fn action_is(a: BranchPickerAction, outcome: Option<(bool, Seq<char>)>) -> bool {
    match outcome {
        None => a == BranchPickerAction::NoOp,
        Some((create, name)) => match a {
            BranchPickerAction::CreateBranch(n) => create && n@ == name,
            BranchPickerAction::SwitchBranch(n) => !create && n@ == name,
            _ => false,
        },
    }
}

/// The popup's scroll offset and row count for `total` filtered rows with `index` selected.
pub open spec fn branch_window(index: nat, total: nat) -> (nat, nat) {
    let n_show = min(total as int, BRANCH_PICKER_MAX_ROWS as int) as nat;
    (min(sat_sub(index as int, sat_sub(n_show as int, 1) as int) as int, sat_sub(total as int, n_show as int) as int) as nat, n_show)
}

impl BranchPickerState {
    /// An empty picker.
    pub fn new() -> (r: Self)
        ensures
            r.query@ == Seq::<char>::empty(),
            r.index == 0,
            r.branches@.len() == 0,
            r.current_branch@ == Seq::<char>::empty(),
    {
        BranchPickerState {
            query: String::new(),
            index: 0,
            branches: Vec::new(),
            current_branch: String::new(),
        }
    }

    /// Show `branches` with `current_branch` marked, an empty query and the first row selected.
    pub fn open(&mut self, branches: Vec<String>, current_branch: String)
        ensures
            final(self).branches == branches,
            final(self).current_branch == current_branch,
            final(self).query@ == Seq::<char>::empty(),
            final(self).index == 0,
    {
        self.branches = branches;
        self.current_branch = current_branch;
        clear_string(&mut self.query);
        self.index = 0;
    }

    /// Forget the branches and the query.
    pub fn close(&mut self)
        ensures
            final(self).branches@.len() == 0,
            final(self).current_branch@ == Seq::<char>::empty(),
            final(self).query@ == Seq::<char>::empty(),
            final(self).index == 0,
    {
        self.branches.clear();
        clear_string(&mut self.current_branch);
        clear_string(&mut self.query);
        self.index = 0;
    }

    /// A mounted picker is open.
    pub fn is_open(&self) -> (r: bool)
        ensures
            r,
    {
        true
    }

    /// Handle a key: Esc closes, arrows move within the filtered list, Enter switches or
    /// creates (see [`popup_enter_outcome`]), Backspace and typed characters edit the query.
    pub fn handle_key(&mut self, key: KeyEvent) -> (r: BranchPickerAction)
        ensures
            branch_picker_key_step(*old(self), *final(self), key, r),
    {
        let filtered = filtered_branch_indices(&self.branches, self.query.as_str());
        let n = filtered.len();
        match key.code {
            KeyCode::Esc => BranchPickerAction::Close,
            KeyCode::Up => {
                if n > 0 && self.index > 0 {
                    self.index = self.index - 1;
                }
                BranchPickerAction::NoOp
            },
            KeyCode::Down => {
                if n > 0 {
                    self.index = if self.index < n - 1 {
                        self.index + 1
                    } else {
                        n - 1
                    };
                }
                BranchPickerAction::NoOp
            },
            KeyCode::Enter => self.enter_action(),
            KeyCode::Backspace => {
                let _ = pop_char(&mut self.query);
                let m = filtered_branch_indices(&self.branches, self.query.as_str()).len();
                let last = if m > 0 {
                    m - 1
                } else {
                    0
                };
                if self.index > last {
                    self.index = last;
                }
                BranchPickerAction::NoOp
            },
            KeyCode::Char(c) => {
                if key.modifiers == crate::keys::MOD_NONE || key.modifiers
                    == crate::keys::MOD_SHIFT {
                    push_char(&mut self.query, c);
                    self.index = 0;
                }
                BranchPickerAction::NoOp
            },
            _ => BranchPickerAction::NoOp,
        }
    }

    /// The action of Enter for the current query and selection.
    fn enter_action(&self) -> (r: BranchPickerAction)
        ensures
            action_is(
                r,
                popup_enter_outcome(views(self.branches@), self.query@, self.index as nat),
            ),
    {
        let raw = trim_vec(&chars_of(self.query.as_str()));
        let name = trim_vec(&branch_filter_vec(&raw));
        let filtered = filtered_branch_indices(&self.branches, self.query.as_str());
        let n = filtered.len();
        if raw.len() > 0 && raw[0] == '/' && name.len() > 0 {
            return BranchPickerAction::CreateBranch(string_of(&name));
        }
        if name.len() > 0 {
            if let Some(idx) = find_named(&self.branches, &name) {
                return BranchPickerAction::SwitchBranch(self.branches[idx].clone());
            }
        }
        let last = if n > 0 {
            n - 1
        } else {
            0
        };
        let pick = if self.index < last {
            self.index
        } else {
            last
        };
        if pick < n {
            let idx = filtered[pick];
            proof {
                assert(filtered@.map_values(|i: usize| i as int)[pick as int] == idx as int);
            }
            BranchPickerAction::SwitchBranch(self.branches[idx].clone())
        } else {
            BranchPickerAction::NoOp
        }
    }

    /// Scroll offset and number of rows shown (see [`branch_window`]).
    pub fn visible_window(&self) -> (r: (usize, usize))
        ensures
            (r.0 as nat, r.1 as nat) == branch_window(
                self.index as nat,
                matching_branches(views(self.branches@), self.query@).len(),
            ),
    {
        let total = filtered_branch_indices(&self.branches, self.query.as_str()).len();
        let n_show = if total < BRANCH_PICKER_MAX_ROWS {
            total
        } else {
            BRANCH_PICKER_MAX_ROWS
        };
        let back = if n_show >= 1 {
            n_show - 1
        } else {
            0
        };
        let a = if self.index >= back {
            self.index - back
        } else {
            0
        };
        let limit = total - n_show;
        (if a < limit {
            a
        } else {
            limit
        }, n_show)
    }
}

/// One key press of [`BranchPickerState::handle_key`]: the state goes from `s0` to `s1` and the
/// action is `r`.
pub open spec fn branch_picker_key_step(
    s0: BranchPickerState,
    s1: BranchPickerState,
    key: KeyEvent,
    r: BranchPickerAction,
) -> bool {
    &&& s1.branches == s0.branches
    &&& s1.current_branch == s0.current_branch
    &&& ({
            let bv = views(s0.branches@);
            let n = matching_branches(bv, s0.query@).len();
            match key.code {
                KeyCode::Esc => r == BranchPickerAction::Close && s1.query == s0.query && s1.index == s0.index,
                KeyCode::Up => r == BranchPickerAction::NoOp && s1.query == s0.query && s1.index == (if n > 0 {
                    dec(s0.index as nat)
                } else {
                    s0.index as nat
                }),
                KeyCode::Down => r == BranchPickerAction::NoOp && s1.query == s0.query && s1.index == (if n > 0 {
                    min(s0.index + 1, n - 1)
                } else {
                    s0.index as int
                }),
                KeyCode::Enter => s1.query == s0.query && s1.index
                    == s0.index && action_is(
                    r,
                    popup_enter_outcome(bv, s0.query@, s0.index as nat),
                ),
                KeyCode::Backspace => r == BranchPickerAction::NoOp && s1.query@
                    == (if s0.query@.len() > 0 {
                    s0.query@.drop_last()
                } else {
                    s0.query@
                }) && s1.index == min(
                    s0.index as int,
                    sat_sub(matching_branches(bv, s1.query@).len() as int, 1) as int,
                ),
                KeyCode::Char(c) => r == BranchPickerAction::NoOp && if is_typing(key) {
                    s1.query@ == s0.query@.push(c) && s1.index == 0
                } else {
                    s1.query == s0.query && s1.index == s0.index
                },
                _ => r == BranchPickerAction::NoOp && s1.query == s0.query
                    && s1.index == s0.index,
            }
        })
}

/// The lines of `s` as `str::lines` yields them: split at each `\n`, a `\r` right before
/// it dropped, and no empty line after a final `\n`.
pub open spec fn text_lines(s: Seq<char>) -> Seq<Seq<char>>
    decreases s.len(),
{
    if s.len() == 0 {
        seq![]
    } else {
        match crate::transcript::find_from(s, seq!['\n'], 0) {
            None => seq![s],
            Some(i) => {
                let raw = s.take(i);
                let line = if raw.len() > 0 && raw.last() == '\r' {
                    raw.drop_last()
                } else {
                    raw
                };
                if 0 <= i < s.len() {
                    seq![line] + text_lines(s.skip(i + 1))
                } else {
                    seq![line]
                }
            },
        }
    }
}

/// `s` without any number of leading copies of the two-character marker `p`.
pub open spec fn strip_marker(s: Seq<char>, p: Seq<char>) -> Seq<char>
    decreases s.len(),
{
    if p.len() > 0 && has_prefix(s, p) {
        strip_marker(s.skip(p.len() as int), p)
    } else {
        s
    }
}

/// The entry for a line of `git branch`: without the `+ ` of a branch checked out
/// elsewhere, trimmed; the current branch keeps its `* ` mark.
pub open spec fn branch_of_line(l: Seq<char>) -> Seq<char> {
    trim(strip_marker(l, "+ "@))
}

/// Strip leading copies of a marker.
fn strip_marker_exec(v: &[char], p: &str) -> (r: Vec<char>)
    ensures
        r@ == strip_marker(v@, p@),
{
    let pv = chars_of(p);
    let mut cur = slice_vec(v, 0, v.len());
    assert(cur@ =~= v@);
    if pv.len() == 0 {
        return cur;
    }
    while starts_with_vec(&cur, &pv)
        invariant
            pv@ == p@,
            pv@.len() > 0,
            strip_marker(v@, p@) == strip_marker(cur@, p@),
        decreases cur@.len(),
    {
        cur = slice_vec(&cur, pv.len(), cur.len());
    }
    cur
}

/// The branch names on lines of `git branch` output.
pub open spec fn branch_names_of(lines: Seq<Seq<char>>) -> Seq<Seq<char>> {
    lines.map_values(|l: Seq<char>| branch_of_line(l))
}

/// The branch names of `git branch` output, or none when git gave no output.
pub open spec fn branch_list(output: Option<Seq<char>>) -> Seq<Seq<char>> {
    match output {
        Some(o) => branch_names_of(text_lines(o)),
        None => seq![],
    }
}

/// The lines of `s` as `str::lines` yields them (see [`text_lines`]).
pub fn text_lines_of(s: &str) -> (r: Vec<String>)
    ensures
        views(r@) == text_lines(s@),
{
    let v = chars_of(s);
    let ghost all = text_lines(v@);
    let mut r: Vec<String> = Vec::new();
    let mut rest = v;
    loop
        invariant
            all == text_lines(s@),
            views(r@) + text_lines(rest@) == all,
        decreases rest@.len(),
    {
        if rest.len() == 0 {
            assert(views(r@) =~= all);
            return r;
        }
        let nl = vec!['\n'];
        assert(nl@ =~= seq!['\n']);
        let found = crate::transcript::find_first(&rest, &nl);
        let (raw_end, next) = match found {
            Some(i) => (i, i + 1),
            None => (rest.len(), rest.len()),
        };
        let mut line = slice_vec(&rest, 0, raw_end);
        assert(line@ =~= rest@.take(raw_end as int));
        if found.is_some() && line.len() > 0 && line[line.len() - 1] == '\r' {
            let ghost l0 = line@;
            line = slice_vec(&line, 0, line.len() - 1);
            assert(line@ =~= l0.drop_last());
        }
        let ghost r0 = views(r@);
        let ghost rest0 = rest@;
        r.push(string_of(&line));
        assert(views(r@) =~= r0.push(line@));
        rest = slice_vec(&rest, next, rest.len());
        assert(rest@ =~= rest0.skip(next as int));
        proof {
            let t = text_lines(rest0);
            if found.is_none() {
                assert(rest0.take(rest0.len() as int) =~= rest0);
                assert(rest@ =~= Seq::<char>::empty());
            }
            assert(t.len() > 0);
            assert(t[0] == line@);
            assert(t.drop_first() =~= text_lines(rest@));
            assert(r0.push(line@) + text_lines(rest@) =~= r0 + t);
        }
    }
}

/// The local branches listed by `git branch --no-color` (given its output, `None` when
/// the command failed), see [`branch_list`].
pub fn git_list_branches(output: Option<&str>) -> (r: Vec<String>)
    ensures
        views(r@) == branch_list(match output {
            Some(o) => Some(o@),
            None => None,
        }),
{
    let out = match output {
        Some(o) => o,
        None => {
            return Vec::new();
        },
    };
    let lines = text_lines_of(out);
    let ghost lv = views(lines@);
    let mut r: Vec<String> = Vec::new();
    let mut i: usize = 0;
    while i < lines.len()
        invariant
            i <= lines@.len(),
            lv == views(lines@),
            lv == text_lines(out@),
            views(r@) == branch_names_of(lv.take(i as int)),
        decreases lines@.len() - i,
    {
        let line = chars_of(lines[i].as_str());
        let name = trim_vec(&strip_marker_exec(&line, "+ "));
        let ghost r0 = views(r@);
        r.push(string_of(&name));
        assert(views(r@) =~= r0.push(name@));
        assert(branch_names_of(lv.take(i + 1)) =~= branch_names_of(lv.take(i as int)).push(
            branch_of_line(lv[i as int]),
        ));
        i += 1;
    }
    assert(lv.take(lines@.len() as int) =~= lv);
    r
}

/// What a git command yields: its trimmed standard output when it succeeded, nothing when
/// it failed.
pub fn git_output(success: bool, stdout: &str) -> (r: Option<String>)
    ensures
        match r {
            Some(t) => success && t@ == trim(stdout@),
            None => !success,
        },
{
    if success {
        Some(string_of(&trim_vec(&chars_of(stdout))))
    } else {
        None
    }
}

/// A git operation the branch picker and the status line need.
pub enum GitOp {
    /// `git rev-parse --abbrev-ref HEAD`.
    CurrentBranch,
    /// `git branch --no-color`.
    ListBranches,
    /// `git checkout -b <name>`.
    CreateBranch(String),
    /// `git checkout <name>`.
    SwitchBranch(String),
}

/// The arguments handed to `git` for `op`, as text.
pub open spec fn git_arg_list(op: GitOp) -> Seq<Seq<char>> {
    match op {
        GitOp::CurrentBranch => seq!["rev-parse"@, "--abbrev-ref"@, "HEAD"@],
        GitOp::ListBranches => seq!["branch"@, "--no-color"@],
        GitOp::CreateBranch(name) => seq!["checkout"@, "-b"@, name@],
        GitOp::SwitchBranch(name) => seq!["checkout"@, name@],
    }
}

/// The command line (after `git`) that performs `op`.
pub fn git_args(op: &GitOp) -> (r: Vec<String>)
    ensures
        views(r@) == git_arg_list(*op),
{
    let mut r: Vec<String> = Vec::new();
    match op {
        GitOp::CurrentBranch => {
            r.push(String::from_str("rev-parse"));
            r.push(String::from_str("--abbrev-ref"));
            r.push(String::from_str("HEAD"));
        },
        GitOp::ListBranches => {
            r.push(String::from_str("branch"));
            r.push(String::from_str("--no-color"));
        },
        GitOp::CreateBranch(name) => {
            r.push(String::from_str("checkout"));
            r.push(String::from_str("-b"));
            r.push(name.clone());
        },
        GitOp::SwitchBranch(name) => {
            r.push(String::from_str("checkout"));
            r.push(name.clone());
        },
    }
    assert(views(r@) =~= git_arg_list(*op));
    r
}

/// The current branch, from what `git rev-parse --abbrev-ref HEAD` yielded (see
/// [`git_output`]; `None` when it could not run or failed).
pub fn git_current_branch(output: Option<&str>) -> (r: Option<String>)
    ensures
        match output {
            Some(o) => r matches Some(b) && b@ == o@,
            None => r is None,
        },
{
    match output {
        Some(o) => Some(o.to_string()),
        None => None,
    }
}

/// Whether `git checkout -b <name>` succeeded, from what it yielded.
pub fn git_create_branch(output: Option<&str>) -> (r: bool)
    ensures
        r == output is Some,
{
    output.is_some()
}

/// Whether `git checkout <name>` succeeded, from what it yielded.
pub fn git_switch_branch(output: Option<&str>) -> (r: bool)
    ensures
        r == output is Some,
{
    output.is_some()
}

/// Enter creates a branch only when the trimmed query starts with `/`; otherwise it
/// switches to an existing branch or does nothing.
pub proof fn law_enter_creates_only_with_slash(branches: Seq<Seq<char>>, q: Seq<char>, selected: nat)
    ensures
        enter_outcome(branches, q, selected) matches Some((true, _)) ==> trim(q).len() > 0 && trim(q)[0]
            == '/',
        enter_outcome(branches, q, selected) matches Some((false, name)) ==> branches.contains(name),
{
    let raw = trim(q);
    let name = typed_name(q);
    let filtered = matching_branches(branches, raw);
    if !(raw.len() > 0 && raw[0] == '/') {
        if name.len() > 0 && first_named(branches, name, 0) is Some {
            lemma_first_named(branches, name, 0);
            let i = first_named(branches, name, 0)->0;
            assert(branches[i] == branches[i]);
        } else if selected < filtered.len() {
            lemma_matching_prefix_bounds(branches, raw, branches.len());
            let i = filtered[selected as int];
            assert(branches[i] == branches[i]);
        }
    }
}

proof fn lemma_first_named(branches: Seq<Seq<char>>, name: Seq<char>, i: nat)
    ensures
        first_named(branches, name, i) matches Some(k) ==> 0 <= k < branches.len(),
    decreases branches.len() - i,
{
    if i < branches.len() && lower(branches[i as int]) != lower(name) {
        lemma_first_named(branches, name, i + 1);
    }
}

proof fn lemma_matching_prefix_bounds(branches: Seq<Seq<char>>, q: Seq<char>, n: nat)
    requires
        n <= branches.len(),
    ensures
        forall|k: int| 0 <= k < matching_prefix(branches, q, n).len() ==> 0 <= #[trigger] matching_prefix(
            branches,
            q,
            n,
        )[k] < n,
    decreases n,
{
    if n > 0 {
        lemma_matching_prefix_bounds(branches, q, (n - 1) as nat);
        let prev = matching_prefix(branches, q, (n - 1) as nat);
        let r = matching_prefix(branches, q, n);
        assert forall|k: int| 0 <= k < r.len() implies 0 <= #[trigger] r[k] < n by {
            if k < prev.len() {
                assert(r[k] == prev[k]);
            }
        }
    }
}

} // verus!
