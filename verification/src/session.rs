//! Saved-session records and the lines that describe them: listings, resume briefings,
//! picker labels, cost and attach summaries.

use crate::text::{chars_of, push_char, string_of};
use crate::text_utils::{cut_with_dots, format_path_suffix, path_suffix, truncate_with_dots};
use crate::wrap::views;
use vstd::prelude::*;

verus! {

/// Longest summary shown in listings and briefings.
pub const SUMMARY_MAX: usize = 96;

/// Longest summary shown in a picker label.
pub const PICKER_SUMMARY_MAX: usize = 52;

/// Longest worktree path shown.
pub const PATH_SUFFIX_MAX: usize = 36;

/// Lifecycle state of a session.
#[derive(Clone, Copy, PartialEq, Eq, Debug)]
pub enum SessionStatus {
    Running,
    Completed,
    Cancelled,
    Error,
}

/// A UTC instant as seconds and nanoseconds since the Unix epoch.
#[derive(Clone, Copy, PartialEq, Eq, Debug)]
pub struct UtcTime {
    pub secs: i64,
    pub nanos: u32,
}

/// An instant that `chrono::DateTime::<Utc>::from_timestamp` accepts: from January 1 of
/// 262144 BCE to the end of December 31, 262142 CE, with nanoseconds below one second, or
/// below two seconds in the last second of a minute (a leap second).
pub open spec fn time_ok(t: UtcTime) -> bool {
    &&& -8_334_601_315_200 <= t.secs <= 8_210_266_876_799
    &&& (t.nanos < 1_000_000_000 || (t.nanos < 2_000_000_000 && t.secs % 60 == 59))
}

/// A saved session as the display code reads it.
pub struct SessionSnapshot {
    pub id: String,
    pub updated_at: UtcTime,
    pub model: String,
    pub status: SessionStatus,
    pub socket_path: Option<String>,
    pub worktree_path: Option<String>,
    pub branch: Option<String>,
    pub base_branch: Option<String>,
    pub child_session_ids: Vec<String>,
    pub session_summary: Option<String>,
    pub session_title: Option<String>,
    pub total_input_tokens: u64,
    pub total_output_tokens: u64,
    /// Estimated cost in ten-thousandths of a US dollar.
    pub estimated_cost_ten_thousandths: u64,
}

/// What chrono's `DateTime::<Utc>::to_rfc3339` writes for an instant.
pub uninterp spec fn rfc3339_text(secs: i64, nanos: u32) -> Seq<char>;

/// What chrono's `DateTime::<Utc>::format` writes for an instant and a pattern.
pub uninterp spec fn utc_format_text(secs: i64, nanos: u32, pattern: Seq<char>) -> Seq<char>;

/// The RFC 3339 text of an instant, by `chrono::DateTime::<Utc>::to_rfc3339` on the
/// instant that `DateTime::from_timestamp` makes of the seconds and nanoseconds. The
/// contract names the text; it says nothing of its calendar arithmetic.
#[verifier::external_body]
fn utc_rfc3339(secs: i64, nanos: u32) -> (r: String)
    requires
        time_ok(UtcTime { secs, nanos }),
    ensures
        r@ == rfc3339_text(secs, nanos),
{
    match chrono::DateTime::from_timestamp(secs, nanos) {
        Some(t) => t.to_rfc3339(),
        None => String::new(),
    }
}

/// The text of an instant formatted by `chrono::DateTime::<Utc>::format` with a strftime
/// pattern, for the instant that `DateTime::from_timestamp` makes. The contract names the
/// text; only the minute pattern of picker labels and the seconds pattern of exports are
/// admitted, which format without error.
#[verifier::external_body]
pub(crate) fn utc_format(secs: i64, nanos: u32, pattern: &str) -> (r: String)
    requires
        time_ok(UtcTime { secs, nanos }),
        pattern@ == "%Y-%m-%d %H:%M"@ || pattern@ == "%Y-%m-%d %H:%M:%S UTC"@,
    ensures
        r@ == utc_format_text(secs, nanos, pattern@),
{
    match chrono::DateTime::from_timestamp(secs, nanos) {
        Some(t) => t.format(pattern).to_string(),
        None => String::new(),
    }
}

/// The ASCII digit for `d < 10`.
pub open spec fn digit(d: nat) -> char {
    (('0' as u32) + d) as char
}

/// The decimal digits of `n`, without leading zeros.
pub open spec fn dec(n: nat) -> Seq<char>
    decreases n,
{
    if n < 10 {
        seq![digit(n)]
    } else {
        dec(n / 10) + seq![digit(n % 10)]
    }
}

/// Append the decimal digits of `n` to `s`.
pub(crate) fn push_decimal(s: &mut String, n: u64)
    ensures
        final(s)@ == old(s)@ + dec(n as nat),
    decreases n,
{
    if n >= 10 {
        push_decimal(s, n / 10);
    }
    let d: u8 = (n % 10) as u8;
    let c = (48u8 + d) as char;
    assert(c == digit((n % 10) as nat));
    push_char(s, c);
}

/// The decimal text of `n`.
pub fn decimal(n: u64) -> (r: String)
    ensures
        r@ == dec(n as nat),
{
    let mut s = String::new();
    push_decimal(&mut s, n);
    assert(s@ =~= dec(n as nat));
    s
}

/// The four digits of `n < 10000`, zero-padded.
pub open spec fn four_digits(n: nat) -> Seq<char> {
    seq![digit(n / 1000), digit((n / 100) % 10), digit((n / 10) % 10), digit(n % 10)]
}

/// A cost in ten-thousandths of a dollar as `$d.dddd`.
pub open spec fn cost_text(c: nat) -> Seq<char> {
    seq!['$'] + dec(c / 10000) + seq!['.'] + four_digits(c % 10000)
}

/// The cost of a session as `$d.dddd`.
pub fn format_cost(snapshot: &SessionSnapshot) -> (r: String)
    ensures
        r@ == cost_text(snapshot.estimated_cost_ten_thousandths as nat),
{
    cost_string(snapshot.estimated_cost_ten_thousandths)
}

/// A cost given in ten-thousandths of a dollar, as `$d.dddd`.
pub fn cost_string(c: u64) -> (r: String)
    ensures
        r@ == cost_text(c as nat),
{
    let mut s = String::new();
    push_char(&mut s, '$');
    push_decimal(&mut s, c / 10000);
    push_char(&mut s, '.');
    let f = c % 10000;
    let digits = [f / 1000, (f / 100) % 10, (f / 10) % 10, f % 10];
    let mut i: usize = 0;
    let ghost before = s@;
    while i < 4
        invariant
            i <= 4,
            f < 10000,
            digits@ == seq![f / 1000, (f / 100) % 10, (f / 10) % 10, f % 10],
            s@ == before + four_digits(f as nat).take(i as int),
        decreases 4 - i,
    {
        let d = digits[i];
        assert(d < 10);
        let c = (48u8 + (d as u8)) as char;
        assert(c == four_digits(f as nat)[i as int]);
        push_char(&mut s, c);
        assert(four_digits(f as nat).take(i + 1) =~= four_digits(f as nat).take(i as int).push(c));
        i += 1;
    }
    assert(four_digits(f as nat).take(4) =~= four_digits(f as nat));
    assert(s@ =~= cost_text(c as nat));
    s
}

/// How `{:?}` writes a status.
pub open spec fn status_name(s: SessionStatus) -> Seq<char> {
    match s {
        SessionStatus::Running => "Running"@,
        SessionStatus::Completed => "Completed"@,
        SessionStatus::Cancelled => "Cancelled"@,
        SessionStatus::Error => "Error"@,
    }
}

/// The name of a status.
pub fn status_label(s: SessionStatus) -> (r: &'static str)
    ensures
        r@ == status_name(s),
{
    match s {
        SessionStatus::Running => "Running",
        SessionStatus::Completed => "Completed",
        SessionStatus::Cancelled => "Cancelled",
        SessionStatus::Error => "Error",
    }
}

/// `s` with each line break turned into a space.
pub open spec fn one_line(s: Seq<char>) -> Seq<char> {
    s.map_values(|c: char| if c == '\n' { ' ' } else { c })
}

/// The summary shown for a session, flattened to one line and cut to `max` characters.
pub open spec fn summary_text(s: Seq<char>, max: nat) -> Seq<char> {
    cut_with_dots(one_line(s), max)
}

/// The summary flattened to one line and cut to `max` characters.
fn summary_line(summary: &str, max: usize) -> (r: String)
    ensures
        r@ == summary_text(summary@, max as nat),
{
    let v = chars_of(summary);
    let mut w: Vec<char> = Vec::new();
    let mut i: usize = 0;
    while i < v.len()
        invariant
            i <= v@.len(),
            w@ =~= one_line(v@.take(i as int)),
        decreases v@.len() - i,
    {
        w.push(if v[i] == '\n' {
            ' '
        } else {
            v[i]
        });
        assert(one_line(v@.take(i + 1)) =~= one_line(v@.take(i as int)).push(
            if v@[i as int] == '\n' {
                ' '
            } else {
                v@[i as int]
            },
        ));
        i += 1;
    }
    assert(v@.take(v@.len() as int) =~= v@);
    truncate_with_dots(string_of(&w).as_str(), max)
}

/// The text of an optional string, or nothing.
pub open spec fn text_or_empty(o: Option<String>) -> Seq<char> {
    match o {
        Some(s) => s@,
        None => Seq::empty(),
    }
}

/// `label` followed by the text, when there is one.
pub open spec fn labelled(label: Seq<char>, o: Option<String>) -> Seq<char> {
    match o {
        Some(s) => label + s@,
        None => Seq::empty(),
    }
}

/// The token counts as `input/output`.
pub open spec fn tokens_text(snap: SessionSnapshot) -> Seq<char> {
    dec(snap.total_input_tokens as nat) + "/"@ + dec(snap.total_output_tokens as nat)
}

/// The header line of a session listing, with the instant written as `updated`.
pub open spec fn listing_header(snap: SessionSnapshot, updated: Seq<char>) -> Seq<char> {
    snap.id@ + "  status="@ + status_name(snap.status) + "  model="@ + snap.model@
        + "  updated="@ + updated + "  children="@ + dec(snap.child_session_ids@.len())
        + labelled("  branch="@, snap.branch) + labelled("  base="@, snap.base_branch)
        + "  tokens="@ + tokens_text(snap) + "  cost="@ + cost_text(
        snap.estimated_cost_ten_thousandths as nat,
    )
}

/// The lines of a session listing: the header, then the worktree and the summary when
/// present.
pub open spec fn listing_lines(snap: SessionSnapshot, updated: Seq<char>) -> Seq<Seq<char>> {
    seq![listing_header(snap, updated)] + match snap.worktree_path {
        Some(w) => seq!["  worktree: "@ + path_suffix(w@, PATH_SUFFIX_MAX as nat)],
        None => seq![],
    } + match snap.session_summary {
        Some(s) => seq!["  summary: "@ + summary_text(s@, SUMMARY_MAX as nat)],
        None => seq![],
    }
}

/// Append `a` to `s`.
fn append_str(s: &mut String, a: &str)
    ensures
        final(s)@ == old(s)@ + a@,
{
    s.append(a);
}

/// The listing lines of a session whose update instant reads `updated` (see
/// [`listing_lines`]).
pub fn format_human_session_lines_at(snapshot: &SessionSnapshot, updated: &str) -> (r: Vec<String>)
    ensures
        views(r@) == listing_lines(*snapshot, updated@),
{
    let mut header = String::new();
    append_str(&mut header, snapshot.id.as_str());
    append_str(&mut header, "  status=");
    append_str(&mut header, status_label(snapshot.status));
    append_str(&mut header, "  model=");
    append_str(&mut header, snapshot.model.as_str());
    append_str(&mut header, "  updated=");
    append_str(&mut header, updated);
    append_str(&mut header, "  children=");
    push_decimal(&mut header, snapshot.child_session_ids.len() as u64);
    if let Some(branch) = &snapshot.branch {
        append_str(&mut header, "  branch=");
        append_str(&mut header, branch.as_str());
    }
    if let Some(base) = &snapshot.base_branch {
        append_str(&mut header, "  base=");
        append_str(&mut header, base.as_str());
    }
    append_str(&mut header, "  tokens=");
    push_decimal(&mut header, snapshot.total_input_tokens);
    append_str(&mut header, "/");
    push_decimal(&mut header, snapshot.total_output_tokens);
    append_str(&mut header, "  cost=");
    let cost = format_cost(snapshot);
    append_str(&mut header, cost.as_str());
    assert(header@ =~= listing_header(*snapshot, updated@));
    let mut lines: Vec<String> = Vec::new();
    lines.push(header);
    if let Some(worktree) = &snapshot.worktree_path {
        let mut line = String::new();
        append_str(&mut line, "  worktree: ");
        let p = format_path_suffix(worktree.as_str(), PATH_SUFFIX_MAX);
        append_str(&mut line, p.as_str());
        lines.push(line);
    }
    if let Some(summary) = &snapshot.session_summary {
        let mut line = String::new();
        append_str(&mut line, "  summary: ");
        let t = summary_line(summary.as_str(), SUMMARY_MAX);
        append_str(&mut line, t.as_str());
        lines.push(line);
    }
    assert(views(lines@) =~= listing_lines(*snapshot, updated@));
    lines
}

/// The listing lines of a session, its update instant in RFC 3339.
pub fn format_human_session_lines(snapshot: &SessionSnapshot) -> (r: Vec<String>)
    requires
        time_ok(snapshot.updated_at),
    ensures
        views(r@) == listing_lines(
            *snapshot,
            rfc3339_text(snapshot.updated_at.secs, snapshot.updated_at.nanos),
        ),
{
    let updated = utc_rfc3339(snapshot.updated_at.secs, snapshot.updated_at.nanos);
    format_human_session_lines_at(snapshot, updated.as_str())
}


/// The text of an optional string, or `dash` when absent.
pub open spec fn text_or(o: Option<String>, dash: Seq<char>) -> Seq<char> {
    match o {
        Some(s) => s@,
        None => dash,
    }
}

/// The lines that introduce a resumed session, with its update instant written as
/// `updated`: id; status, model and instant; branch and base when either is known;
/// worktree; tokens, cost and children; summary.
pub open spec fn briefing_lines(snap: SessionSnapshot, updated: Seq<char>) -> Seq<Seq<char>> {
    seq![
        "Resuming session "@ + snap.id@,
        "Status: "@ + status_name(snap.status) + "  Model: "@ + snap.model@ + "  Updated: "@
            + updated,
    ] + (if snap.branch is Some || snap.base_branch is Some {
        seq!["Branch: "@ + text_or(snap.branch, "-"@) + "  Base: "@ + text_or(snap.base_branch, "-"@)]
    } else {
        seq![]
    }) + match snap.worktree_path {
        Some(w) => seq!["Worktree: "@ + path_suffix(w@, PATH_SUFFIX_MAX as nat)],
        None => seq![],
    } + seq![
        "Tokens: "@ + tokens_text(snap) + "  Cost: "@ + cost_text(
            snap.estimated_cost_ten_thousandths as nat,
        ) + "  Children: "@ + dec(snap.child_session_ids@.len()),
    ] + match snap.session_summary {
        Some(s) => seq!["Summary: "@ + summary_text(s@, SUMMARY_MAX as nat)],
        None => seq![],
    }
}

/// The resume briefing of a session whose update instant reads `updated` (see
/// [`briefing_lines`]).
pub fn format_resume_briefing_lines_at(snapshot: &SessionSnapshot, updated: &str) -> (r: Vec<String>)
    ensures
        views(r@) == briefing_lines(*snapshot, updated@),
{
    let mut lines: Vec<String> = Vec::new();
    let mut first = String::new();
    append_str(&mut first, "Resuming session ");
    append_str(&mut first, snapshot.id.as_str());
    lines.push(first);
    let mut second = String::new();
    append_str(&mut second, "Status: ");
    append_str(&mut second, status_label(snapshot.status));
    append_str(&mut second, "  Model: ");
    append_str(&mut second, snapshot.model.as_str());
    append_str(&mut second, "  Updated: ");
    append_str(&mut second, updated);
    lines.push(second);
    let ghost snap = *snapshot;
    let ghost head = seq![
        "Resuming session "@ + snap.id@,
        "Status: "@ + status_name(snap.status) + "  Model: "@ + snap.model@ + "  Updated: "@
            + updated@,
    ];
    let ghost branch_part: Seq<Seq<char>> = if snap.branch is Some || snap.base_branch is Some {
        seq!["Branch: "@ + text_or(snap.branch, "-"@) + "  Base: "@ + text_or(snap.base_branch, "-"@)]
    } else {
        seq![]
    };
    let ghost worktree_part: Seq<Seq<char>> = match snap.worktree_path {
        Some(w) => seq!["Worktree: "@ + path_suffix(w@, PATH_SUFFIX_MAX as nat)],
        None => seq![],
    };
    assert(views(lines@) =~= head);
    if snapshot.branch.is_some() || snapshot.base_branch.is_some() {
        let mut line = String::new();
        append_str(&mut line, "Branch: ");
        match &snapshot.branch {
            Some(b) => append_str(&mut line, b.as_str()),
            None => append_str(&mut line, "-"),
        }
        append_str(&mut line, "  Base: ");
        match &snapshot.base_branch {
            Some(b) => append_str(&mut line, b.as_str()),
            None => append_str(&mut line, "-"),
        }
        lines.push(line);
    }
    assert(views(lines@) =~= head + branch_part);
    if let Some(worktree) = &snapshot.worktree_path {
        let mut line = String::new();
        append_str(&mut line, "Worktree: ");
        let p = format_path_suffix(worktree.as_str(), PATH_SUFFIX_MAX);
        append_str(&mut line, p.as_str());
        lines.push(line);
    }
    assert(views(lines@) =~= head + branch_part + worktree_part);
    let mut tokens = String::new();
    append_str(&mut tokens, "Tokens: ");
    push_decimal(&mut tokens, snapshot.total_input_tokens);
    append_str(&mut tokens, "/");
    push_decimal(&mut tokens, snapshot.total_output_tokens);
    append_str(&mut tokens, "  Cost: ");
    let cost = format_cost(snapshot);
    append_str(&mut tokens, cost.as_str());
    append_str(&mut tokens, "  Children: ");
    push_decimal(&mut tokens, snapshot.child_session_ids.len() as u64);
    let ghost tokens_part = seq![
        "Tokens: "@ + tokens_text(snap) + "  Cost: "@ + cost_text(
            snap.estimated_cost_ten_thousandths as nat,
        ) + "  Children: "@ + dec(snap.child_session_ids@.len()),
    ];
    assert(tokens@ =~= tokens_part[0]);
    lines.push(tokens);
    assert(views(lines@) =~= head + branch_part + worktree_part + tokens_part);
    if let Some(summary) = &snapshot.session_summary {
        let mut line = String::new();
        append_str(&mut line, "Summary: ");
        let t = summary_line(summary.as_str(), SUMMARY_MAX);
        append_str(&mut line, t.as_str());
        lines.push(line);
    }
    assert(views(lines@) =~= briefing_lines(*snapshot, updated@));
    lines
}

/// The resume briefing of a session, its update instant in RFC 3339.
pub fn format_resume_briefing_lines(snapshot: &SessionSnapshot) -> (r: Vec<String>)
    requires
        time_ok(snapshot.updated_at),
    ensures
        views(r@) == briefing_lines(
            *snapshot,
            rfc3339_text(snapshot.updated_at.secs, snapshot.updated_at.nanos),
        ),
{
    let updated = utc_rfc3339(snapshot.updated_at.secs, snapshot.updated_at.nanos);
    format_resume_briefing_lines_at(snapshot, updated.as_str())
}

/// The one-line label of a session in the session picker, its update minute written as
/// `updated`.
pub open spec fn picker_label(snap: SessionSnapshot, updated: Seq<char>) -> Seq<char> {
    snap.id@ + "  ["@ + status_name(snap.status) + "]  "@ + snap.model@ + "  updated="@ + updated
        + labelled("  branch="@, snap.branch) + "  cost="@ + cost_text(
        snap.estimated_cost_ten_thousandths as nat,
    ) + "  tokens="@ + tokens_text(snap) + match snap.session_summary {
        Some(s) => "  — "@ + summary_text(s@, PICKER_SUMMARY_MAX as nat),
        None => Seq::empty(),
    }
}

/// The picker label of a session whose update minute reads `updated` (see
/// [`picker_label`]).
pub fn format_session_picker_label_at(snapshot: &SessionSnapshot, updated: &str) -> (r: String)
    ensures
        r@ == picker_label(*snapshot, updated@),
{
    let mut label = String::new();
    append_str(&mut label, snapshot.id.as_str());
    append_str(&mut label, "  [");
    append_str(&mut label, status_label(snapshot.status));
    append_str(&mut label, "]  ");
    append_str(&mut label, snapshot.model.as_str());
    append_str(&mut label, "  updated=");
    append_str(&mut label, updated);
    if let Some(branch) = &snapshot.branch {
        append_str(&mut label, "  branch=");
        append_str(&mut label, branch.as_str());
    }
    append_str(&mut label, "  cost=");
    let cost = format_cost(snapshot);
    append_str(&mut label, cost.as_str());
    append_str(&mut label, "  tokens=");
    push_decimal(&mut label, snapshot.total_input_tokens);
    append_str(&mut label, "/");
    push_decimal(&mut label, snapshot.total_output_tokens);
    if let Some(summary) = &snapshot.session_summary {
        append_str(&mut label, "  — ");
        let t = summary_line(summary.as_str(), PICKER_SUMMARY_MAX);
        append_str(&mut label, t.as_str());
    }
    assert(label@ =~= picker_label(*snapshot, updated@));
    label
}

/// The picker label of a session, its update minute as `%Y-%m-%d %H:%M`.
pub fn format_session_picker_label(snapshot: &SessionSnapshot) -> (r: String)
    requires
        time_ok(snapshot.updated_at),
    ensures
        r@ == picker_label(
            *snapshot,
            utc_format_text(
                snapshot.updated_at.secs,
                snapshot.updated_at.nanos,
                "%Y-%m-%d %H:%M"@,
            ),
        ),
{
    let updated = utc_format(snapshot.updated_at.secs, snapshot.updated_at.nanos, "%Y-%m-%d %H:%M");
    format_session_picker_label_at(snapshot, updated.as_str())
}

/// The lines of `nca cost` for one session and its event log.
pub open spec fn cost_lines(snap: SessionSnapshot, log: Seq<char>) -> Seq<Seq<char>> {
    seq![
        "Session:     "@ + snap.id@,
        "Status:      "@ + status_name(snap.status),
        "Model:       "@ + snap.model@,
        "Input:       "@ + dec(snap.total_input_tokens as nat),
        "Output:      "@ + dec(snap.total_output_tokens as nat),
        "Cost:        "@ + cost_text(snap.estimated_cost_ten_thousandths as nat),
        "Children:    "@ + dec(snap.child_session_ids@.len()),
        "Event log:   "@ + log,
    ]
}

/// A labelled line.
fn line_of(label: &str, value: &str) -> (r: String)
    ensures
        r@ == label@ + value@,
{
    let mut s = String::new();
    append_str(&mut s, label);
    append_str(&mut s, value);
    s
}

/// A labelled number.
fn number_line(label: &str, n: u64) -> (r: String)
    ensures
        r@ == label@ + dec(n as nat),
{
    let mut s = String::new();
    append_str(&mut s, label);
    push_decimal(&mut s, n);
    s
}

/// The cost summary of a session and its event log (see [`cost_lines`]).
pub fn format_cost_lines(snapshot: &SessionSnapshot, event_log_path: &str) -> (r: Vec<String>)
    ensures
        views(r@) == cost_lines(*snapshot, event_log_path@),
{
    let cost = format_cost(snapshot);
    let lines = vec![
        line_of("Session:     ", snapshot.id.as_str()),
        line_of("Status:      ", status_label(snapshot.status)),
        line_of("Model:       ", snapshot.model.as_str()),
        number_line("Input:       ", snapshot.total_input_tokens),
        number_line("Output:      ", snapshot.total_output_tokens),
        line_of("Cost:        ", cost.as_str()),
        number_line("Children:    ", snapshot.child_session_ids.len() as u64),
        line_of("Event log:   ", event_log_path),
    ];
    assert(views(lines@) =~= cost_lines(*snapshot, event_log_path@));
    lines
}

/// The lines of `nca attach` for one session and its event log.
pub open spec fn attach_lines(snap: SessionSnapshot, log: Seq<char>) -> Seq<Seq<char>> {
    seq![
        "Session:     "@ + snap.id@,
        "Status:      "@ + status_name(snap.status),
        "Socket:      "@ + text_or(snap.socket_path, "<none>"@),
        "Event log:   "@ + log,
        "Attach cmd:  nca attach "@ + snap.id@,
        "Logs cmd:    nca logs "@ + snap.id@,
    ] + match snap.branch {
        Some(b) => seq!["Branch:      "@ + b@],
        None => seq![],
    }
}

/// How to reach a session: socket, event log, and the commands to attach and follow it
/// (see [`attach_lines`]).
pub fn format_attach_lines(snapshot: &SessionSnapshot, event_log_path: &str) -> (r: Vec<String>)
    ensures
        views(r@) == attach_lines(*snapshot, event_log_path@),
{
    let socket = match &snapshot.socket_path {
        Some(p) => line_of("Socket:      ", p.as_str()),
        None => line_of("Socket:      ", "<none>"),
    };
    let mut lines = vec![
        line_of("Session:     ", snapshot.id.as_str()),
        line_of("Status:      ", status_label(snapshot.status)),
        socket,
        line_of("Event log:   ", event_log_path),
        line_of("Attach cmd:  nca attach ", snapshot.id.as_str()),
        line_of("Logs cmd:    nca logs ", snapshot.id.as_str()),
    ];
    if let Some(branch) = &snapshot.branch {
        lines.push(line_of("Branch:      ", branch.as_str()));
    }
    assert(views(lines@) =~= attach_lines(*snapshot, event_log_path@));
    lines
}

/// A session is worth a briefing when it has more than one message, used tokens, has
/// children, a summary, a branch or a worktree.
pub open spec fn briefing_wanted(snap: SessionSnapshot, message_count: nat) -> bool {
    message_count > 1 || snap.total_input_tokens > 0 || snap.total_output_tokens > 0
        || snap.child_session_ids@.len() > 0 || snap.session_summary is Some
        || snap.branch is Some || snap.worktree_path is Some
}

/// Whether resuming should show a briefing (see [`briefing_wanted`]).
pub fn should_show_resume_briefing(snapshot: &SessionSnapshot, message_count: usize) -> (r: bool)
    ensures
        r == briefing_wanted(*snapshot, message_count as nat),
{
    message_count > 1 || snapshot.total_input_tokens > 0 || snapshot.total_output_tokens > 0
        || !snapshot.child_session_ids.is_empty() || snapshot.session_summary.is_some()
        || snapshot.branch.is_some() || snapshot.worktree_path.is_some()
}

} // verus!
