//! The status bar of the session screen: what it shows and in which tone.

use crate::session::{cost_text, dec, push_decimal, cost_string};
use crate::text::contains_seq;
use crate::text_utils::{byte_head, cuts_at_boundary, session_id_head};
use crate::transcript_view::{spans_view, Tone};
use crate::turn_state::{escape_cancels, toolbar_permission_is_bypass, BusyState};
use vstd::prelude::*;
use vstd::string::StringSliceAdditionalSpecFns;

verus! {

/// What the status bar shows.
#[derive(Clone, Debug, PartialEq, Eq)]
pub struct StatusBarData {
    pub model: String,
    pub agent_profile: String,
    pub current_branch: String,
    pub permission_mode: String,
    pub session_id: String,
    pub input_tokens: u64,
    pub output_tokens: u64,
    /// Cost in ten-thousandths of a dollar.
    pub cost_ten_thousandths: u64,
    pub context_usage_percent: u8,
    pub current_busy_state: BusyState,
    pub active_approval: bool,
    pub active_question: bool,
}

impl Default for StatusBarData {
    /// The bar before anything is known: model `unknown`, profile `Build`, permission
    /// `ask`, idle, nothing counted.
    fn default() -> (r: Self)
        ensures
            r.model@ == "unknown"@,
            r.agent_profile@ == "Build"@,
            r.current_branch@.len() == 0,
            r.permission_mode@ == "ask"@,
            r.session_id@.len() == 0,
            r.input_tokens == 0,
            r.output_tokens == 0,
            r.cost_ten_thousandths == 0,
            r.context_usage_percent == 0,
            r.current_busy_state == BusyState::Idle,
            !r.active_approval,
            !r.active_question,
    {
        StatusBarData {
            model: "unknown".to_owned(),
            agent_profile: "Build".to_owned(),
            current_branch: String::new(),
            permission_mode: "ask".to_owned(),
            session_id: String::new(),
            input_tokens: 0,
            output_tokens: 0,
            cost_ten_thousandths: 0,
            context_usage_percent: 0,
            current_busy_state: BusyState::Idle,
            active_approval: false,
            active_question: false,
        }
    }
}

/// The context usage shown, clamped to 100.
pub fn context_percent(usage: usize) -> (r: u8)
    ensures
        r as int == if usage > 100 { 100 } else { usage as int },
{
    if usage > 100 {
        100
    } else {
        usage as u8
    }
}

/// `n` with at least two digits.
pub open spec fn two_digits(n: nat) -> Seq<char> {
    if n < 10 {
        seq!['0'] + dec(n)
    } else {
        dec(n)
    }
}

/// The tone of the context usage: error from 90%, warning from 70%, muted below.
pub open spec fn context_tone(pct: u8) -> Tone {
    if pct >= 90 {
        Tone::Error
    } else if pct >= 70 {
        Tone::Warn
    } else {
        Tone::Muted
    }
}

/// The spans of the bar: busy indicator, approval and question hints, model, profile,
/// branch, permission (a warning in bypass mode); with the sidebar hidden also the session,
/// tokens and cost; then the context usage and the elapsed time as `mm:ss`.
pub open spec fn status_spans(
    d: StatusBarData,
    indicator: Seq<char>,
    elapsed_secs: nat,
    sidebar_visible: bool,
    short_id: Seq<char>,
) -> Seq<(Tone, Seq<char>)> {
    seq![
        (Tone::Indicator, indicator),
        if d.active_approval { (Tone::Error, " !approve "@) } else { (Tone::Plain, Seq::empty()) },
        if d.active_question { (Tone::Warn, " ?answer "@) } else { (Tone::Plain, Seq::empty()) },
        (Tone::Plain, " │ "@),
        (Tone::ModelName, d.model@),
        (Tone::Plain, " │ "@),
        (Tone::Profile, d.agent_profile@),
        (Tone::Plain, " │ "@),
        (Tone::Branch, if d.current_branch@.len() == 0 { Seq::empty() } else { "⎇ "@ + d.current_branch@ }),
        (Tone::Plain, " │ "@),
        if contains_seq(d.permission_mode@, "BypassPermissions"@) {
            (Tone::BypassBadge, " BYPASS — tools run without approval "@)
        } else {
            (Tone::Muted, " perm:"@ + d.permission_mode@ + " "@)
        },
    ] + (if sidebar_visible {
        seq![]
    } else {
        seq![
            (Tone::Plain, " │ "@),
            (Tone::Muted, short_id),
            (Tone::Plain, " │ in:"@),
            (Tone::Text, dec(d.input_tokens as nat)),
            (Tone::Plain, " out:"@),
            (Tone::Text, dec(d.output_tokens as nat)),
            (Tone::Plain, " │ $"@),
            (Tone::Success, cost_text(d.cost_ten_thousandths as nat).drop_first()),
        ]
    }) + seq![
        (Tone::Plain, " │ ctx:"@),
        (context_tone(d.context_usage_percent), dec(d.context_usage_percent as nat) + "%"@),
        (Tone::Plain, " │ "@),
        (Tone::Muted, two_digits(elapsed_secs / 60) + ":"@ + two_digits(elapsed_secs % 60)),
    ]
}

fn two_digit_text(n: u64) -> (r: String)
    ensures
        r@ == two_digits(n as nat),
{
    let mut s = String::new();
    if n < 10 {
        crate::text::push_char(&mut s, '0');
    }
    push_decimal(&mut s, n);
    s
}

fn push_span(out: &mut Vec<(Tone, String)>, t: Tone, s: String)
    ensures
        spans_view(final(out)@) == spans_view(old(out)@).push((t, s@)),
{
    let ghost o = spans_view(out@);
    let ghost v = s@;
    out.push((t, s));
    assert(spans_view(out@) =~= o.push((t, v)));
}

/// The spans of the status bar (see [`status_spans`]) and whether the Esc hint shows
/// beside it (while the turn can be cancelled); `indicator` is the busy indicator's text
/// and `elapsed_secs` the session's running time. With the sidebar hidden the bar shows the
/// session id's first eight bytes, which must end between two characters.
pub fn status_bar_spans(
    d: &StatusBarData,
    indicator: &str,
    elapsed_secs: u64,
    sidebar_visible: bool,
) -> (r: (Vec<(Tone, String)>, bool))
    requires
        !sidebar_visible ==> cuts_at_boundary(d.session_id@, 8),
    ensures
        sidebar_visible ==> spans_view(r.0@) == status_spans(*d, indicator@, elapsed_secs as nat, true, Seq::empty()),
        !sidebar_visible ==> spans_view(r.0@) == status_spans(
            *d,
            indicator@,
            elapsed_secs as nat,
            false,
            byte_head(d.session_id@, 8),
        ),
        r.1 == escape_cancels(d.current_busy_state),
{
    let mut out: Vec<(Tone, String)> = Vec::new();
    push_span(&mut out, Tone::Indicator, indicator.to_owned());
    if d.active_approval {
        push_span(&mut out, Tone::Error, " !approve ".to_owned());
    } else {
        push_span(&mut out, Tone::Plain, String::new());
    }
    if d.active_question {
        push_span(&mut out, Tone::Warn, " ?answer ".to_owned());
    } else {
        push_span(&mut out, Tone::Plain, String::new());
    }
    push_span(&mut out, Tone::Plain, " │ ".to_owned());
    push_span(&mut out, Tone::ModelName, d.model.clone());
    push_span(&mut out, Tone::Plain, " │ ".to_owned());
    push_span(&mut out, Tone::Profile, d.agent_profile.clone());
    push_span(&mut out, Tone::Plain, " │ ".to_owned());
    if d.current_branch.as_str().unicode_len() == 0 {
        push_span(&mut out, Tone::Branch, String::new());
    } else {
        let mut b = "⎇ ".to_owned();
        b.append(d.current_branch.as_str());
        push_span(&mut out, Tone::Branch, b);
    }
    push_span(&mut out, Tone::Plain, " │ ".to_owned());
    if toolbar_permission_is_bypass(d.permission_mode.as_str()) {
        push_span(&mut out, Tone::BypassBadge, " BYPASS — tools run without approval ".to_owned());
    } else {
        let mut p = " perm:".to_owned();
        p.append(d.permission_mode.as_str());
        p.append(" ");
        push_span(&mut out, Tone::Muted, p);
    }
    if !sidebar_visible {
        push_span(&mut out, Tone::Plain, " │ ".to_owned());
        let short = session_id_head(d.session_id.as_str());
        push_span(&mut out, Tone::Muted, short.clone());
        assert(spans_view(out@)[12].1 == short@);
        push_span(&mut out, Tone::Plain, " │ in:".to_owned());
        let mut a = String::new();
        push_decimal(&mut a, d.input_tokens);
        push_span(&mut out, Tone::Text, a);
        push_span(&mut out, Tone::Plain, " out:".to_owned());
        let mut b = String::new();
        push_decimal(&mut b, d.output_tokens);
        push_span(&mut out, Tone::Text, b);
        push_span(&mut out, Tone::Plain, " │ $".to_owned());
        let c = crate::text::chars_of(cost_string(d.cost_ten_thousandths).as_str());
        let digits = crate::text::slice_vec(&c, 1, c.len());
        push_span(&mut out, Tone::Success, crate::text::string_of(&digits));
    }
    push_span(&mut out, Tone::Plain, " │ ctx:".to_owned());
    let mut pct = String::new();
    push_decimal(&mut pct, d.context_usage_percent as u64);
    pct.append("%");
    let tone = if d.context_usage_percent >= 90 {
        Tone::Error
    } else if d.context_usage_percent >= 70 {
        Tone::Warn
    } else {
        Tone::Muted
    };
    push_span(&mut out, tone, pct);
    push_span(&mut out, Tone::Plain, " │ ".to_owned());
    let mut t = two_digit_text(elapsed_secs / 60);
    t.append(":");
    t.append(two_digit_text(elapsed_secs % 60).as_str());
    push_span(&mut out, Tone::Muted, t);
    proof {
        reveal_strlit("");
    }
    if sidebar_visible {
        assert(spans_view(out@) =~= status_spans(*d, indicator@, elapsed_secs as nat, true, Seq::empty()));
    } else {
        assert(spans_view(out@) =~= status_spans(
            *d,
            indicator@,
            elapsed_secs as nat,
            false,
            spans_view(out@)[12].1,
        ));
    }
    let cancel = match d.current_busy_state {
        BusyState::Thinking | BusyState::Streaming | BusyState::ToolRunning => true,
        _ => false,
    };
    (out, cancel)
}

} // verus!
