//! The state of a running turn as the session screen sees it, and answers to the agent's
//! questions.

use crate::approval::{approval_verdict, parse_approval_verdict, to_lowercase, unicode_lower};
use crate::cli_values::{parse_unsigned, parse_unsigned_exec};
use crate::text::{chars_of, contains_seq, contains_vec, eq_vec, lower, lower_vec, string_of, trim, trim_vec};
use crate::tui_cmd::QuestionSelection;
use vstd::prelude::*;

verus! {

/// What the agent is doing.
#[derive(Clone, Copy, PartialEq, Eq, Debug)]
pub enum BusyState {
    Idle,
    Thinking,
    Streaming,
    ToolRunning,
    ApprovalPending,
}

/// Esc cancels the turn only while the agent thinks, streams or runs a tool, not while it
/// waits for an approval or is idle.
pub open spec fn escape_cancels(b: BusyState) -> bool {
    b == BusyState::Thinking || b == BusyState::Streaming || b == BusyState::ToolRunning
}

/// Whether Esc cancels the turn in busy state `busy` (see [`escape_cancels`]).
pub fn escape_cancels_active_turn(busy: BusyState) -> (r: bool)
    ensures
        r == escape_cancels(busy),
{
    match busy {
        BusyState::Thinking | BusyState::Streaming | BusyState::ToolRunning => true,
        _ => false,
    }
}

/// Whether the toolbar's permission text (a mode's debug name) is bypass mode.
pub fn toolbar_permission_is_bypass(mode: &str) -> (r: bool)
    ensures
        r == contains_seq(mode@, "BypassPermissions"@),
{
    contains_vec(&chars_of(mode), &chars_of("BypassPermissions"))
}

/// Status of an API key validation during onboarding.
#[derive(Clone, PartialEq, Eq, Debug)]
pub enum OnboardingValidation {
    Validating,
    Valid,
    Failed(String),
}

/// The answer a typed reply gives an open question with the given option ids: blank,
/// `0` or `s` (either case) take the suggestion; a number from 1 to the number of options
/// picks that option; other text is a custom answer when the question allows one.
pub open spec fn question_answer(raw: Seq<char>, option_ids: Seq<Seq<char>>, allow_custom: bool) -> Option<
    (int, Seq<char>),
> {
    let t = trim(raw);
    if t.len() == 0 || t == "0"@ || lower(t) == "s"@ {
        Some((0, Seq::empty()))
    } else if parse_unsigned(t, usize::MAX as int) is Some && 1 <= parse_unsigned(
        t,
        usize::MAX as int,
    )->0 <= option_ids.len() {
        Some((1, option_ids[parse_unsigned(t, usize::MAX as int)->0 - 1]))
    } else if allow_custom {
        Some((2, t))
    } else {
        None
    }
}

/// A selection matches an answer of [`question_answer`]: 0 suggested, 1 an option id,
/// 2 custom text.
pub open spec fn selection_is(r: Option<QuestionSelection>, a: Option<(int, Seq<char>)>) -> bool {
    match (r, a) {
        (None, None) => true,
        (Some(QuestionSelection::Suggested), Some((k, _))) => k == 0,
        (Some(QuestionSelection::Picked { option_id }), Some((k, id))) => k == 1 && option_id@ == id,
        (Some(QuestionSelection::Custom { text }), Some((k, t))) => k == 2 && text@ == t,
        _ => false,
    }
}

/// Read a typed reply to an open question (see [`question_answer`]).
pub fn parse_tui_question_answer(raw: &str, option_ids: &[String], allow_custom: bool) -> (r: Option<
    QuestionSelection,
>)
    ensures
        selection_is(r, question_answer(raw@, crate::wrap::views(option_ids@), allow_custom)),
{
    let t = trim_vec(&chars_of(raw));
    let low = lower_vec(&t);
    if t.len() == 0 || eq_vec(&t, &chars_of("0")) || eq_vec(&low, &chars_of("s")) {
        return Some(QuestionSelection::Suggested);
    }
    match parse_unsigned_exec(&t, usize::MAX as u64) {
        Some(n) => {
            if n >= 1 && n <= option_ids.len() as u64 {
                let k = (n - 1) as usize;
                assert(crate::wrap::views(option_ids@)[k as int] == option_ids@[k as int]@);
                return Some(QuestionSelection::Picked { option_id: option_ids[k].clone() });
            }
        },
        None => {},
    }
    if allow_custom {
        Some(QuestionSelection::Custom { text: string_of(&t) })
    } else {
        None
    }
}

/// Where a submitted composer line goes.
#[derive(Clone, Debug)]
pub enum LineRoute {
    /// To the agent (a prompt or a slash command).
    Submit,
    /// An approval is pending and the line was blank: remind how to answer.
    ApprovalEmpty,
    /// The pending approval is answered.
    ApprovalVerdict(bool),
    /// An approval is pending and the line is no answer: say so.
    ApprovalUnparsed,
    /// The pending question is answered.
    QuestionAnswer(QuestionSelection),
    /// A question is pending and the line is no valid answer: say so.
    QuestionInvalid,
}

/// The route of a submitted line. With an approval pending, the trimmed line decides: blank
/// asks again; a slash line is `/approve /y /yes /ok` (approve) or `/deny /n /no` (deny) in
/// any case, else a command; other text is read as a reply. With a question pending (and
/// no approval): `/auto-answer` takes the suggestion, other slash lines are commands, and
/// other text is read as an answer. Otherwise the line goes to the agent.
pub open spec fn route_is(
    r: LineRoute,
    line: Seq<char>,
    approval_pending: bool,
    question: Option<(Seq<Seq<char>>, bool)>,
) -> bool {
    let t = trim(line);
    if approval_pending {
        if t.len() == 0 {
            r is ApprovalEmpty
        } else if t[0] == '/' {
            let l = unicode_lower(t);
            if l == "/approve"@ || l == "/y"@ || l == "/yes"@ || l == "/ok"@ {
                r == LineRoute::ApprovalVerdict(true)
            } else if l == "/deny"@ || l == "/n"@ || l == "/no"@ {
                r == LineRoute::ApprovalVerdict(false)
            } else {
                r is Submit
            }
        } else {
            match approval_verdict(t) {
                Some(b) => r == LineRoute::ApprovalVerdict(b),
                None => r is ApprovalUnparsed,
            }
        }
    } else {
        match question {
            Some((ids, custom)) => if t == "/auto-answer"@ {
                r == LineRoute::QuestionAnswer(QuestionSelection::Suggested)
            } else if t.len() > 0 && t[0] == '/' {
                r is Submit
            } else {
                match r {
                    LineRoute::QuestionAnswer(sel) => selection_is(
                        Some(sel),
                        question_answer(line, ids, custom),
                    ),
                    LineRoute::QuestionInvalid => question_answer(line, ids, custom) is None,
                    _ => false,
                }
            },
            None => r is Submit,
        }
    }
}

fn is_one_of_words(w: &[char], options: &[&str]) -> (b: bool)
    ensures
        b == exists|k: int| 0 <= k < options@.len() && w@ == options@[k]@,
{
    let mut k: usize = 0;
    while k < options.len()
        invariant
            k <= options@.len(),
            forall|j: int| 0 <= j < k ==> w@ != options@[j]@,
        decreases options@.len() - k,
    {
        if eq_vec(w, &chars_of(options[k])) {
            return true;
        }
        k += 1;
    }
    false
}

/// Where a submitted line goes (see [`route_is`]); `question` holds the pending
/// question's option ids and whether it takes custom text.
pub fn route_submitted_line(line: &str, approval_pending: bool, question: Option<(&[String], bool)>) -> (r:
    LineRoute)
    ensures
        route_is(
            r,
            line@,
            approval_pending,
            match question {
                Some((ids, c)) => Some((crate::wrap::views(ids@), c)),
                None => None,
            },
        ),
{
    let tv = trim_vec(&chars_of(line));
    let t = string_of(&tv);
    if approval_pending {
        if tv.len() == 0 {
            return LineRoute::ApprovalEmpty;
        }
        if tv[0] == '/' {
            let l = chars_of(to_lowercase(t.as_str()).as_str());
            let approve_forms: [&str; 4] = ["/approve", "/y", "/yes", "/ok"];
            let deny_forms: [&str; 3] = ["/deny", "/n", "/no"];
            assert(approve_forms@[0] == "/approve" && approve_forms@[1] == "/y" && approve_forms@[2]
                == "/yes" && approve_forms@[3] == "/ok");
            assert(deny_forms@[0] == "/deny" && deny_forms@[1] == "/n" && deny_forms@[2] == "/no");
            if is_one_of_words(&l, &approve_forms) {
                return LineRoute::ApprovalVerdict(true);
            }
            if is_one_of_words(&l, &deny_forms) {
                return LineRoute::ApprovalVerdict(false);
            }
            return LineRoute::Submit;
        }
        return match parse_approval_verdict(t.as_str()) {
            Some(b) => LineRoute::ApprovalVerdict(b),
            None => LineRoute::ApprovalUnparsed,
        };
    }
    match question {
        Some((ids, custom)) => {
            if eq_vec(&tv, &chars_of("/auto-answer")) {
                return LineRoute::QuestionAnswer(QuestionSelection::Suggested);
            }
            if tv.len() > 0 && tv[0] == '/' {
                return LineRoute::Submit;
            }
            match parse_tui_question_answer(line, ids, custom) {
                Some(sel) => LineRoute::QuestionAnswer(sel),
                None => LineRoute::QuestionInvalid,
            }
        },
        None => LineRoute::Submit,
    }
}

/// What a submitted line does while the API key popup is open.
#[derive(Clone, Debug, PartialEq, Eq)]
pub enum ApiKeySubmission {
    /// A slash line closes the popup.
    Close,
    /// Nothing typed and a key is already set: keep it.
    KeepExisting,
    /// Nothing typed and no key set: ask for one.
    AskAgain,
    /// Save the typed key.
    Save(String),
}

/// The outcome of submitting `line` with `key_input` typed into the API key popup (both
/// trimmed): a slash line closes it; no key keeps an existing one or asks again; a key
/// is saved.
pub open spec fn api_key_outcome(line: Seq<char>, key_input: Seq<char>, had_existing: bool) -> (nat, Seq<char>) {
    let l = trim(line);
    let typed = trim(key_input);
    if l.len() > 0 && l[0] == '/' {
        (0, Seq::empty())
    } else if typed.len() == 0 {
        if had_existing {
            (1, Seq::empty())
        } else {
            (2, Seq::empty())
        }
    } else {
        (3, typed)
    }
}

/// The submission matches an outcome of [`api_key_outcome`].
pub open spec fn submission_is(r: ApiKeySubmission, o: (nat, Seq<char>)) -> bool {
    match r {
        ApiKeySubmission::Close => o.0 == 0,
        ApiKeySubmission::KeepExisting => o.0 == 1,
        ApiKeySubmission::AskAgain => o.0 == 2,
        ApiKeySubmission::Save(k) => o.0 == 3 && k@ == o.1,
    }
}

/// What submitting `line` does in the API key popup (see [`api_key_outcome`]).
pub fn api_key_submission(line: &str, key_input: &str, had_existing: bool) -> (r: ApiKeySubmission)
    ensures
        submission_is(r, api_key_outcome(line@, key_input@, had_existing)),
{
    let l = trim_vec(&chars_of(line));
    if l.len() > 0 && l[0] == '/' {
        return ApiKeySubmission::Close;
    }
    let typed = trim_vec(&chars_of(key_input));
    if typed.len() == 0 {
        if had_existing {
            ApiKeySubmission::KeepExisting
        } else {
            ApiKeySubmission::AskAgain
        }
    } else {
        ApiKeySubmission::Save(string_of(&typed))
    }
}

} // verus!
