//! The question popup: the agent's question as a list of the suggested answer, the options
//! and (when free text is allowed) a way back to typing an answer.

use crate::keys::{KeyCode, KeyEvent, MOD_NONE};
use crate::styled::{cat2, push_empty, push_muted, push_styled, styled_view};
use crate::text::{chars_of, string_of, trim, trim_vec};
use crate::transcript_view::{spans_view, QuestionPayload, QuestionOption, Tone};
use crate::tui_cmd::QuestionSelection;
use vstd::prelude::*;

verus! {

/// What a key does in the question popup.
pub enum QuestionModalAction {
    /// Nothing beyond moving the highlight.
    NoOp,
    /// Close the popup and keep the question open for a typed answer.
    Close,
    /// Answer the question and close the popup.
    Answer(QuestionSelection),
}

/// Rows of the popup: the suggested answer, each option, and "Chat about this" when free
/// text is allowed.
pub open spec fn item_count(q: QuestionPayload) -> nat {
    1 + q.options@.len() + if q.allow_custom { 1nat } else { 0nat }
}

/// The rows of the popup.
pub fn question_item_count(q: &QuestionPayload) -> (r: usize)
    requires
        q.options@.len() + 2 <= usize::MAX,
    ensures
        r == item_count(*q),
{
    1 + q.options.len() + if q.allow_custom {
        1
    } else {
        0
    }
}

/// The highlighted row after `key`: Up/`k` moves up, Down/`j` moves down, within the rows.
pub open spec fn modal_index_after(q: QuestionPayload, index: nat, key: KeyEvent) -> nat {
    if key.code == KeyCode::Up || (key.code == KeyCode::Char('k') && key.modifiers == MOD_NONE) {
        if index >= 1 { (index - 1) as nat } else { 0 }
    } else if key.code == KeyCode::Down || (key.code == KeyCode::Char('j') && key.modifiers == MOD_NONE) {
        if index + 1 <= item_count(q) - 1 { index + 1 } else { (item_count(q) - 1) as nat }
    } else {
        index
    }
}

/// Apply a key to the popup on row `index`: the new row and what to do. Esc closes the
/// popup only when free text is allowed; Enter answers with the suggested answer (row 0) or
/// an option, or, on the last row of a free-text question, closes the popup.
pub fn question_modal_key(q: &QuestionPayload, index: usize, key: KeyEvent) -> (r: (usize, QuestionModalAction))
    requires
        q.options@.len() + 2 <= usize::MAX,
    ensures
        r.0 == modal_index_after(*q, index as nat, key),
        key.code == KeyCode::Esc ==> (if q.allow_custom {
            r.1 is Close
        } else {
            r.1 is NoOp
        }),
        key.code == KeyCode::Enter ==> (if index == 0 {
            r.1 matches QuestionModalAction::Answer(QuestionSelection::Suggested)
        } else if index <= q.options@.len() {
            r.1 matches QuestionModalAction::Answer(QuestionSelection::Picked { option_id })
                && option_id@ == q.options@[index - 1].id@
        } else {
            r.1 is Close
        }),
        key.code != KeyCode::Esc && key.code != KeyCode::Enter ==> r.1 is NoOp,
{
    let total = question_item_count(q);
    match key.code {
        KeyCode::Esc => {
            if q.allow_custom {
                (index, QuestionModalAction::Close)
            } else {
                (index, QuestionModalAction::NoOp)
            }
        },
        KeyCode::Enter => {
            if index == 0 {
                (index, QuestionModalAction::Answer(QuestionSelection::Suggested))
            } else if index <= q.options.len() {
                let id = q.options[index - 1].id.clone();
                (index, QuestionModalAction::Answer(QuestionSelection::Picked { option_id: id }))
            } else {
                (index, QuestionModalAction::Close)
            }
        },
        KeyCode::Up => (if index >= 1 { index - 1 } else { 0 }, QuestionModalAction::NoOp),
        KeyCode::Down => (if index < total - 1 { index + 1 } else { total - 1 }, QuestionModalAction::NoOp),
        KeyCode::Char(c) => {
            if c == 'k' && key.modifiers == MOD_NONE {
                (if index >= 1 { index - 1 } else { 0 }, QuestionModalAction::NoOp)
            } else if c == 'j' && key.modifiers == MOD_NONE {
                (if index < total - 1 { index + 1 } else { total - 1 }, QuestionModalAction::NoOp)
            } else {
                (index, QuestionModalAction::NoOp)
            }
        },
        _ => (index, QuestionModalAction::NoOp),
    }
}

/// A row of the popup: highlighted with a `►` marker, or indented.
pub open spec fn item_line(selected: bool, text: Seq<char>) -> Seq<(Tone, Seq<char>)> {
    if selected {
        seq![(Tone::Selected, " ► "@ + text)]
    } else {
        seq![(Tone::Text, "   "@ + text)]
    }
}

/// The footer of the popup.
pub open spec fn modal_footer(allow_custom: bool) -> Seq<char> {
    if allow_custom {
        " ↑↓ select · Enter confirm · Esc chat "@
    } else {
        " ↑↓ select · Enter confirm "@
    }
}

/// The option rows, the first of them on row 1.
pub open spec fn option_rows(opts: Seq<QuestionOption>, index: nat) -> Seq<Seq<(Tone, Seq<char>)>> {
    Seq::new(opts.len(), |i: int| item_line(index == i + 1, trim(opts[i].label@ + " "@)))
}

/// The lines of the question popup with row `index` highlighted: the prompt, the
/// suggested answer, the options, "Chat about this" for a free-text question, and the
/// footer.
pub open spec fn question_modal_view(q: QuestionPayload, index: nat) -> Seq<Seq<(Tone, Seq<char>)>> {
    let n = q.options@.len();
    seq![seq![(Tone::Heading, " "@ + q.prompt@ + " "@)], seq![]] + seq![
        item_line(index == 0, trim(" Suggested: "@ + q.suggested_answer@ + " "@)),
    ] + option_rows(q.options@, index) + (if q.allow_custom {
        seq![
            if index == n + 1 {
                seq![(Tone::Selected, " ► Chat about this"@)]
            } else {
                seq![(Tone::MutedItalic, "   Chat about this"@)]
            },
        ]
    } else {
        seq![]
    }) + seq![seq![], seq![(Tone::Muted, modal_footer(q.allow_custom))]]
}

fn push_item(out: &mut Vec<Vec<(Tone, String)>>, selected: bool, text: &str)
    ensures
        styled_view(final(out)@) == styled_view(old(out)@).push(item_line(selected, text@)),
{
    let l = if selected {
        vec![(Tone::Selected, cat2(" ► ", text))]
    } else {
        vec![(Tone::Text, cat2("   ", text))]
    };
    assert(spans_view(l@) =~= item_line(selected, text@));
    push_styled(out, l);
}

/// The lines of the question popup (see [`question_modal_view`]).
pub fn question_modal_lines(q: &QuestionPayload, index: usize) -> (r: Vec<Vec<(Tone, String)>>)
    ensures
        styled_view(r@) == question_modal_view(*q, index as nat),
{
    let mut out: Vec<Vec<(Tone, String)>> = Vec::new();
    let title = cat2(&cat2(" ", q.prompt.as_str()), " ");
    let l = vec![(Tone::Heading, title)];
    assert(spans_view(l@) =~= seq![(Tone::Heading, " "@ + q.prompt@ + " "@)]);
    push_styled(&mut out, l);
    push_empty(&mut out);
    let suggested = string_of(&trim_vec(&chars_of(&cat2(&cat2(" Suggested: ", q.suggested_answer.as_str()), " "))));
    push_item(&mut out, index == 0, &suggested);
    let ghost head = styled_view(out@);
    let ghost opts = q.options@;
    let mut i: usize = 0;
    while i < q.options.len()
        invariant
            i <= opts.len(),
            opts == q.options@,
            styled_view(out@) == head + option_rows(opts, index as nat).take(i as int),
        decreases opts.len() - i,
    {
        let label = string_of(&trim_vec(&chars_of(&cat2(q.options[i].label.as_str(), " "))));
        let ghost before = styled_view(out@);
        push_item(&mut out, i < usize::MAX && index == i + 1, &label);
        assert(option_rows(opts, index as nat).take(i + 1) =~= option_rows(opts, index as nat).take(i as int).push(
            item_line(index == i + 1, trim(opts[i as int].label@ + " "@)),
        ));
        i = i + 1;
    }
    assert(option_rows(opts, index as nat).take(opts.len() as int) =~= option_rows(opts, index as nat));
    if q.allow_custom {
        let l = if q.options.len() < usize::MAX && index == q.options.len() + 1 {
            vec![(Tone::Selected, String::from_str(" ► Chat about this"))]
        } else {
            vec![(Tone::MutedItalic, String::from_str("   Chat about this"))]
        };
        proof {
            let n = opts.len();
            assert(spans_view(l@) =~= (if index == n + 1 {
                seq![(Tone::Selected, " ► Chat about this"@)]
            } else {
                seq![(Tone::MutedItalic, "   Chat about this"@)]
            }));
        }
        push_styled(&mut out, l);
    }
    push_empty(&mut out);
    let footer = if q.allow_custom {
        String::from_str(" ↑↓ select · Enter confirm · Esc chat ")
    } else {
        String::from_str(" ↑↓ select · Enter confirm ")
    };
    push_muted(&mut out, footer);
    assert(styled_view(out@) =~= question_modal_view(*q, index as nat));
    out
}

/// Moving the highlight keeps it on one of the popup's rows.
pub proof fn law_modal_index_stays_in_rows(q: QuestionPayload, index: nat, key: KeyEvent)
    requires
        index < item_count(q),
    ensures
        modal_index_after(q, index, key) < item_count(q),
{
}

/// The popup shows one highlighted row: the one at `index`.
pub proof fn law_one_row_highlighted(q: QuestionPayload, index: nat)
    requires
        index < item_count(q),
    ensures
        question_modal_view(q, index)[index + 2int][0].0 == Tone::Selected,
        forall|k: nat| 2 <= k < 2 + item_count(q) && k != index + 2 ==> (#[trigger] question_modal_view(q, index)[k as int])[0].0
            != Tone::Selected,
{
    let v = question_modal_view(q, index);
    let n = q.options@.len();
    assert forall|k: nat| 2 <= k < 2 + item_count(q) && k != index + 2 implies (#[trigger] v[k as int])[0].0
        != Tone::Selected by {
        if 3 <= k < 3 + n {
            assert(v[k as int] == option_rows(q.options@, index)[k - 3]);
        }
    }
    if 1 <= index <= n {
        assert(v[index + 2int] == option_rows(q.options@, index)[index - 1]);
    }
}

} // verus!
