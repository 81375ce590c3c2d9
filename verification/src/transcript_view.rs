//! The transcript as the session screen draws it: the lines of each block, with the
//! question answer a click on a line gives.

use crate::approval::ApprovalRequest;
use crate::branch::{text_lines, text_lines_of};
use crate::session::{dec, push_decimal};
use crate::text_utils::{cut_to, truncate_chars};
use crate::transcript::{md_line_runs, md_view, parse_md_line, MdStyle};
use crate::tui_cmd::QuestionSelection;
use crate::wrap::{preformatted_lines, views, wrap_preformatted_line, wrap_text, wrapped};
use vstd::prelude::*;
use vstd::string::StringSliceAdditionalSpecFns;

verus! {

/// How a span of a transcript line is drawn.
#[derive(Clone, Copy, PartialEq, Eq, Debug, Structural)]
pub enum Tone {
    UserBadge,
    AssistantBadge,
    Text,
    Muted,
    MutedBold,
    Tool,
    ToolBold,
    Warn,
    WarnBold,
    WarnBadge,
    ApprovedBadge,
    DeniedBadge,
    Success,
    Error,
    /// An answer a click picks (underlined).
    Choice,
    /// The suggested answer (underlined).
    SuggestedChoice,
    /// The product name on the empty screen.
    Brand,
    /// A group heading in a picker.
    Heading,
    /// The selected row of a picker.
    Selected,
    /// The detail of the selected row (not bold).
    SelectedDetail,
    TextBold,
    /// A masked secret.
    Secret,
    /// Unstyled text.
    Plain,
    /// The busy indicator, in the colour of the busy state.
    Indicator,
    /// The model name in the status bar.
    ModelName,
    /// The agent profile in the status bar.
    Profile,
    /// The branch chip in the status bar.
    Branch,
    /// The bypass-mode warning.
    BypassBadge,
    /// A quiet choice (muted, italic).
    MutedItalic,
    /// A section title in a list (muted, bold, underlined).
    SectionTitle,
    Md(MdStyle),
}

/// One option of an interactive question.
#[derive(Clone, Debug)]
pub struct QuestionOption {
    pub id: String,
    pub label: String,
}

/// An interactive question from the agent.
#[derive(Clone, Debug)]
pub struct QuestionPayload {
    pub question_id: String,
    pub prompt: String,
    pub suggested_answer: String,
    pub options: Vec<QuestionOption>,
    pub allow_custom: bool,
}

/// A block of the transcript.
#[derive(Clone, Debug)]
pub enum DisplayBlock {
    User(String),
    Assistant(String),
    ToolRunning { name: String, call_id: String, input: String },
    ApprovalPending(ApprovalRequest),
    ApprovalResolved { tool: String, approved: bool },
    ToolDone { name: String, ok: bool, detail: String },
    Question(QuestionPayload),
    System(String),
    ErrorLine(String),
}

/// A drawn line: its styled spans and the answer a click on it gives.
#[derive(Clone, Debug)]
pub struct TranscriptLine {
    pub spans: Vec<(Tone, String)>,
    pub hit: Option<QuestionSelection>,
}

/// A line as plain values.
pub type LineView = (Seq<(Tone, Seq<char>)>, Option<QuestionSelection>);

/// A span as plain values.
pub open spec fn span_view(x: (Tone, String)) -> (Tone, Seq<char>) {
    (x.0, x.1@)
}

/// The spans of a line as plain values.
pub open spec fn spans_view(v: Seq<(Tone, String)>) -> Seq<(Tone, Seq<char>)> {
    v.map_values(|x: (Tone, String)| span_view(x))
}

/// A line as plain values.
pub open spec fn line_view(l: TranscriptLine) -> LineView {
    (spans_view(l.spans@), l.hit)
}

/// Lines as plain values.
pub open spec fn lines_view(v: Seq<TranscriptLine>) -> Seq<LineView> {
    v.map_values(|l: TranscriptLine| line_view(l))
}

/// An empty line.
pub open spec fn blank() -> LineView {
    (seq![], None)
}

/// A line of one span.
pub open spec fn one(t: Tone, s: Seq<char>) -> LineView {
    (seq![(t, s)], None)
}

/// A line of two spans.
pub open spec fn two(t: Tone, s: Seq<char>, u: Tone, v: Seq<char>) -> LineView {
    (seq![(t, s), (u, v)], None)
}

/// Each text line as a line of one span in tone `t`.
pub open spec fn toned(ls: Seq<Seq<char>>, t: Tone) -> Seq<LineView> {
    ls.map_values(|l: Seq<char>| one(t, l))
}

/// A Markdown line as spans.
pub open spec fn md_spans(l: Seq<char>) -> Seq<(Tone, Seq<char>)> {
    md_line_runs(l).map_values(|r: (MdStyle, Seq<char>)| (Tone::Md(r.0), r.1))
}

/// Each text line drawn as Markdown.
pub open spec fn md_lines(ls: Seq<Seq<char>>) -> Seq<LineView> {
    ls.map_values(|l: Seq<char>| (md_spans(l), None))
}

/// Preformatted source lines, each split to the width in muted tone, an empty source line
/// followed by one more empty line.
pub open spec fn plain_lines(src: Seq<Seq<char>>, w: nat) -> Seq<LineView>
    decreases src.len(),
{
    if src.len() == 0 {
        seq![]
    } else {
        plain_lines(src.drop_last(), w) + toned(preformatted_lines(src.last(), w), Tone::Muted) + if src.last().len() == 0 {
            seq![blank()]
        } else {
            seq![]
        }
    }
}

/// The reply hint under an approval.
pub open spec fn reply_hint() -> Seq<char> {
    " Reply: y/n · Ctrl+Y approve · Ctrl+N deny · Ctrl+U always allow · /approve · /deny"@
}

/// The lines of a pending approval: title, description, the tool input and how to reply.
pub open spec fn approval_lines(req: ApprovalRequest, w: nat) -> Seq<LineView> {
    seq![two(Tone::WarnBadge, " ? "@, Tone::WarnBold, " approval required: "@ + req.tool@), blank()]
        + toned(wrapped(req.description@, w), Tone::Text) + seq![blank(), one(Tone::MutedBold, " Input "@)]
        + plain_lines(text_lines(req.input@), w) + seq![one(Tone::Muted, reply_hint()), blank()]
}

/// The clickable line of option `i` (counting from 0).
pub open spec fn option_line(i: nat, o: QuestionOption) -> LineView {
    (
        seq![
            (Tone::Choice, "  ["@ + dec(i + 1) + "] ("@ + o.id@ + ") "@ + o.label@ + " "@),
            (Tone::Muted, "(click)"@),
        ],
        Some(QuestionSelection::Picked { option_id: o.id }),
    )
}

/// The lines of the first `n` options.
pub open spec fn option_lines(opts: Seq<QuestionOption>, n: nat) -> Seq<LineView>
    decreases n,
{
    if n == 0 || n > opts.len() {
        seq![]
    } else {
        option_lines(opts, (n - 1) as nat).push(option_line((n - 1) as nat, opts[n - 1]))
    }
}

/// The tip under a question's answers.
pub open spec fn question_tip() -> Seq<char> {
    "  Tip: /auto-answer or Enter on empty = suggested · click an option above"@
}

/// The lines of a question: title, prompt and, unless the question popup is open, the
/// clickable suggested answer and options, the custom-answer hint and a tip.
pub open spec fn question_lines(q: QuestionPayload, w: nat, modal_open: bool) -> Seq<LineView> {
    seq![two(Tone::WarnBadge, " ? "@, Tone::WarnBold, " question "@), blank()] + toned(
        wrapped(q.prompt@, w),
        Tone::Text,
    ) + if modal_open {
        seq![]
    } else {
        seq![
            (
                seq![
                    (Tone::SuggestedChoice, "  [0] suggested: "@ + q.suggested_answer@ + " "@),
                    (Tone::Muted, "(click)"@),
                ],
                Some(QuestionSelection::Suggested),
            ),
        ] + option_lines(q.options@, q.options@.len()) + if q.allow_custom {
            seq![one(Tone::Muted, "  [c] type your own answer below, then Enter"@)]
        } else {
            seq![]
        } + seq![one(Tone::Muted, question_tip())]
    } + seq![blank()]
}

/// Longest tool detail shown after a finished tool.
pub const TOOL_DETAIL_MAX: usize = 100;

/// The lines a block is drawn as at width `w`.
pub open spec fn block_lines(b: DisplayBlock, w: nat, modal_open: bool) -> Seq<LineView> {
    match b {
        DisplayBlock::User(c) => seq![one(Tone::UserBadge, " YOU "@), blank()] + toned(
            wrapped(c@, w),
            Tone::Text,
        ) + seq![blank()],
        DisplayBlock::Assistant(c) => seq![one(Tone::AssistantBadge, " nca "@), blank()] + md_lines(
            wrapped(c@, w),
        ) + seq![blank()],
        DisplayBlock::ToolRunning { name, .. } => seq![
            (seq![(Tone::Tool, " ⚡ "@), (Tone::ToolBold, name@ + " "@), (Tone::Muted, "…"@)], None),
        ],
        DisplayBlock::ApprovalPending(req) => approval_lines(req, w),
        DisplayBlock::ApprovalResolved { tool, approved } => seq![
            if approved {
                two(Tone::ApprovedBadge, " approved "@, Tone::Text, " "@ + tool@)
            } else {
                two(Tone::DeniedBadge, " denied "@, Tone::Text, " "@ + tool@)
            },
            blank(),
        ],
        DisplayBlock::ToolDone { name, ok, detail } => seq![
            (
                seq![
                    if ok {
                        (Tone::Success, " ✓ "@)
                    } else {
                        (Tone::Error, " ✗ "@)
                    },
                    (Tone::ToolBold, name@),
                    (Tone::Muted, " — "@ + cut_to(detail@, TOOL_DETAIL_MAX as nat)),
                ],
                None,
            ),
        ],
        DisplayBlock::Question(q) => question_lines(q, w, modal_open),
        DisplayBlock::System(s) => seq![one(Tone::Warn, " ‣ "@ + s@)],
        DisplayBlock::ErrorLine(s) => seq![one(Tone::Error, " ✗ "@ + s@)],
    }
}

/// The lines of the first `n` blocks.
pub open spec fn blocks_lines(blocks: Seq<DisplayBlock>, w: nat, modal_open: bool, n: nat) -> Seq<
    LineView,
>
    decreases n,
{
    if n == 0 || n > blocks.len() {
        seq![]
    } else {
        blocks_lines(blocks, w, modal_open, (n - 1) as nat) + block_lines(blocks[n - 1], w, modal_open)
    }
}

/// The key hints of the empty screen.
pub open spec fn empty_hints() -> Seq<char> {
    "Tab  agent   Ctrl+V  image   Ctrl+P  commands   !cmd  shell   @path  search   /  inline   wheel  scroll\n\n                drag to select  ·  release to copy to clipboard"@
}

/// The transcript at `width` columns (at least 20 are used): every block's lines, then the
/// reply being streamed under a "streaming" badge; an empty transcript shows a greeting
/// with key hints.
pub open spec fn transcript_view(
    blocks: Seq<DisplayBlock>,
    streaming: Option<Seq<char>>,
    modal_open: bool,
    width: nat,
) -> Seq<LineView> {
    let w: nat = if width < 20 { 20 } else { width };
    let body = blocks_lines(blocks, w, modal_open, blocks.len()) + match streaming {
        Some(s) => if s.len() > 0 {
            seq![two(Tone::AssistantBadge, " nca "@, Tone::Muted, " streaming"@), blank()] + md_lines(
                wrapped(s, w),
            )
        } else {
            seq![]
        },
        None => seq![],
    };
    if body.len() == 0 {
        seq![two(Tone::Brand, "nca"@, Tone::Muted, " — session ready"@), blank(), one(Tone::Muted, empty_hints())]
    } else {
        body
    }
}

/// Texts the word wrapper can take (a machine bound on their length).
pub open spec fn wraps(s: Seq<char>) -> bool {
    s.len() <= usize::MAX / 8
}

/// Every text of a block that is word-wrapped can be.
pub open spec fn block_wraps(b: DisplayBlock) -> bool {
    match b {
        DisplayBlock::User(c) => wraps(c@),
        DisplayBlock::Assistant(c) => wraps(c@),
        DisplayBlock::ApprovalPending(req) => wraps(req.description@),
        DisplayBlock::Question(q) => wraps(q.prompt@),
        _ => true,
    }
}

fn cat(a: &str, b: &str) -> (r: String)
    ensures
        r@ == a@ + b@,
{
    let mut r = a.to_owned();
    r.append(b);
    r
}

fn push_line(out: &mut Vec<TranscriptLine>, spans: Vec<(Tone, String)>, hit: Option<QuestionSelection>)
    ensures
        lines_view(final(out)@) == lines_view(old(out)@).push((spans_view(spans@), hit)),
{
    let ghost o = out@;
    let ghost sv = spans_view(spans@);
    out.push(TranscriptLine { spans, hit });
    assert(lines_view(out@) =~= lines_view(o).push((sv, hit)));
}

fn push_one(out: &mut Vec<TranscriptLine>, t: Tone, s: String)
    ensures
        lines_view(final(out)@) == lines_view(old(out)@).push(one(t, s@)),
{
    let spans = vec![(t, s)];
    assert(spans_view(spans@) =~= seq![(t, s@)]);
    push_line(out, spans, None);
}

fn push_two(out: &mut Vec<TranscriptLine>, t: Tone, s: String, u: Tone, v: String)
    ensures
        lines_view(final(out)@) == lines_view(old(out)@).push(two(t, s@, u, v@)),
{
    let spans = vec![(t, s), (u, v)];
    assert(spans_view(spans@) =~= seq![(t, s@), (u, v@)]);
    push_line(out, spans, None);
}

fn push_blank(out: &mut Vec<TranscriptLine>)
    ensures
        lines_view(final(out)@) == lines_view(old(out)@).push(blank()),
{
    let spans: Vec<(Tone, String)> = Vec::new();
    assert(spans_view(spans@) =~= Seq::<(Tone, Seq<char>)>::empty());
    push_line(out, spans, None);
}

fn push_toned(out: &mut Vec<TranscriptLine>, ls: &Vec<String>, t: Tone)
    ensures
        lines_view(final(out)@) == lines_view(old(out)@) + toned(views(ls@), t),
{
    let ghost o = lines_view(out@);
    let mut i: usize = 0;
    while i < ls.len()
        invariant
            i <= ls@.len(),
            lines_view(out@) == o + toned(views(ls@).take(i as int), t),
        decreases ls@.len() - i,
    {
        push_one(out, t, ls[i].clone());
        assert(toned(views(ls@).take(i + 1), t) =~= toned(views(ls@).take(i as int), t).push(
            one(t, ls@[i as int]@),
        ));
        i += 1;
    }
    assert(views(ls@).take(ls@.len() as int) =~= views(ls@));
}

fn md_line_spans(l: &str) -> (r: Vec<(Tone, String)>)
    ensures
        spans_view(r@) == md_spans(l@),
{
    let runs = parse_md_line(l);
    let ghost rv = runs@.map_values(|x: (MdStyle, String)| md_view(x));
    let mut r: Vec<(Tone, String)> = Vec::new();
    let mut i: usize = 0;
    while i < runs.len()
        invariant
            i <= runs@.len(),
            rv == runs@.map_values(|x: (MdStyle, String)| md_view(x)),
            rv == md_line_runs(l@),
            spans_view(r@) == rv.take(i as int).map_values(
                |x: (MdStyle, Seq<char>)| (Tone::Md(x.0), x.1),
            ),
        decreases runs@.len() - i,
    {
        let (st, text) = &runs[i];
        let ghost r0 = spans_view(r@);
        r.push((Tone::Md(*st), text.clone()));
        assert(spans_view(r@) =~= r0.push((Tone::Md(*st), text@)));
        assert(rv.take(i + 1).map_values(|x: (MdStyle, Seq<char>)| (Tone::Md(x.0), x.1)) =~= rv.take(
            i as int,
        ).map_values(|x: (MdStyle, Seq<char>)| (Tone::Md(x.0), x.1)).push((Tone::Md(*st), text@)));
        i += 1;
    }
    assert(rv.take(runs@.len() as int) =~= rv);
    r
}

fn push_md(out: &mut Vec<TranscriptLine>, ls: &Vec<String>)
    ensures
        lines_view(final(out)@) == lines_view(old(out)@) + md_lines(views(ls@)),
{
    let ghost o = lines_view(out@);
    let mut i: usize = 0;
    while i < ls.len()
        invariant
            i <= ls@.len(),
            lines_view(out@) == o + md_lines(views(ls@).take(i as int)),
        decreases ls@.len() - i,
    {
        let spans = md_line_spans(ls[i].as_str());
        push_line(out, spans, None);
        assert(md_lines(views(ls@).take(i + 1)) =~= md_lines(views(ls@).take(i as int)).push(
            (md_spans(ls@[i as int]@), None),
        ));
        i += 1;
    }
    assert(views(ls@).take(ls@.len() as int) =~= views(ls@));
}

fn push_plain(out: &mut Vec<TranscriptLine>, text: &str, w: usize)
    ensures
        lines_view(final(out)@) == lines_view(old(out)@) + plain_lines(text_lines(text@), w as nat),
{
    let ghost o = lines_view(out@);
    let src = text_lines_of(text);
    let ghost sv = views(src@);
    let mut i: usize = 0;
    while i < src.len()
        invariant
            i <= src@.len(),
            sv == views(src@),
            lines_view(out@) == o + plain_lines(sv.take(i as int), w as nat),
        decreases src@.len() - i,
    {
        let pieces = wrap_preformatted_line(src[i].as_str(), w);
        push_toned(out, &pieces, Tone::Muted);
        let empty = src[i].as_str().unicode_len() == 0;
        assert(sv.take(i + 1).drop_last() =~= sv.take(i as int));
        assert(sv.take(i + 1).last() == src@[i as int]@);
        if empty {
            push_blank(out);
        }
        assert(lines_view(out@) =~= o + plain_lines(sv.take(i + 1), w as nat));
        i += 1;
    }
    assert(sv.take(src@.len() as int) =~= sv);
}

fn push_approval(out: &mut Vec<TranscriptLine>, req: &ApprovalRequest, w: usize)
    requires
        wraps(req.description@),
    ensures
        lines_view(final(out)@) == lines_view(old(out)@) + approval_lines(*req, w as nat),
{
    let ghost o = lines_view(out@);
    push_two(out, Tone::WarnBadge, " ? ".to_owned(), Tone::WarnBold, cat(" approval required: ", req.tool.as_str()));
    push_blank(out);
    let desc = wrap_text(req.description.as_str(), w);
    push_toned(out, &desc, Tone::Text);
    push_blank(out);
    push_one(out, Tone::MutedBold, " Input ".to_owned());
    let ghost mid = lines_view(out@);
    push_plain(out, req.input.as_str(), w);
    push_one(
        out,
        Tone::Muted,
        " Reply: y/n · Ctrl+Y approve · Ctrl+N deny · Ctrl+U always allow · /approve · /deny".to_owned(),
    );
    push_blank(out);
    assert(lines_view(out@) =~= o + approval_lines(*req, w as nat));
}

fn option_text(i: usize, o: &QuestionOption) -> (r: String)
    requires
        i < usize::MAX,
    ensures
        r@ == "  ["@ + dec((i + 1) as nat) + "] ("@ + o.id@ + ") "@ + o.label@ + " "@,
{
    let mut r = "  [".to_owned();
    push_decimal(&mut r, (i + 1) as u64);
    r.append("] (");
    r.append(o.id.as_str());
    r.append(") ");
    r.append(o.label.as_str());
    r.append(" ");
    r
}

fn push_options(out: &mut Vec<TranscriptLine>, opts: &Vec<QuestionOption>)
    ensures
        lines_view(final(out)@) == lines_view(old(out)@) + option_lines(opts@, opts@.len()),
{
    let ghost o = lines_view(out@);
    let mut i: usize = 0;
    while i < opts.len()
        invariant
            i <= opts@.len(),
            lines_view(out@) == o + option_lines(opts@, i as nat),
        decreases opts@.len() - i,
    {
        let opt = &opts[i];
        let spans = vec![(Tone::Choice, option_text(i, opt)), (Tone::Muted, "(click)".to_owned())];
        let hit = Some(QuestionSelection::Picked { option_id: opt.id.clone() });
        assert(spans_view(spans@) =~= option_line(i as nat, *opt).0);
        push_line(out, spans, hit);
        assert(option_lines(opts@, (i + 1) as nat) == option_lines(opts@, i as nat).push(
            option_line(i as nat, opts@[i as int]),
        ));
        assert(lines_view(out@) =~= o + option_lines(opts@, (i + 1) as nat));
        i += 1;
    }
}

fn push_question(out: &mut Vec<TranscriptLine>, q: &QuestionPayload, w: usize, modal_open: bool)
    requires
        wraps(q.prompt@),
    ensures
        lines_view(final(out)@) == lines_view(old(out)@) + question_lines(*q, w as nat, modal_open),
{
    let ghost o = lines_view(out@);
    push_two(out, Tone::WarnBadge, " ? ".to_owned(), Tone::WarnBold, " question ".to_owned());
    push_blank(out);
    let prompt = wrap_text(q.prompt.as_str(), w);
    push_toned(out, &prompt, Tone::Text);
    let ghost head = lines_view(out@);
    if !modal_open {
        let mut sugg = cat("  [0] suggested: ", q.suggested_answer.as_str());
        sugg.append(" ");
        let spans = vec![(Tone::SuggestedChoice, sugg), (Tone::Muted, "(click)".to_owned())];
        assert(spans_view(spans@) =~= seq![
            (Tone::SuggestedChoice, "  [0] suggested: "@ + q.suggested_answer@ + " "@),
            (Tone::Muted, "(click)"@),
        ]);
        push_line(out, spans, Some(QuestionSelection::Suggested));
        push_options(out, &q.options);
        if q.allow_custom {
            push_one(out, Tone::Muted, "  [c] type your own answer below, then Enter".to_owned());
        }
        push_one(
            out,
            Tone::Muted,
            "  Tip: /auto-answer or Enter on empty = suggested · click an option above".to_owned(),
        );
    }
    push_blank(out);
    assert(lines_view(out@) =~= o + question_lines(*q, w as nat, modal_open));
}

fn push_block(out: &mut Vec<TranscriptLine>, b: &DisplayBlock, w: usize, modal_open: bool)
    requires
        block_wraps(*b),
    ensures
        lines_view(final(out)@) == lines_view(old(out)@) + block_lines(*b, w as nat, modal_open),
{
    let ghost o = lines_view(out@);
    match b {
        DisplayBlock::User(c) => {
            push_one(out, Tone::UserBadge, " YOU ".to_owned());
            push_blank(out);
            let ls = wrap_text(c.as_str(), w);
            push_toned(out, &ls, Tone::Text);
            push_blank(out);
        },
        DisplayBlock::Assistant(c) => {
            push_one(out, Tone::AssistantBadge, " nca ".to_owned());
            push_blank(out);
            let ls = wrap_text(c.as_str(), w);
            push_md(out, &ls);
            push_blank(out);
        },
        DisplayBlock::ToolRunning { name, .. } => {
            let spans = vec![
                (Tone::Tool, " ⚡ ".to_owned()),
                (Tone::ToolBold, cat(name.as_str(), " ")),
                (Tone::Muted, "…".to_owned()),
            ];
            assert(spans_view(spans@) =~= seq![(Tone::Tool, " ⚡ "@), (Tone::ToolBold, name@ + " "@), (Tone::Muted, "…"@)]);
            push_line(out, spans, None);
        },
        DisplayBlock::ApprovalPending(req) => {
            push_approval(out, req, w);
        },
        DisplayBlock::ApprovalResolved { tool, approved } => {
            if *approved {
                push_two(out, Tone::ApprovedBadge, " approved ".to_owned(), Tone::Text, cat(" ", tool.as_str()));
            } else {
                push_two(out, Tone::DeniedBadge, " denied ".to_owned(), Tone::Text, cat(" ", tool.as_str()));
            }
            push_blank(out);
        },
        DisplayBlock::ToolDone { name, ok, detail } => {
            let icon = if *ok {
                (Tone::Success, " ✓ ".to_owned())
            } else {
                (Tone::Error, " ✗ ".to_owned())
            };
            let spans = vec![
                icon,
                (Tone::ToolBold, name.clone()),
                (Tone::Muted, cat(" — ", truncate_chars(detail.as_str(), TOOL_DETAIL_MAX).as_str())),
            ];
            assert(spans_view(spans@) =~= block_lines(*b, w as nat, modal_open)[0].0);
            push_line(out, spans, None);
        },
        DisplayBlock::Question(q) => {
            push_question(out, q, w, modal_open);
        },
        DisplayBlock::System(t) => {
            push_one(out, Tone::Warn, cat(" ‣ ", t.as_str()));
        },
        DisplayBlock::ErrorLine(t) => {
            push_one(out, Tone::Error, cat(" ✗ ", t.as_str()));
        },
    }
    assert(lines_view(out@) =~= o + block_lines(*b, w as nat, modal_open));
}

/// The transcript's lines with the answer a click on each gives (see
/// [`transcript_view`]).
pub fn transcript_lines(
    blocks: &[DisplayBlock],
    streaming: Option<&str>,
    question_modal_open: bool,
    width: u16,
) -> (r: Vec<TranscriptLine>)
    requires
        forall|i: int| 0 <= i < blocks@.len() ==> block_wraps(#[trigger] blocks@[i]),
        streaming matches Some(s) ==> wraps(s@),
    ensures
        lines_view(r@) == transcript_view(
            blocks@,
            match streaming {
                Some(s) => Some(s@),
                None => None,
            },
            question_modal_open,
            width as nat,
        ),
{
    let w: usize = if width < 20 {
        20
    } else {
        width as usize
    };
    let mut out: Vec<TranscriptLine> = Vec::new();
    let mut i: usize = 0;
    assert(lines_view(out@) =~= Seq::<LineView>::empty());
    while i < blocks.len()
        invariant
            i <= blocks@.len(),
            forall|k: int| 0 <= k < blocks@.len() ==> block_wraps(#[trigger] blocks@[k]),
            lines_view(out@) == blocks_lines(blocks@, w as nat, question_modal_open, i as nat),
        decreases blocks@.len() - i,
    {
        push_block(&mut out, &blocks[i], w, question_modal_open);
        i += 1;
    }
    if let Some(st) = streaming {
        if st.unicode_len() > 0 {
            push_two(&mut out, Tone::AssistantBadge, " nca ".to_owned(), Tone::Muted, " streaming".to_owned());
            push_blank(&mut out);
            let ls = wrap_text(st, w);
            push_md(&mut out, &ls);
        }
    }
    if out.len() == 0 {
        push_two(&mut out, Tone::Brand, "nca".to_owned(), Tone::Muted, " — session ready".to_owned());
        push_blank(&mut out);
        push_one(
            &mut out,
            Tone::Muted,
            "Tab  agent   Ctrl+V  image   Ctrl+P  commands   !cmd  shell   @path  search   /  inline   wheel  scroll\n\n                drag to select  ·  release to copy to clipboard".to_owned(),
        );
    }
    out
}

/// The option lines of a question are one per option, in order, and a click on the line
/// of option `i` answers with that option's id.
pub proof fn law_option_lines_pick_their_option(opts: Seq<QuestionOption>, n: nat)
    requires
        n <= opts.len(),
    ensures
        option_lines(opts, n).len() == n,
        forall|i: int| 0 <= i < n ==> (#[trigger] option_lines(opts, n)[i]).1 == Some(
            QuestionSelection::Picked { option_id: opts[i].id },
        ),
    decreases n,
{
    if n > 0 {
        law_option_lines_pick_their_option(opts, (n - 1) as nat);
        let prev = option_lines(opts, (n - 1) as nat);
        assert forall|i: int| 0 <= i < n implies (#[trigger] option_lines(opts, n)[i]).1 == Some(
            QuestionSelection::Picked { option_id: opts[i].id },
        ) by {
            if i < n - 1 {
                assert(option_lines(opts, n)[i] == prev[i]);
            }
        }
    }
}

/// The transcript always shows something: with no blocks and nothing streaming, the
/// greeting.
pub proof fn law_transcript_never_empty(
    blocks: Seq<DisplayBlock>,
    streaming: Option<Seq<char>>,
    modal_open: bool,
    width: nat,
)
    ensures
        transcript_view(blocks, streaming, modal_open, width).len() > 0,
{
}


/// The line of a resolved approval shows the verdict it records: an approved call gets the
/// "approved" badge and a refused one the "denied" badge, each followed by the tool's name,
/// so the two outcomes never look alike.
pub proof fn law_approval_outcome_shows_verdict(tool: String, w: nat, modal_open: bool)
    ensures
        ({
            let yes = block_lines(DisplayBlock::ApprovalResolved { tool, approved: true }, w, modal_open)[0];
            let no = block_lines(DisplayBlock::ApprovalResolved { tool, approved: false }, w, modal_open)[0];
            &&& yes.0[0] == (Tone::ApprovedBadge, " approved "@)
            &&& no.0[0] == (Tone::DeniedBadge, " denied "@)
            &&& yes.0[1] == (Tone::Text, " "@ + tool@)
            &&& no.0[1] == (Tone::Text, " "@ + tool@)
            &&& yes != no
        }),
{
}

} // verus!
