use nca_cli::approval::ApprovalRequest;
use nca_cli::transcript::MdStyle;
use nca_cli::transcript_view::{
    transcript_lines, DisplayBlock, QuestionOption, QuestionPayload, Tone, TranscriptLine,
};
use nca_cli::tui_cmd::QuestionSelection;

fn texts(lines: &[TranscriptLine]) -> Vec<String> {
    lines
        .iter()
        .map(|l| l.spans.iter().map(|(_, t)| t.as_str()).collect::<String>())
        .collect()
}

#[test]
fn empty_transcript_shows_the_greeting() {
    let lines = transcript_lines(&[], None, false, 80);
    let t = texts(&lines);
    assert_eq!(t.len(), 3);
    assert_eq!(t[0], "nca — session ready");
    assert_eq!(t[1], "");
    assert!(t[2].starts_with("Tab  agent"));
    assert_eq!(lines[0].spans[0].0, Tone::Brand);
}

#[test]
fn user_and_assistant_blocks_have_badges_and_wrapped_text() {
    let blocks = vec![
        DisplayBlock::User("hello there".to_string()),
        DisplayBlock::Assistant("a **bold** word".to_string()),
    ];
    let lines = transcript_lines(&blocks, None, false, 80);
    let t = texts(&lines);
    assert_eq!(t, vec![" YOU ", "", "hello there", "", " nca ", "", "a bold word", ""]);
    assert_eq!(lines[0].spans[0].0, Tone::UserBadge);
    assert_eq!(lines[2].spans[0].0, Tone::Text);
    let md: Vec<Tone> = lines[6].spans.iter().map(|(tone, _)| *tone).collect();
    assert_eq!(md, vec![Tone::Md(MdStyle::Text), Tone::Md(MdStyle::Bold), Tone::Md(MdStyle::Text)]);
}

#[test]
fn narrow_widths_wrap_at_twenty_columns() {
    let blocks = vec![DisplayBlock::User("aaaa bbbb cccc dddd eeee".to_string())];
    let t = texts(&transcript_lines(&blocks, None, false, 5));
    assert_eq!(t, vec![" YOU ", "", "aaaa bbbb cccc dddd", "eeee", ""]);
}

#[test]
fn tool_and_status_blocks() {
    let blocks = vec![
        DisplayBlock::ToolRunning {
            name: "read_file".to_string(),
            call_id: "c1".to_string(),
            input: "{}".to_string(),
        },
        DisplayBlock::ToolDone { name: "read_file".to_string(), ok: false, detail: "x".repeat(120) },
        DisplayBlock::ApprovalResolved { tool: "bash".to_string(), approved: true },
        DisplayBlock::System("note".to_string()),
        DisplayBlock::ErrorLine("boom".to_string()),
    ];
    let t = texts(&transcript_lines(&blocks, None, false, 80));
    assert_eq!(t[0], " ⚡ read_file …");
    assert_eq!(t[1], format!(" ✗ read_file — {}…", "x".repeat(99)));
    assert_eq!(t[2], " approved  bash");
    assert_eq!(t[3], "");
    assert_eq!(t[4], " ‣ note");
    assert_eq!(t[5], " ✗ boom");
}

#[test]
fn approval_block_shows_input_and_reply_hint() {
    let req = ApprovalRequest {
        call_id: "c1".to_string(),
        tool: "bash".to_string(),
        description: "Run a command".to_string(),
        input: "ls\n\npwd".to_string(),
    };
    let t = texts(&transcript_lines(&[DisplayBlock::ApprovalPending(req)], None, false, 80));
    assert_eq!(t[0], " ?  approval required: bash");
    assert_eq!(t[2], "Run a command");
    assert_eq!(t[4], " Input ");
    assert_eq!(&t[5..9], &["ls", "", "", "pwd"]);
    assert!(t[9].starts_with(" Reply: y/n"));
    assert_eq!(t[10], "");
    assert_eq!(t.len(), 11);
}

#[test]
fn question_lines_carry_click_answers() {
    let q = QuestionPayload {
        question_id: "q1".to_string(),
        prompt: "Pick one".to_string(),
        suggested_answer: "red".to_string(),
        options: vec![
            QuestionOption { id: "r".to_string(), label: "Red".to_string() },
            QuestionOption { id: "b".to_string(), label: "Blue".to_string() },
        ],
        allow_custom: true,
    };
    let lines = transcript_lines(&[DisplayBlock::Question(q.clone())], None, false, 80);
    let t = texts(&lines);
    assert_eq!(t[0], " ?  question ");
    assert_eq!(t[2], "Pick one");
    assert_eq!(t[3], "  [0] suggested: red (click)");
    assert_eq!(lines[3].hit, Some(QuestionSelection::Suggested));
    assert_eq!(t[4], "  [1] (r) Red (click)");
    assert_eq!(lines[5].hit, Some(QuestionSelection::Picked { option_id: "b".to_string() }));
    assert_eq!(t[6], "  [c] type your own answer below, then Enter");
    assert!(t[7].starts_with("  Tip:"));
    assert_eq!(t.len(), 9);
    let in_modal = transcript_lines(&[DisplayBlock::Question(q)], None, true, 80);
    assert_eq!(texts(&in_modal), vec![" ?  question ", "", "Pick one", ""]);
    assert!(in_modal.iter().all(|l| l.hit.is_none()));
}

#[test]
fn streaming_reply_follows_the_blocks() {
    let t = texts(&transcript_lines(&[], Some("partial"), false, 80));
    assert_eq!(t, vec![" nca  streaming", "", "partial"]);
    let empty_stream = texts(&transcript_lines(&[], Some(""), false, 80));
    assert_eq!(empty_stream[0], "nca — session ready");
}
