use nca_cli::keys::{KeyCode, KeyEvent, MOD_CONTROL, MOD_NONE};
use nca_cli::question_modal::{question_modal_key, question_modal_lines, QuestionModalAction};
use nca_cli::transcript_view::{QuestionOption, QuestionPayload, Tone};
use nca_cli::tui_cmd::QuestionSelection;

fn question(allow_custom: bool) -> QuestionPayload {
    QuestionPayload {
        question_id: "q1".to_string(),
        prompt: "Which database?".to_string(),
        suggested_answer: "sqlite".to_string(),
        options: vec![
            QuestionOption { id: "pg".to_string(), label: "Postgres".to_string() },
            QuestionOption { id: "my".to_string(), label: " MySQL ".to_string() },
        ],
        allow_custom,
    }
}

fn key(code: KeyCode) -> KeyEvent {
    KeyEvent::new(code, MOD_NONE)
}

#[test]
fn arrows_and_vim_keys_move_within_rows() {
    let q = question(true);
    assert_eq!(question_modal_key(&q, 0, key(KeyCode::Up)).0, 0);
    assert_eq!(question_modal_key(&q, 0, key(KeyCode::Down)).0, 1);
    assert_eq!(question_modal_key(&q, 2, key(KeyCode::Char('j'))).0, 3);
    assert_eq!(question_modal_key(&q, 3, key(KeyCode::Down)).0, 3);
    assert_eq!(question_modal_key(&q, 3, key(KeyCode::Char('k'))).0, 2);
    assert_eq!(question_modal_key(&q, 3, KeyEvent::new(KeyCode::Char('k'), MOD_CONTROL)).0, 3);
    let closed = question(false);
    assert_eq!(question_modal_key(&closed, 2, key(KeyCode::Down)).0, 2);
}

#[test]
fn enter_answers_by_row() {
    let q = question(true);
    assert!(matches!(
        question_modal_key(&q, 0, key(KeyCode::Enter)).1,
        QuestionModalAction::Answer(QuestionSelection::Suggested)
    ));
    match question_modal_key(&q, 2, key(KeyCode::Enter)).1 {
        QuestionModalAction::Answer(QuestionSelection::Picked { option_id }) => assert_eq!(option_id, "my"),
        _ => panic!("expected the second option"),
    }
    assert!(matches!(question_modal_key(&q, 3, key(KeyCode::Enter)).1, QuestionModalAction::Close));
}

#[test]
fn escape_closes_only_free_text_questions() {
    assert!(matches!(question_modal_key(&question(true), 1, key(KeyCode::Esc)).1, QuestionModalAction::Close));
    assert!(matches!(question_modal_key(&question(false), 1, key(KeyCode::Esc)).1, QuestionModalAction::NoOp));
}

#[test]
fn popup_lines_mark_the_highlighted_row() {
    let q = question(true);
    let lines = question_modal_lines(&q, 2);
    let expect: Vec<Vec<(Tone, String)>> = vec![
        vec![(Tone::Heading, " Which database? ".to_string())],
        vec![],
        vec![(Tone::Text, "   Suggested: sqlite".to_string())],
        vec![(Tone::Text, "   Postgres".to_string())],
        vec![(Tone::Selected, " ► MySQL".to_string())],
        vec![(Tone::MutedItalic, "   Chat about this".to_string())],
        vec![],
        vec![(Tone::Muted, " ↑↓ select · Enter confirm · Esc chat ".to_string())],
    ];
    assert_eq!(lines, expect);
    let closed = question_modal_lines(&question(false), 0);
    assert_eq!(closed.len(), 7);
    assert_eq!(closed[2], vec![(Tone::Selected, " ► Suggested: sqlite".to_string())]);
    assert_eq!(closed[6], vec![(Tone::Muted, " ↑↓ select · Enter confirm ".to_string())]);
}
