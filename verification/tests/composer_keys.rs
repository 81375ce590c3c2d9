use nca_cli::composer_keys::{ComposerEffect, ComposerState};
use nca_cli::keys::{KeyCode, KeyEvent, MOD_CONTROL, MOD_NONE, MOD_SHIFT};
use nca_cli::slash::SlashEntry;

fn key(code: KeyCode) -> KeyEvent {
    KeyEvent::new(code, MOD_NONE)
}

fn state(buffer: &str, cursor: usize) -> ComposerState {
    ComposerState {
        input_buffer: buffer.to_string(),
        cursor_char_idx: cursor,
        slash_menu_index: 0,
        at_menu_index: 0,
    }
}

fn commands(names: &[&str]) -> Vec<SlashEntry> {
    names.iter().map(|n| SlashEntry::Command(n.to_string())).collect()
}

fn is_noop(e: &ComposerEffect) -> bool {
    matches!(e, ComposerEffect::NoOp)
}

#[test]
fn typing_inserts_at_the_cursor() {
    let mut s = state("held", 2);
    let e = s.handle_key(key(KeyCode::Char('x')), &[], &[]);
    assert!(is_noop(&e));
    assert_eq!(s.input_buffer, "hexld");
    assert_eq!(s.cursor_char_idx, 3);
    let e = s.handle_key(KeyEvent::new(KeyCode::Char('Y'), MOD_SHIFT), &[], &[]);
    assert!(is_noop(&e));
    assert_eq!(s.input_buffer, "hexYld");
}

#[test]
fn control_keys_do_not_type() {
    let mut s = state("abc", 1);
    s.handle_key(KeyEvent::new(KeyCode::Char('z'), MOD_CONTROL), &[], &[]);
    assert_eq!(s.input_buffer, "abc");
    assert_eq!(s.cursor_char_idx, 1);
    s.handle_key(KeyEvent::new(KeyCode::Char('e'), MOD_CONTROL), &[], &[]);
    assert_eq!(s.cursor_char_idx, 3);
    s.handle_key(KeyEvent::new(KeyCode::Char('a'), MOD_CONTROL), &[], &[]);
    assert_eq!(s.cursor_char_idx, 0);
}

#[test]
fn backspace_removes_the_character_before_the_cursor() {
    let mut s = state("héllo", 2);
    s.handle_key(key(KeyCode::Backspace), &[], &[]);
    assert_eq!(s.input_buffer, "hllo");
    assert_eq!(s.cursor_char_idx, 1);
    let mut at_start = state("abc", 0);
    at_start.handle_key(key(KeyCode::Backspace), &[], &[]);
    assert_eq!(at_start.input_buffer, "abc");
    assert_eq!(at_start.cursor_char_idx, 0);
}

#[test]
fn backspace_removes_a_completed_mention_whole() {
    let mut s = state("check @src/app.rs ", 18);
    s.handle_key(key(KeyCode::Backspace), &[], &[]);
    assert_eq!(s.input_buffer, "check ");
    assert_eq!(s.cursor_char_idx, 6);
}

#[test]
fn typing_then_backspace_restores_the_line() {
    let mut s = state("abc", 1);
    s.handle_key(key(KeyCode::Char('q')), &[], &[]);
    s.handle_key(key(KeyCode::Backspace), &[], &[]);
    assert_eq!(s.input_buffer, "abc");
    assert_eq!(s.cursor_char_idx, 1);
}

#[test]
fn cursor_moves_stay_within_the_line() {
    let mut s = state("ab", 2);
    s.handle_key(key(KeyCode::Right), &[], &[]);
    assert_eq!(s.cursor_char_idx, 2);
    s.handle_key(key(KeyCode::Left), &[], &[]);
    s.handle_key(key(KeyCode::Left), &[], &[]);
    s.handle_key(key(KeyCode::Left), &[], &[]);
    assert_eq!(s.cursor_char_idx, 0);
    s.handle_key(key(KeyCode::End), &[], &[]);
    assert_eq!(s.cursor_char_idx, 2);
    s.handle_key(key(KeyCode::Home), &[], &[]);
    assert_eq!(s.cursor_char_idx, 0);
}

#[test]
fn end_on_an_empty_line_follows_the_transcript() {
    let mut s = state("", 0);
    let e = s.handle_key(key(KeyCode::End), &[], &[]);
    assert!(matches!(e, ComposerEffect::FollowTail));
}

#[test]
fn arrows_scroll_the_transcript_without_menus() {
    let mut s = state("hello", 5);
    assert!(matches!(s.handle_key(key(KeyCode::Up), &[], &[]), ComposerEffect::ScrollUp));
    assert!(matches!(s.handle_key(key(KeyCode::Down), &[], &[]), ComposerEffect::ScrollDown));
}

#[test]
fn arrows_move_in_the_slash_menu_and_wrap() {
    let entries = commands(&["/help", "/history", "/model"]);
    let mut s = state("/h", 2);
    assert!(is_noop(&s.handle_key(key(KeyCode::Down), &entries, &[])));
    assert_eq!(s.slash_menu_index, 1);
    s.handle_key(key(KeyCode::Down), &entries, &[]);
    assert_eq!(s.slash_menu_index, 0);
    s.handle_key(key(KeyCode::Up), &entries, &[]);
    assert_eq!(s.slash_menu_index, 0);
}

#[test]
fn tab_completes_the_selected_slash_command() {
    let entries = commands(&["/help", "/history", "/model"]);
    let mut s = state("/h", 2);
    s.slash_menu_index = 1;
    assert!(is_noop(&s.handle_key(key(KeyCode::Tab), &entries, &[])));
    assert_eq!(s.input_buffer, "/history");
    assert_eq!(s.cursor_char_idx, 8);
}

#[test]
fn tab_with_nothing_to_complete_cycles_the_agent() {
    let mut s = state("hello", 5);
    assert!(matches!(s.handle_key(key(KeyCode::Tab), &[], &[]), ComposerEffect::CycleAgent));
}

#[test]
fn tab_completes_an_at_mention() {
    let files = vec!["src/main.rs".to_string(), "src/lib.rs".to_string()];
    let mut s = state("see @src/l", 10);
    s.handle_key(key(KeyCode::Tab), &[], &files);
    assert_eq!(s.input_buffer, "see @src/lib.rs");
    assert_eq!(s.cursor_char_idx, 15);
}

#[test]
fn enter_accepts_a_mention_then_submits() {
    let files = vec!["README.md".to_string()];
    let mut s = state("see @REA", 8);
    let e = s.handle_key(key(KeyCode::Enter), &[], &files);
    assert!(is_noop(&e));
    assert_eq!(s.input_buffer, "see @README.md ");
    assert_eq!(s.cursor_char_idx, 15);
    let e = s.handle_key(key(KeyCode::Enter), &[], &files);
    match e {
        ComposerEffect::Submit(line) => assert_eq!(line, "see @README.md "),
        _ => panic!("expected a submitted line"),
    }
    assert_eq!(s.input_buffer, "");
    assert_eq!(s.cursor_char_idx, 0);
}

#[test]
fn editing_clamps_the_slash_selection() {
    let entries = commands(&["/help", "/history", "/model"]);
    let mut s = state("/h", 2);
    s.slash_menu_index = 1;
    s.handle_key(key(KeyCode::Char('e')), &entries, &[]);
    assert_eq!(s.input_buffer, "/he");
    assert_eq!(s.slash_menu_index, 0);
    let mut none_left = state("/x", 2);
    none_left.slash_menu_index = 3;
    none_left.handle_key(key(KeyCode::Backspace), &entries, &[]);
    assert_eq!(none_left.input_buffer, "/");
    assert_eq!(none_left.slash_menu_index, 2);
}
