use nca_cli::approval::parse_approval_verdict;
use nca_cli::branch::{branch_picker_enter_command, filtered_branch_indices};
use nca_cli::composer::{
    apply_selected_at_completion, completed_at_mention_range_before_cursor,
    delete_completed_at_mention,
};
use nca_cli::composer_line::{composer_runs, ComposerStyle};
use nca_cli::provider::PermissionMode;
use nca_cli::turn_state::{escape_cancels_active_turn, BusyState};
use nca_cli::tui_cmd::TuiCmd;

#[test]
fn parses_yes_with_punctuation_and_synonyms() {
    assert_eq!(parse_approval_verdict("yes"), Some(true));
    assert_eq!(parse_approval_verdict("Yes."), Some(true));
    assert_eq!(parse_approval_verdict("  OK! "), Some(true));
    assert_eq!(parse_approval_verdict("approve"), Some(true));
    assert_eq!(parse_approval_verdict("/approve"), Some(true));
    assert_eq!(parse_approval_verdict("/y"), Some(true));
}

#[test]
fn parses_no_and_deny() {
    assert_eq!(parse_approval_verdict("n"), Some(false));
    assert_eq!(parse_approval_verdict("no."), Some(false));
    assert_eq!(parse_approval_verdict("deny"), Some(false));
    assert_eq!(parse_approval_verdict("/deny"), Some(false));
}

#[test]
fn rejects_unknown() {
    assert_eq!(parse_approval_verdict("maybe"), None);
    assert_eq!(parse_approval_verdict("nope"), None);
    assert_eq!(parse_approval_verdict(""), None);
}

#[test]
fn branch_picker_switches_exact_match_from_typed_query() {
    let branches = vec![
        "interactive-question".into(),
        "main".into(),
        "self-autoresearch".into(),
    ];
    let cmd = branch_picker_enter_command(&branches, "main", 0);
    assert!(matches!(cmd, Some(TuiCmd::SwitchBranch(name)) if name == "main"));
}

#[test]
fn branch_picker_creates_only_with_slash_prefix() {
    let branches = vec!["main".into()];
    let cmd = branch_picker_enter_command(&branches, "/feature-x", 0);
    assert!(matches!(cmd, Some(TuiCmd::CreateBranch(name)) if name == "feature-x"));
}

#[test]
fn branch_picker_filters_case_insensitively() {
    let branches = vec!["Main".into(), "feature/login".into()];
    assert_eq!(filtered_branch_indices(&branches, "main"), vec![0]);
    assert_eq!(filtered_branch_indices(&branches, "LOGIN"), vec![1]);
}

#[test]
fn branch_picker_switches_selected_filtered_branch_by_name() {
    let branches = vec!["alpha".into(), "main".into(), "main-fix".into()];
    let cmd = branch_picker_enter_command(&branches, "mai", 1);
    assert!(matches!(cmd, Some(TuiCmd::SwitchBranch(name)) if name == "main-fix"));
}

#[test]
fn enter_accepts_selected_at_mention_without_submitting() {
    let workspace_files = vec![
        "crates/cli/src/file_mentions.rs".into(),
        "crates/cli/src/tui/app.rs".into(),
    ];
    let buffer = "check @crates/cli/src/t";
    let cursor_char_idx = buffer.chars().count();

    let (next_buffer, next_cursor_char_idx) =
        apply_selected_at_completion(&workspace_files, buffer, cursor_char_idx, 0, true)
            .expect("active mention should be selectable");

    assert_eq!(next_buffer, "check @crates/cli/src/tui/app.rs ");
    assert_eq!(next_cursor_char_idx, next_buffer.chars().count());
}

#[test]
fn backspace_deletes_completed_at_mention_and_space() {
    let buffer = "check @crates/cli/src/tui/app.rs ";
    let cursor_char_idx = buffer.chars().count();

    let (next_buffer, next_cursor_char_idx) = delete_completed_at_mention(buffer, cursor_char_idx)
        .expect("completed mention should delete as one token");

    assert_eq!(next_buffer, "check ");
    assert_eq!(next_cursor_char_idx, "check ".chars().count());
}

#[test]
fn mention_range_includes_inserted_trailing_space() {
    let buffer = "check @crates/cli/src/tui/app.rs ";
    let cursor_char_idx = buffer.chars().count();

    assert_eq!(
        completed_at_mention_range_before_cursor(buffer, cursor_char_idx),
        Some((6, buffer.chars().count()))
    );
}

#[test]
fn parses_permission_aliases() {
    assert_eq!(
        "accept-edits".parse::<PermissionMode>().ok(),
        Some(PermissionMode::AcceptEdits)
    );
    assert_eq!(
        "dontask".parse::<PermissionMode>().ok(),
        Some(PermissionMode::DontAsk)
    );
    assert_eq!(
        "bypass_permissions".parse::<PermissionMode>().ok(),
        Some(PermissionMode::BypassPermissions)
    );
    assert_eq!("invalid".parse::<PermissionMode>().ok(), None);
}

#[test]
fn composer_line_styles_completed_mentions() {
    let runs = composer_runs("see @README.md ", 15, 80);
    let mention = runs
        .iter()
        .find(|(_, text)| text.contains("@README.md"))
        .expect("mention span should exist");
    assert_eq!(mention.0, ComposerStyle::Mention);
}

#[test]
fn escape_only_cancels_active_turn_states() {
    assert!(!escape_cancels_active_turn(BusyState::Idle));
    assert!(escape_cancels_active_turn(BusyState::Thinking));
    assert!(escape_cancels_active_turn(BusyState::Streaming));
    assert!(escape_cancels_active_turn(BusyState::ToolRunning));
    assert!(!escape_cancels_active_turn(BusyState::ApprovalPending));
}

#[test]
fn verdict_ignores_case_surrounding_space_and_trailing_punctuation() {
    for s in ["yes", "no", "approve it", "nope", "/deny", "0", "maybe"] {
        let base = parse_approval_verdict(s);
        assert_eq!(parse_approval_verdict(&format!(" \t{s}?!.\n ")), base);
        assert_eq!(parse_approval_verdict(&s.to_ascii_uppercase()), base);
    }
    assert_eq!(parse_approval_verdict("  YES?! "), Some(true));
}
