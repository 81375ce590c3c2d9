use nca_cli::keys::KeyCode;
use nca_cli::provider::{PermissionMode, ProviderKind};
use nca_cli::repl::{
    bypass_mode, build_model_picker_entries, help_lines, status_lines, classify_command, classify_input, cycle_recent_model,
    permission_for_profile, preset_prompt, profile_for_target, split_command, AgentProfile,
    ProviderStatus, ReplInput, SlashCommand,
};
use nca_cli::session::{SessionSnapshot, SessionStatus, UtcTime};
use nca_cli::tui_cmd::{leader_command, QuestionSelection, TuiCmd};
use nca_cli::turn_state::{api_key_submission, route_submitted_line, ApiKeySubmission, LineRoute};

fn strings(v: &[&str]) -> Vec<String> {
    v.iter().map(|s| s.to_string()).collect()
}

#[test]
fn input_lines_are_classified() {
    assert_eq!(classify_input(""), ReplInput::Empty);
    assert_eq!(classify_input("\t"), ReplInput::SwitchAgent);
    assert_eq!(classify_input("!!ls -la"), ReplInput::Bash("ls -la".to_string()));
    assert_eq!(classify_input("/help"), ReplInput::Command);
    assert_eq!(classify_input("fix the bug"), ReplInput::Prompt);
}

#[test]
fn slash_lines_split_into_word_and_rest() {
    assert_eq!(split_command("/agent   plan  "), ("/agent".to_string(), "plan".to_string()));
    assert_eq!(split_command("  /agent plan"), ("/agent".to_string(), String::new()));
    assert_eq!(split_command("/help"), ("/help".to_string(), String::new()));
    assert_eq!(classify_command("/exit"), SlashCommand::Quit);
    assert_eq!(classify_command("/model"), SlashCommand::Model);
    assert_eq!(classify_command("/my-skill"), SlashCommand::Other);
}

#[test]
fn agent_profiles_are_named_and_cycle() {
    assert_eq!(profile_for_target("@Plan"), Some(AgentProfile::Plan));
    assert_eq!(profile_for_target("review"), Some(AgentProfile::Review));
    assert_eq!(profile_for_target("ship"), None);
    assert_eq!(permission_for_profile(AgentProfile::Plan), PermissionMode::Plan);
    assert_eq!(permission_for_profile(AgentProfile::Fix), PermissionMode::Default);
    let mut p = AgentProfile::default_profile();
    for _ in 0..5 {
        p = p.next();
    }
    assert_eq!(p, AgentProfile::default_profile());
    assert_eq!(AgentProfile::Build.next(), AgentProfile::Plan);
}

#[test]
fn preset_commands_prefix_the_task() {
    assert_eq!(
        preset_prompt(SlashCommand::Fix, "  crash on start "),
        Some("Diagnose and fix the issue below. Prefer a minimal verified change.\n\nIssue:\ncrash on start".to_string())
    );
    assert_eq!(preset_prompt(SlashCommand::Plan, "   "), None);
}

#[test]
fn bypass_argument_sets_or_toggles() {
    assert_eq!(bypass_mode("", PermissionMode::Default), Some(PermissionMode::BypassPermissions));
    assert_eq!(bypass_mode("toggle", PermissionMode::BypassPermissions), Some(PermissionMode::Default));
    assert_eq!(bypass_mode(" ON ", PermissionMode::Plan), Some(PermissionMode::BypassPermissions));
    assert_eq!(bypass_mode("0", PermissionMode::BypassPermissions), Some(PermissionMode::Default));
    assert_eq!(bypass_mode("maybe", PermissionMode::Default), None);
}

#[test]
fn model_picker_entries_list_providers_models_and_aliases() {
    let providers: Vec<ProviderStatus> = (0..6)
        .map(|i| ProviderStatus { model: format!("m{i}"), api_key_present: i == 0 })
        .collect();
    let entries = build_model_picker_entries(
        &providers,
        ProviderKind::MiniMax,
        &strings(&["MiniMax-M2.5"]),
        &[("fast".to_string(), "MiniMax-M2.5".to_string())],
    );
    let labels: Vec<&str> = entries.iter().map(|e| e.label.as_str()).collect();
    assert_eq!(
        labels,
        vec![
            "Providers",
            "MiniMax [active]",
            "OpenAI",
            "Anthropic",
            "OpenRouter",
            "ZhipuAI",
            "DeepSeek",
            "MiniMax models",
            "MiniMax-M2.5",
            "Aliases",
            "fast",
        ]
    );
    assert_eq!(entries[1].detail, "m0 (key ✓)");
    assert_eq!(entries[2].detail, "m1 (no key)");
    assert_eq!(entries[10].detail, "→ MiniMax-M2.5");
    assert!(entries[0].is_header && entries[9].is_header);
}

#[test]
fn f2_cycles_recent_models_both_ways() {
    let recent = strings(&["a", "b", "c"]);
    assert_eq!(cycle_recent_model(&recent, "b", true), Some("c".to_string()));
    assert_eq!(cycle_recent_model(&recent, "c", true), Some("a".to_string()));
    assert_eq!(cycle_recent_model(&recent, "a", false), Some("c".to_string()));
    assert_eq!(cycle_recent_model(&recent, "zzz", true), Some("b".to_string()));
    assert_eq!(cycle_recent_model(&strings(&["a"]), "a", true), None);
    let forward = cycle_recent_model(&recent, "b", true).unwrap();
    assert_eq!(cycle_recent_model(&recent, &forward, false), Some("b".to_string()));
}

#[test]
fn leader_keys_open_views() {
    assert_eq!(leader_command(KeyCode::Char('m')), Some(TuiCmd::OpenModelPicker));
    assert_eq!(leader_command(KeyCode::Char('L')), Some(TuiCmd::OpenSessions));
    assert_eq!(leader_command(KeyCode::Char('q')), Some(TuiCmd::Exit));
    assert_eq!(leader_command(KeyCode::Char('z')), None);
    assert_eq!(leader_command(KeyCode::Enter), None);
}

#[test]
fn submitted_lines_answer_pending_approvals() {
    assert!(matches!(route_submitted_line("   ", true, None), LineRoute::ApprovalEmpty));
    assert!(matches!(route_submitted_line("/APPROVE", true, None), LineRoute::ApprovalVerdict(true)));
    assert!(matches!(route_submitted_line("/n", true, None), LineRoute::ApprovalVerdict(false)));
    assert!(matches!(route_submitted_line("/help", true, None), LineRoute::Submit));
    assert!(matches!(route_submitted_line("ok!", true, None), LineRoute::ApprovalVerdict(true)));
    assert!(matches!(route_submitted_line("perhaps", true, None), LineRoute::ApprovalUnparsed));
}

#[test]
fn submitted_lines_answer_pending_questions() {
    let ids = strings(&["r", "b"]);
    let q = Some((ids.as_slice(), false));
    assert!(matches!(
        route_submitted_line(" /auto-answer ", false, q),
        LineRoute::QuestionAnswer(QuestionSelection::Suggested)
    ));
    assert!(matches!(route_submitted_line("/help", false, q), LineRoute::Submit));
    match route_submitted_line("2", false, q) {
        LineRoute::QuestionAnswer(QuestionSelection::Picked { option_id }) => assert_eq!(option_id, "b"),
        _ => panic!("expected the second option"),
    }
    assert!(matches!(route_submitted_line("purple", false, q), LineRoute::QuestionInvalid));
    assert!(matches!(route_submitted_line("hello", false, None), LineRoute::Submit));
}

#[test]
fn api_key_popup_submissions() {
    assert_eq!(api_key_submission("/cancel", "sk", true), ApiKeySubmission::Close);
    assert_eq!(api_key_submission("", "  ", true), ApiKeySubmission::KeepExisting);
    assert_eq!(api_key_submission("", "", false), ApiKeySubmission::AskAgain);
    assert_eq!(api_key_submission("", " sk-1 ", false), ApiKeySubmission::Save("sk-1".to_string()));
}

#[test]
fn help_lists_modes_commands_and_shortcuts() {
    let lines = help_lines();
    assert_eq!(lines.len(), 56);
    assert_eq!(lines[0], "nca Interactive Mode");
    assert_eq!(lines[6], "  \\           Multiline input (end line with \\ to continue)");
    assert!(lines.contains(&"  /status            Session status"));
    assert_eq!(lines[lines.len() - 1], "  F2           Cycle recent models");
}

#[test]
fn status_shows_session_and_flattened_summary() {
    let mut snap = SessionSnapshot {
        id: "s-1".to_string(),
        updated_at: UtcTime { secs: 0, nanos: 0 },
        model: "m".to_string(),
        status: SessionStatus::Running,
        socket_path: None,
        worktree_path: None,
        branch: None,
        base_branch: None,
        child_session_ids: vec!["c1".to_string(), "c2".to_string()],
        session_summary: None,
        session_title: None,
        total_input_tokens: 0,
        total_output_tokens: 0,
        estimated_cost_ten_thousandths: 0,
    };
    let lines = status_lines(&snap, "MiniMax-M2", AgentProfile::Plan, PermissionMode::Plan, "/tmp/mem");
    assert_eq!(
        lines,
        vec![
            "Session:     s-1".to_string(),
            "Model:       MiniMax-M2".to_string(),
            "Agent:       @plan".to_string(),
            "Permission:  Plan".to_string(),
            "Children:    2".to_string(),
            "Memory:      /tmp/mem".to_string(),
        ]
    );
    snap.session_summary = Some("first\nsecond".to_string());
    let lines = status_lines(&snap, "m", AgentProfile::Build, PermissionMode::AcceptEdits, "p");
    assert_eq!(lines.len(), 8);
    assert_eq!(lines[3], "Permission:  AcceptEdits");
    assert_eq!(lines[6], "");
    assert_eq!(lines[7], "Summary: first second");
}
