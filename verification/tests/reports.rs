use nca_cli::completion::{repl_completions, Completion};
use nca_cli::cost_dashboard::{cost_dashboard_lines, dashboard_order};
use nca_cli::doctor::{
    doctor_fix_lines, doctor_provider_row, doctor_report_lines, doctor_skip_network, needs_preflight,
    DoctorReport, PreflightResult,
};
use nca_cli::event_text::{human_event_text, AgentEvent, OutputStream};
use nca_cli::reports::{
    config_summary_lines, model_catalog_lines, ConfigSummary, ModelCatalog, ProviderModel,
    RetrySettings,
};
use nca_cli::session::{SessionSnapshot, SessionStatus, UtcTime};
use nca_cli::session_list::sort_texts;
use nca_cli::status_bar::{context_percent, status_bar_spans, StatusBarData};
use nca_cli::transcript_view::Tone;
use nca_cli::turn_state::BusyState;

fn strings(v: &[&str]) -> Vec<String> {
    v.iter().map(|s| s.to_string()).collect()
}

fn snapshot(id: &str, secs: i64, model: &str, tin: u64, tout: u64, cost: u64) -> SessionSnapshot {
    SessionSnapshot {
        id: id.to_string(),
        updated_at: UtcTime { secs, nanos: 0 },
        model: model.to_string(),
        status: SessionStatus::Completed,
        socket_path: None,
        worktree_path: None,
        branch: None,
        base_branch: None,
        child_session_ids: Vec::new(),
        session_summary: None,
        session_title: None,
        total_input_tokens: tin,
        total_output_tokens: tout,
        estimated_cost_ten_thousandths: cost,
    }
}

#[test]
fn completions_offer_mentions_before_commands() {
    let files = strings(&["src/main.rs", "src/lib.rs", "README.md"]);
    let commands = strings(&["/help", "/history", "/model"]);
    let skills = vec![("hello".to_string(), Some("greets".to_string()))];
    let m = repl_completions("open @src/m", 11, &files, &commands, &skills);
    assert_eq!(
        m,
        vec![Completion {
            value: "@src/main.rs".to_string(),
            description: Some("workspace file".to_string()),
            start: 5,
            end: 11,
            append_whitespace: false,
        }]
    );
    let c = repl_completions("/h", 2, &files, &commands, &skills);
    let values: Vec<&str> = c.iter().map(|x| x.value.as_str()).collect();
    assert_eq!(values, vec!["/help", "/history", "/hello"]);
    assert_eq!(c[2].description, Some("greets".to_string()));
    assert!(c.iter().all(|x| x.start == 0 && x.end == 0 && x.append_whitespace));
    let bang = repl_completions("!ca", 3, &files, &commands, &skills);
    let values: Vec<&str> = bang.iter().map(|x| x.value.as_str()).collect();
    assert_eq!(values, vec!["!cat", "!cargo"]);
    assert!(repl_completions("plain", 5, &files, &commands, &skills).is_empty());
}

#[test]
fn human_stream_lines_for_events() {
    let e = AgentEvent::SessionStarted { session_id: "s1".to_string(), model: "m".to_string() };
    assert_eq!(human_event_text(&e), Some((OutputStream::Stderr, "[session] s1 model=m\n".to_string())));
    let t = AgentEvent::TokensStreamed { delta: "hel".to_string() };
    assert_eq!(human_event_text(&t), Some((OutputStream::Stdout, "hel".to_string())));
    let f = AgentEvent::ToolCallCompleted { success: false, error: None };
    assert_eq!(human_event_text(&f), Some((OutputStream::Stderr, "[tool:done] error: tool failed\n".to_string())));
    let c = AgentEvent::Checkpoint { phase: "plan".to_string(), detail: "ok".to_string(), turn: 3 };
    assert_eq!(human_event_text(&c), Some((OutputStream::Stderr, "[checkpoint] turn=3 phase=plan ok\n".to_string())));
    let r = AgentEvent::ApprovalResolved { approved: false };
    assert_eq!(human_event_text(&r), Some((OutputStream::Stderr, "[approval] resolved=false\n".to_string())));
    assert_eq!(human_event_text(&AgentEvent::Quiet), None);
}

#[test]
fn cost_table_lists_newest_first_with_totals() {
    let sessions = vec![
        snapshot("old", 10, "MiniMax-M2.5", 100, 20, 12),
        snapshot("new", 30, "gpt", 5, 7, 10000),
        snapshot("mid-a", 20, "m", 1, 1, 0),
        snapshot("mid-b", 20, "m", 1, 1, 0),
    ];
    assert_eq!(dashboard_order(&sessions, None, 10), vec![1, 2, 3, 0]);
    assert_eq!(dashboard_order(&sessions, None, 2), vec![1, 2]);
    assert_eq!(dashboard_order(&sessions, Some(UtcTime { secs: 15, nanos: 0 }), 10), vec![1, 2, 3]);
    let lines = cost_dashboard_lines(&sessions, &[1, 0], "$1.0012");
    assert_eq!(lines.len(), 6);
    assert_eq!(lines[0], format!("{:<24} {:<28} {:>10} {:>10} {:>10}", "SESSION", "MODEL", "IN", "OUT", "COST"));
    assert_eq!(lines[1], "-".repeat(84));
    assert_eq!(lines[2], format!("{:<24} {:<28} {:>10} {:>10} {:>10}", "new", "gpt", 5, 7, "$1.0000"));
    assert_eq!(lines[3], format!("{:<24} {:<28} {:>10} {:>10} {:>10}", "old", "MiniMax-M2.5", 100, 20, "$0.0012"));
    assert_eq!(lines[5], format!("{:<24} {:<28} {:>10} {:>10} {:>10}", "2 sessions", "", 105, 27, "$1.0012"));
    let long = vec![snapshot("abcdefghijklmnopqrstuvwxyz", 1, "m", 0, 0, 0)];
    assert!(cost_dashboard_lines(&long, &[0], "$0.0000")[2].starts_with("abcdefghijklmnopqrstuv  "));
}

#[test]
fn doctor_rows_and_report() {
    assert!(doctor_skip_network(Some("TRUE")));
    assert!(doctor_skip_network(Some("1")));
    assert!(!doctor_skip_network(Some("yes")));
    assert!(!doctor_skip_network(None));
    assert!(needs_preflight(false, true));
    assert!(!needs_preflight(true, true));
    let ok = doctor_provider_row(
        "MiniMax".to_string(),
        true,
        true,
        "MINIMAX_API_KEY".to_string(),
        "MiniMax-M2.5".to_string(),
        "https://api".to_string(),
        false,
        Some((PreflightResult::InvalidKey("401".to_string()), 42)),
    );
    assert_eq!(ok.preflight, "invalid_key");
    assert_eq!(ok.preflight_ms, Some(42));
    let skipped = doctor_provider_row(
        "OpenAI".to_string(),
        false,
        false,
        "OPENAI_API_KEY".to_string(),
        "gpt".to_string(),
        "https://o".to_string(),
        false,
        None,
    );
    assert_eq!(skipped.preflight, "skipped_no_api_key");
    let report = DoctorReport {
        provider: "MiniMax".to_string(),
        default_model: "MiniMax-M2.5".to_string(),
        providers: vec![ok, skipped],
        mcp_server_count: 1,
        skill_count: 2,
        memory_path: "/w/.nca/memory.json".to_string(),
    };
    let lines = doctor_report_lines(&report);
    assert_eq!(lines[0], "Provider: MiniMax");
    assert_eq!(
        lines[3],
        "  MiniMax [selected]: api_key=configured (MINIMAX_API_KEY) model=MiniMax-M2.5 base_url=https://api preflight=42ms (invalid key)"
    );
    assert_eq!(lines[4], "      note: 401");
    assert_eq!(
        lines[5],
        "  OpenAI: api_key=missing (OPENAI_API_KEY) model=gpt base_url=https://o preflight=— (skipped no api key)"
    );
    assert_eq!(lines[6], "Skills discovered: 2");
    assert_eq!(lines.len(), 10);
    assert_eq!(doctor_fix_lines(&[]), vec!["\nNo fixes needed — workspace already set up."]);
    assert_eq!(doctor_fix_lines(&strings(&["created .nca"])), vec!["\nApplied fixes:", "  • created .nca"]);
}

#[test]
fn model_and_config_reports() {
    let catalog = ModelCatalog {
        default_provider: "MiniMax".to_string(),
        default_model: "MiniMax-M2.5".to_string(),
        provider_models: vec![ProviderModel {
            provider: "MiniMax".to_string(),
            model: "MiniMax-M2.5".to_string(),
            base_url: "https://api".to_string(),
            selected: true,
        }],
        aliases: vec![("fast".to_string(), "MiniMax-M2.5".to_string())],
        thinking_enabled: false,
        thinking_budget: 2048,
        retry: Some(RetrySettings {
            max_empty_response_retries: 2,
            empty_response_backoff_initial_ms: 250,
            empty_response_backoff_max_ms: 4000,
        }),
    };
    assert_eq!(
        model_catalog_lines(&catalog),
        vec![
            "Default provider/model: MiniMax / MiniMax-M2.5",
            "Thinking: off (budget 2048)",
            "Provider models:",
            "  MiniMax [selected] -> MiniMax-M2.5 (https://api)",
            "  fast -> MiniMax-M2.5",
            "Empty-response retries: max 2 (exponential backoff 250ms → cap 4000ms)",
        ]
    );
    let config = ConfigSummary {
        global_config_path: None,
        workspace_config_path: "/w/.nca/config.toml".to_string(),
        default_provider: "MiniMax".to_string(),
        default_model: "MiniMax-M2.5".to_string(),
        permission_mode: "Default".to_string(),
        endpoints: vec![("MiniMax".to_string(), "MiniMax-M2.5".to_string(), "https://api".to_string())],
        memory_path: "/w/.nca/memory.json".to_string(),
        skill_directories: strings(&["/w/.nca/skills"]),
    };
    assert_eq!(
        config_summary_lines(&config),
        vec![
            "Global config: <unavailable>",
            "Workspace config: /w/.nca/config.toml",
            "Default provider: MiniMax",
            "Default model: MiniMax-M2.5",
            "Permission mode: Default",
            "Provider endpoints:",
            "  MiniMax -> model=MiniMax-M2.5 base_url=https://api",
            "Memory path: /w/.nca/memory.json",
            "Skill directories:",
            "  /w/.nca/skills",
        ]
    );
}

#[test]
fn status_bar_shows_state_and_optional_usage() {
    let mut d = StatusBarData::default();
    assert_eq!(d.model, "unknown");
    d.model = "m".to_string();
    d.permission_mode = "BypassPermissions".to_string();
    d.session_id = "session-12345".to_string();
    d.input_tokens = 10;
    d.output_tokens = 4;
    d.cost_ten_thousandths = 199;
    d.context_usage_percent = context_percent(250);
    d.current_busy_state = BusyState::Streaming;
    let (spans, cancel) = status_bar_spans(&d, "⠋", 125, false);
    let text: String = spans.iter().map(|(_, t)| t.as_str()).collect();
    assert_eq!(
        text,
        "⠋ │ m │ Build │  │  BYPASS — tools run without approval  │ session- │ in:10 out:4 │ $0.0199 │ ctx:100% │ 02:05"
    );
    assert!(cancel);
    assert_eq!(spans[spans.len() - 3].0, Tone::Error);
    let (short, idle) = status_bar_spans(&StatusBarData::default(), "", 5, true);
    let text: String = short.iter().map(|(_, t)| t.as_str()).collect();
    assert_eq!(text, " │ unknown │ Build │  │  perm:ask  │ ctx:0% │ 00:05");
    assert!(!idle);
}

#[test]
fn unreadable_ids_sort_in_code_point_order() {
    assert_eq!(sort_texts(strings(&["b", "a", "B", "ab"])), vec!["B", "a", "ab", "b"]);
}
