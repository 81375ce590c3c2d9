use nca_cli::session::{
    decimal, format_attach_lines, format_cost, format_cost_lines, format_human_session_lines,
    format_resume_briefing_lines, format_session_picker_label, should_show_resume_briefing,
    SessionSnapshot, SessionStatus, UtcTime,
};

fn snapshot() -> SessionSnapshot {
    SessionSnapshot {
        id: "session-123".into(),
        updated_at: UtcTime { secs: 1_700_000_000, nanos: 0 },
        model: "MiniMax-M2.5".into(),
        status: SessionStatus::Completed,
        socket_path: Some("/tmp/nca/session-123.sock".into()),
        worktree_path: Some("/tmp/work/.nca/worktrees/session-123".into()),
        branch: Some("feature/demo".into()),
        base_branch: Some("main".into()),
        child_session_ids: vec!["child-1".into()],
        session_summary: Some("Recovered startup context and staged a compact summary.".into()),
        session_title: None,
        total_input_tokens: 123,
        total_output_tokens: 456,
        estimated_cost_ten_thousandths: 199,
    }
}

#[test]
fn picker_label_includes_branch_cost_and_summary() {
    let label = format_session_picker_label(&snapshot());
    assert!(label.contains("feature/demo"));
    assert!(label.contains("$0.0199"));
    assert!(label.contains("Recovered startup context"));
}

#[test]
fn resume_briefing_is_enabled_for_persisted_session_context() {
    assert!(should_show_resume_briefing(&snapshot(), 3));
}

#[test]
fn cost_and_attach_lines_surface_machine_paths() {
    let snap = snapshot();
    let cost = format_cost_lines(&snap, "/tmp/work/.nca/sessions/session-123.events.jsonl");
    let attach = format_attach_lines(&snap, "/tmp/work/.nca/sessions/session-123.events.jsonl");
    assert!(cost.iter().any(|line| line.contains("123")));
    assert!(cost.iter().any(|line| line.contains("$0.0199")));
    assert!(attach.iter().any(|line| line.contains("nca attach session-123")));
    assert!(attach.iter().any(|line| line.contains("Event log:")));
}

#[test]
fn picker_label_writes_the_update_minute() {
    let label = format_session_picker_label(&snapshot());
    assert_eq!(
        label,
        "session-123  [Completed]  MiniMax-M2.5  updated=2023-11-14 22:13  branch=feature/demo  cost=$0.0199  tokens=123/456  \u{2014} Recovered startup context and staged a compact summa..."
    );
}

#[test]
fn listing_header_writes_rfc3339_instant() {
    let lines = format_human_session_lines(&snapshot());
    assert_eq!(
        lines[0],
        "session-123  status=Completed  model=MiniMax-M2.5  updated=2023-11-14T22:13:20+00:00  children=1  branch=feature/demo  base=main  tokens=123/456  cost=$0.0199"
    );
    assert_eq!(lines[1], "  worktree: /tmp/work/.nca/worktrees/session-123");
    assert_eq!(lines.len(), 3);
}

#[test]
fn briefing_lists_branch_worktree_tokens_and_summary() {
    let mut snap = snapshot();
    snap.branch = None;
    snap.session_summary = Some("line one\nline two".into());
    let lines = format_resume_briefing_lines(&snap);
    assert_eq!(lines[0], "Resuming session session-123");
    assert_eq!(lines[1], "Status: Completed  Model: MiniMax-M2.5  Updated: 2023-11-14T22:13:20+00:00");
    assert_eq!(lines[2], "Branch: -  Base: main");
    assert_eq!(lines[4], "Tokens: 123/456  Cost: $0.0199  Children: 1");
    assert_eq!(lines[5], "Summary: line one line two");
}

#[test]
fn attach_without_socket_or_branch() {
    let mut snap = snapshot();
    snap.socket_path = None;
    snap.branch = None;
    let lines = format_attach_lines(&snap, "log");
    assert_eq!(lines.len(), 6);
    assert_eq!(lines[2], "Socket:      <none>");
}

#[test]
fn costs_and_numbers_format_exactly() {
    let mut snap = snapshot();
    snap.estimated_cost_ten_thousandths = 123_456_789;
    assert_eq!(format_cost(&snap), "$12345.6789");
    snap.estimated_cost_ten_thousandths = 0;
    assert_eq!(format_cost(&snap), "$0.0000");
    assert_eq!(decimal(0), "0");
    assert_eq!(decimal(u64::MAX), "18446744073709551615");
}

#[test]
fn fresh_session_needs_no_briefing() {
    let snap = SessionSnapshot {
        id: "s".into(),
        updated_at: UtcTime { secs: 0, nanos: 0 },
        model: "m".into(),
        status: SessionStatus::Running,
        socket_path: None,
        worktree_path: None,
        branch: None,
        base_branch: None,
        child_session_ids: vec![],
        session_summary: None,
        session_title: None,
        total_input_tokens: 0,
        total_output_tokens: 0,
        estimated_cost_ten_thousandths: 0,
    };
    assert!(!should_show_resume_briefing(&snap, 1));
    assert!(should_show_resume_briefing(&snap, 2));
}
