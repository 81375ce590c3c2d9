use nca_cli::export::event_fields_lines;
use nca_cli::key_route::{key_target, mouse_blocked, KeyTarget, OpenPopups};
use nca_cli::branch::{
    git_args, git_create_branch, git_current_branch, git_list_branches, git_output, git_switch_branch,
    text_lines_of, GitOp,
};
use nca_cli::install::{completion_install_path, is_workspace_manifest};
use nca_cli::text_utils::{
    cursor_byte_index, session_id_head, short_session_prefix, truncate, truncate_chars,
};
use nca_cli::cli_values::{ClapShell, StdinMerge};
use nca_cli::exit_code::classify_exit_code;
use nca_cli::html::{html_escape, text_to_html};
use nca_cli::layout::{centered_rect, layout_chunks, layout_with_sidebar, rect_contains, Rect};
use nca_cli::prompt::{compose_prompt_with_stdin, shell_from_env_value, should_read_stdin};
use nca_cli::session::{SessionSnapshot, SessionStatus, UtcTime};
use nca_cli::session_list::{latest_session_id, resume_session_id, session_list_lines, session_listing, ResumeError};
use nca_cli::transcript::{plain_text_from_lines, truncate_by_columns, truncate_by_columns_skip};

fn snapshot(id: &str, secs: i64, status: SessionStatus, model: &str) -> SessionSnapshot {
    SessionSnapshot {
        id: id.to_string(),
        updated_at: UtcTime { secs, nanos: 0 },
        model: model.to_string(),
        status,
        socket_path: None,
        worktree_path: None,
        branch: None,
        base_branch: None,
        child_session_ids: Vec::new(),
        session_summary: None,
        session_title: None,
        total_input_tokens: 0,
        total_output_tokens: 0,
        estimated_cost_ten_thousandths: 0,
    }
}

#[test]
fn run_without_config_exits_nonzero() {
    let code = classify_exit_code(&["missing MiniMax API key".to_string()]);
    assert_ne!(code, 0);
    assert_eq!(code, 10);
}

#[test]
fn sessions_lists_newest_saved_sessions_first_with_status() {
    let now = 1_700_000_000;
    let sessions = vec![
        snapshot("session-older", now - 300, SessionStatus::Completed, "MiniMax-M2.5"),
        snapshot("session-newer", now, SessionStatus::Cancelled, "MiniMax-M2.5"),
    ];
    let out = session_list_lines(&sessions, None, None, None, 20, Vec::new());
    assert!(out.join("\n").contains("session-newer\tCancelled\nsession-older\tCompleted"));
}

#[test]
fn session_list_lines_end_with_sorted_unreadable_ids() {
    let sessions = vec![snapshot("s1", 10, SessionStatus::Running, "m")];
    let out = session_list_lines(&sessions, None, None, None, 20, vec!["zz".to_string(), "aa".to_string()]);
    assert_eq!(out, vec!["s1\tRunning", "aa\tUnreadable", "zz\tUnreadable"]);
    let limited = session_list_lines(&sessions, None, None, None, 0, Vec::new());
    assert!(limited.is_empty());
}

#[test]
fn top_level_resume_uses_latest_session() {
    let now = 1_700_000_000;
    let sessions = vec![
        ("session-older".to_string(), UtcTime { secs: now - 300, nanos: 0 }),
        ("session-newer".to_string(), UtcTime { secs: now, nanos: 0 }),
    ];
    let latest = latest_session_id(&sessions).expect("a session");
    assert!(format!("session={latest}").contains("session=session-newer"));
    assert_eq!(latest_session_id(&[]), None);
}

#[test]
fn session_listing_filters_sorts_and_limits() {
    let sessions = vec![
        snapshot("b", 10, SessionStatus::Completed, "gpt"),
        snapshot("a", 10, SessionStatus::Completed, "MiniMax"),
        snapshot("c", 30, SessionStatus::Error, "gpt"),
        snapshot("d", 5, SessionStatus::Running, "gpt"),
    ];
    assert_eq!(session_listing(&sessions, None, None, None, 10), vec![2, 1, 0, 3]);
    assert_eq!(session_listing(&sessions, None, None, None, 2), vec![2, 1]);
    assert_eq!(
        session_listing(&sessions, None, Some(UtcTime { secs: 9, nanos: 0 }), None, 10),
        vec![2, 1, 0]
    );
    assert_eq!(session_listing(&sessions, None, None, Some("MINI".to_string()), 10), vec![1]);
    assert_eq!(
        session_listing(&sessions, Some(nca_cli::cli_values::SessionStatusFilter::Failed), None, None, 10),
        vec![2]
    );
}

#[test]
fn html_escaping_and_line_breaks() {
    assert_eq!(html_escape("<a href='x'>&\"</a>"), "&lt;a href=&#39;x&#39;&gt;&amp;&quot;&lt;/a&gt;");
    assert_eq!(text_to_html("a\n<b>"), "a<br/>\n&lt;b&gt;");
}

#[test]
fn exit_codes_by_error_text() {
    assert_eq!(classify_exit_code(&["tool `bash` requires approval in headless mode".to_string()]), 13);
    assert_eq!(classify_exit_code(&["outer".to_string(), "Run cancelled".to_string()]), 130);
    assert_eq!(classify_exit_code(&["provider returned 500".to_string()]), 11);
    assert_eq!(classify_exit_code(&["something else".to_string()]), 1);
}

#[test]
fn prompt_and_stdin_merge() {
    let p = Some("  fix this ".to_string());
    let i = Some("log\n\n".to_string());
    assert_eq!(compose_prompt_with_stdin(p.clone(), Some(StdinMerge::Prefix), i.clone()), Some("log\n\nfix this".to_string()));
    assert_eq!(compose_prompt_with_stdin(p.clone(), Some(StdinMerge::Only), i.clone()), Some("log".to_string()));
    assert_eq!(compose_prompt_with_stdin(p.clone(), None, i.clone()), Some("fix this\n\nlog".to_string()));
    assert_eq!(compose_prompt_with_stdin(Some("   ".to_string()), None, Some("\n".to_string())), None);
    assert_eq!(compose_prompt_with_stdin(p.clone(), Some(StdinMerge::Only), None), None);
    assert_eq!(compose_prompt_with_stdin(p.clone(), Some(StdinMerge::Only), Some("\n\n".to_string())), None);
    assert!(should_read_stdin(None, false));
    assert!(!should_read_stdin(None, true));
    assert!(should_read_stdin(Some(StdinMerge::Append), true));
}

#[test]
fn completion_shell_from_environment() {
    assert_eq!(shell_from_env_value("/usr/bin/zsh"), ClapShell::Zsh);
    assert_eq!(shell_from_env_value("/usr/local/bin/fish"), ClapShell::Fish);
    assert_eq!(shell_from_env_value("/bin/bash"), ClapShell::Bash);
    assert_eq!(shell_from_env_value(""), ClapShell::Bash);
}

#[test]
fn column_truncation_and_selection_copy() {
    assert_eq!(truncate_by_columns("héllo wörld", 5), "héllo");
    assert_eq!(truncate_by_columns("\tab", 3), "\t");
    assert_eq!(truncate_by_columns_skip("abcdef", 2), "cdef");
    let lines = vec!["hello world".to_string(), "second line".to_string(), "third".to_string()];
    assert_eq!(plain_text_from_lines(&lines, (0, 6), (2, 3)), "world\nsecond line\nthi\n");
    assert_eq!(plain_text_from_lines(&lines, (1, 6), (1, 0)), "second\n");
}

#[test]
fn git_outputs_become_branch_lists() {
    assert_eq!(
        git_list_branches(Some("* main\n  feature/x\r\n+ wt\n")),
        vec!["* main".to_string(), "feature/x".to_string(), "wt".to_string()]
    );
    assert!(git_list_branches(None).is_empty());
    assert_eq!(git_output(true, "  main\n"), Some("main".to_string()));
    assert_eq!(git_output(false, "main"), None);
    assert_eq!(text_lines_of("a\r\nb\n\nc"), vec!["a", "b", "", "c"]);
}

#[test]
fn popups_center_in_the_screen() {
    let area = Rect { x: 0, y: 0, width: 100, height: 40 };
    assert_eq!(centered_rect(area, 60, 10), Rect { x: 20, y: 15, width: 60, height: 10 });
    let small = Rect { x: 2, y: 1, width: 30, height: 8 };
    assert_eq!(centered_rect(small, 60, 20), Rect { x: 3, y: 2, width: 28, height: 6 });
    assert!(rect_contains(area, 0, 0));
    assert!(!rect_contains(area, 100, 5));
}

#[test]
fn git_args_name_each_operation() {
    assert_eq!(git_args(&GitOp::CurrentBranch), vec!["rev-parse", "--abbrev-ref", "HEAD"]);
    assert_eq!(git_args(&GitOp::ListBranches), vec!["branch", "--no-color"]);
    assert_eq!(
        git_args(&GitOp::CreateBranch("feat/x".to_string())),
        vec!["checkout", "-b", "feat/x"]
    );
    assert_eq!(git_args(&GitOp::SwitchBranch("main".to_string())), vec!["checkout", "main"]);
}

#[test]
fn git_results_follow_command_outcome() {
    let out = git_output(true, "  main\n");
    assert_eq!(git_current_branch(out.as_deref()), Some("main".to_string()));
    assert_eq!(git_current_branch(None), None);
    assert!(git_create_branch(Some("")));
    assert!(!git_create_branch(None));
    assert!(git_switch_branch(Some("Switched")));
    assert!(!git_switch_branch(git_output(false, "x").as_deref()));
}

#[test]
fn cursor_byte_index_counts_utf8_bytes() {
    assert_eq!(cursor_byte_index("abc", 0), 0);
    assert_eq!(cursor_byte_index("abc", 2), 2);
    assert_eq!(cursor_byte_index("héllo", 2), 3);
    assert_eq!(cursor_byte_index("日本語", 1), 3);
    assert_eq!(cursor_byte_index("a😀b", 2), 5);
    assert_eq!(cursor_byte_index("héllo", 99), "héllo".len());
    assert_eq!(cursor_byte_index("", 3), 0);
}

#[test]
fn completion_install_path_per_shell() {
    assert_eq!(
        completion_install_path(ClapShell::Bash, "/home/u", None),
        Some("/home/u/.local/share/bash-completion/completions/nca".to_string())
    );
    assert_eq!(
        completion_install_path(ClapShell::Zsh, "/home/u", None),
        Some("/home/u/.zsh/completions/_nca".to_string())
    );
    assert_eq!(
        completion_install_path(ClapShell::Fish, "/home/u", None),
        Some("/home/u/.config/fish/completions/nca.fish".to_string())
    );
    assert_eq!(completion_install_path(ClapShell::PowerShell, "/home/u", None), None);
    assert_eq!(completion_install_path(ClapShell::Elvish, "/home/u", None), None);
    assert_eq!(
        completion_install_path(ClapShell::Elvish, "/home/u", Some("/tmp/c".to_string())),
        Some("/tmp/c".to_string())
    );
}

#[test]
fn workspace_manifest_needs_workspace_table() {
    assert!(is_workspace_manifest("[workspace]\nmembers = [\"crates/*\"]\n"));
    assert!(!is_workspace_manifest("[package]\nname = \"x\"\n"));
    assert!(!is_workspace_manifest(""));
}

#[test]
fn screen_rows_follow_the_layout_rules() {
    let area = Rect { x: 0, y: 0, width: 80, height: 24 };
    let (transcript, status, slash, composer) = layout_chunks(area, 0);
    assert_eq!(transcript, Rect { x: 0, y: 0, width: 80, height: 19 });
    assert_eq!(status, Rect { x: 0, y: 19, width: 80, height: 2 });
    assert_eq!(slash, None);
    assert_eq!(composer, Rect { x: 0, y: 21, width: 80, height: 3 });

    let (transcript, status, slash, composer) = layout_chunks(area, 5);
    assert_eq!(transcript, Rect { x: 0, y: 0, width: 80, height: 14 });
    assert_eq!(status, Rect { x: 0, y: 14, width: 80, height: 2 });
    assert_eq!(slash, Some(Rect { x: 0, y: 16, width: 80, height: 5 }));
    assert_eq!(composer, Rect { x: 0, y: 21, width: 80, height: 3 });
}

#[test]
fn sidebar_only_on_wide_terminals() {
    let narrow = Rect { x: 0, y: 0, width: 109, height: 30 };
    assert_eq!(layout_with_sidebar(narrow), (narrow, None));
    let wide = Rect { x: 0, y: 0, width: 120, height: 30 };
    assert_eq!(
        layout_with_sidebar(wide),
        (
            Rect { x: 0, y: 0, width: 88, height: 30 },
            Some(Rect { x: 88, y: 0, width: 32, height: 30 })
        )
    );
}

#[test]
fn truncate_keeps_at_most_max_characters() {
    assert_eq!(truncate("  hello  ", 10), "hello");
    assert_eq!(truncate("hello world", 5), "hell…");
    assert_eq!(truncate("hello", 0), "");
    assert_eq!(truncate("   ", 0), "");
    assert_eq!(truncate_chars("hello", 0), "…");
    assert_eq!(truncate_chars("hello", 3), "he…");
}

#[test]
fn short_session_prefix_takes_eight_characters() {
    assert_eq!(short_session_prefix("0123456789abcdef"), "01234567");
    assert_eq!(short_session_prefix("abc"), "abc");
    assert_eq!(short_session_prefix("ééééééééé"), "éééééééé");
    assert_eq!(short_session_prefix(""), "");
}

#[test]
fn wrapped_lines_fit_the_width() {
    let text = "the quick brown fox jumps over the lazy dog\nsupercalifragilisticexpialidocious";
    let lines = nca_cli::wrap::wrap_text(text, 10);
    assert!(!lines.is_empty());
    for l in &lines {
        assert!(l.chars().count() <= 10, "{l:?}");
    }
    assert_eq!(lines[0], "the quick");
    assert_eq!(nca_cli::wrap::wrap_text("          ", 8), vec!["          ".to_string()]);
}

#[test]
fn keys_go_to_the_first_open_popup() {
    let none = OpenPopups {
        command_palette: false,
        info_modal: false,
        model_picker: false,
        connect_modal: false,
        api_key_modal: false,
        provider_picker: false,
        branch_picker: false,
        question_modal: false,
        permission_picker: false,
        agent_picker: false,
        session_picker: false,
        leader_pending: false,
    };
    assert_eq!(key_target(&none), KeyTarget::Composer);
    assert!(!mouse_blocked(&none));
    let branch = OpenPopups { branch_picker: true, leader_pending: true, ..none };
    assert_eq!(key_target(&branch), KeyTarget::BranchPicker);
    assert!(!mouse_blocked(&branch));
    let both = OpenPopups { command_palette: true, session_picker: true, ..none };
    assert_eq!(key_target(&both), KeyTarget::CommandPalette);
    assert!(mouse_blocked(&both));
    assert_eq!(key_target(&OpenPopups { leader_pending: true, ..none }), KeyTarget::Leader);
}

#[test]
fn event_fields_become_markdown_lines() {
    assert_eq!(
        event_fields_lines(Some("MessageReceived"), Some("user"), Some("hi"), None),
        vec!["## user", "", "hi", ""]
    );
    assert_eq!(event_fields_lines(Some("MessageReceived"), None, None, None), vec!["## ?", "", "", ""]);
    assert_eq!(event_fields_lines(Some("ToolCallStarted"), None, None, Some("bash")), vec!["### tool: bash", ""]);
    assert!(event_fields_lines(Some("Other"), Some("x"), None, None).is_empty());
    assert!(event_fields_lines(None, Some("x"), None, None).is_empty());
}

#[test]
fn resume_picks_latest_or_reports_none() {
    let now = 1_700_000_000;
    let sessions = vec![
        ("session-older".to_string(), UtcTime { secs: now - 300, nanos: 0 }),
        ("session-newer".to_string(), UtcTime { secs: now, nanos: 0 }),
    ];
    assert_eq!(resume_session_id(&sessions), Ok("session-newer".to_string()));
    let err = resume_session_id(&[]).unwrap_err();
    assert_eq!(err, ResumeError::NoSavedSessions);
    assert_eq!(err.message(), "no saved sessions found to resume");
}

#[test]
fn session_id_head_keeps_the_first_eight_bytes() {
    assert_eq!(session_id_head("0123456789abcdef"), "01234567");
    assert_eq!(session_id_head("abc"), "abc");
    assert_eq!(session_id_head(""), "");
    assert_eq!(session_id_head("éééééé"), "éééé");
    assert_eq!(session_id_head("ab€cdefgh"), "ab€cde");
}
