use nca_cli::cli::{Cli, Command, IndexCmd, MemoryCommand, SkillsCommand};
use nca_cli::cli_scan::CliErrorKind;
use nca_cli::cli_values::{CliPermissionMode, StreamMode};

#[test]
fn parses_top_level_run_mode() {
    let cli = Cli::try_parse_from(&["nca", "--run"]).expect("should parse run mode");
    assert!(cli.run);
    assert!(cli.command.is_none());
}

#[test]
fn parses_run_subcommand_model_override() {
    let cli = Cli::try_parse_from(&["nca", "run", "--prompt", "hello", "--model", "MiniMax-M2.5"])
        .expect("should parse run subcommand");

    match cli.command {
        Some(Command::Run { model, .. }) => {
            assert_eq!(model.as_deref(), Some("MiniMax-M2.5"));
        }
        _ => panic!("expected run subcommand"),
    }
}

#[test]
fn parses_run_subcommand_args() {
    let cli = Cli::try_parse_from(&[
        "nca",
        "run",
        "--prompt",
        "hello",
        "--stream",
        "ndjson",
        "--json",
        "--safe",
        "--permission-mode",
        "accept-edits",
        "--session-id",
        "session-123",
    ])
    .expect("should parse run subcommand");

    match cli.command {
        Some(Command::Run {
            prompt,
            stream,
            json,
            safe,
            permission_mode,
            session_id,
            model,
        }) => {
            assert_eq!(prompt, "hello");
            assert!(matches!(stream, StreamMode::Ndjson));
            assert!(json);
            assert!(safe);
            assert_eq!(permission_mode, Some(CliPermissionMode::AcceptEdits));
            assert_eq!(session_id.as_deref(), Some("session-123"));
            assert!(model.is_none());
        }
        _ => panic!("expected run subcommand"),
    }
}

#[test]
fn parses_spawn_subcommand_args() {
    let cli = Cli::try_parse_from(&[
        "nca",
        "spawn",
        "--prompt",
        "task",
        "--model",
        "MiniMax-M2.5",
        "--safe",
        "--json",
        "--permission-mode",
        "dont-ask",
    ])
    .expect("should parse spawn subcommand");

    match cli.command {
        Some(Command::Spawn {
            prompt,
            model,
            safe,
            json,
            permission_mode,
        }) => {
            assert_eq!(prompt, "task");
            assert_eq!(model.as_deref(), Some("MiniMax-M2.5"));
            assert!(safe);
            assert!(json);
            assert_eq!(permission_mode, Some(CliPermissionMode::DontAsk));
        }
        _ => panic!("expected spawn subcommand"),
    }
}

#[test]
fn parses_attach_subcommand_args() {
    let cli = Cli::try_parse_from(&["nca", "attach", "session-abc", "--json"])
        .expect("should parse attach subcommand");

    match cli.command {
        Some(Command::Attach { session_id, json }) => {
            assert_eq!(session_id, "session-abc");
            assert!(json);
        }
        _ => panic!("expected attach subcommand"),
    }
}

#[test]
fn parses_logs_subcommand_args() {
    let cli = Cli::try_parse_from(&["nca", "logs", "session-xyz", "--follow", "--json"])
        .expect("should parse logs subcommand");

    match cli.command {
        Some(Command::Logs {
            session_id,
            follow,
            json,
        }) => {
            assert_eq!(session_id, "session-xyz");
            assert!(follow);
            assert!(json);
        }
        _ => panic!("expected logs subcommand"),
    }
}

#[test]
fn parses_cancel_subcommand_args() {
    let cli = Cli::try_parse_from(&["nca", "cancel", "session-dead", "--json"])
        .expect("should parse cancel subcommand");

    match cli.command {
        Some(Command::Cancel { session_id, json }) => {
            assert_eq!(session_id, "session-dead");
            assert!(json);
        }
        _ => panic!("expected cancel subcommand"),
    }
}

#[test]
fn parses_index_subcommand_args() {
    let cli = Cli::try_parse_from(&[
        "nca",
        "index",
        "search",
        "query text",
        "--limit",
        "5",
        "--json",
    ])
    .expect("should parse index subcommand");

    match cli.command {
        Some(Command::Index { command }) => match command {
            IndexCmd::Search { query, limit, json } => {
                assert_eq!(query, "query text");
                assert_eq!(limit, 5);
                assert!(json);
            }
            _ => panic!("expected index search subcommand"),
        },
        _ => panic!("expected index subcommand"),
    }
}

#[test]
fn global_defaults_apply_without_options() {
    let cli = Cli::try_parse_from(&["nca"]).expect("empty command line parses");
    assert_eq!(cli.thinking_budget, 5120);
    assert_eq!(cli.max_tokens, 8192);
    assert_eq!(cli.stream, StreamMode::Human);
    assert!(cli.prompt.is_none());
    assert!(!cli.safe);
    assert!(cli.command.is_none());
}

#[test]
fn short_options_group_flags_and_take_attached_values() {
    let cli = Cli::try_parse_from(&["nca", "-sv", "-mgpt", "-p", "hi", "-S=ndjson"]).unwrap();
    assert!(cli.safe);
    assert!(cli.verbose);
    assert_eq!(cli.model.as_deref(), Some("gpt"));
    assert_eq!(cli.prompt.as_deref(), Some("hi"));
    assert_eq!(cli.stream, StreamMode::Ndjson);
}

#[test]
fn long_option_value_after_equals() {
    let cli = Cli::try_parse_from(&["nca", "--max-tokens=100", "--thinking-budget", "+7"]).unwrap();
    assert_eq!(cli.max_tokens, 100);
    assert_eq!(cli.thinking_budget, 7);
}

#[test]
fn parse_errors_name_their_argument() {
    let e = Cli::try_parse_from(&["nca", "--bogus"]).err().unwrap();
    assert_eq!(e.kind, CliErrorKind::UnknownArgument);
    assert_eq!(e.arg, "--bogus");
    let e = Cli::try_parse_from(&["nca", "--json", "--json"]).err().unwrap();
    assert_eq!(e.kind, CliErrorKind::ArgumentConflict);
    let e = Cli::try_parse_from(&["nca", "--model"]).err().unwrap();
    assert_eq!(e.kind, CliErrorKind::MissingValue);
    let e = Cli::try_parse_from(&["nca", "--json=yes"]).err().unwrap();
    assert_eq!(e.kind, CliErrorKind::UnexpectedValue);
    let e = Cli::try_parse_from(&["nca", "--stream", "loud"]).err().unwrap();
    assert_eq!(e.kind, CliErrorKind::InvalidValue);
    assert_eq!(e.arg, "loud");
    let e = Cli::try_parse_from(&["nca", "--max-tokens", "4294967296"]).err().unwrap();
    assert_eq!(e.kind, CliErrorKind::InvalidValue);
    let e = Cli::try_parse_from(&["nca", "run"]).err().unwrap();
    assert_eq!(e.kind, CliErrorKind::MissingRequiredArgument);
    assert_eq!(e.arg, "--prompt");
    let e = Cli::try_parse_from(&["nca", "launch"]).err().unwrap();
    assert_eq!(e.kind, CliErrorKind::InvalidSubcommand);
    let e = Cli::try_parse_from(&["nca", "memory"]).err().unwrap();
    assert_eq!(e.kind, CliErrorKind::MissingSubcommand);
    let e = Cli::try_parse_from(&["nca", "attach", "a", "b"]).err().unwrap();
    assert_eq!(e.kind, CliErrorKind::UnexpectedPositional);
    let e = Cli::try_parse_from(&["nca", "-h"]).err().unwrap();
    assert_eq!(e.kind, CliErrorKind::DisplayHelp);
    let e = Cli::try_parse_from(&["nca", "help"]).err().unwrap();
    assert_eq!(e.kind, CliErrorKind::DisplayHelp);
}

#[test]
fn subcommand_defaults_and_nested_commands() {
    let cli = Cli::try_parse_from(&["nca", "serve"]).unwrap();
    match cli.command {
        Some(Command::Serve { stream, permission_mode, .. }) => {
            assert_eq!(stream, StreamMode::Ndjson);
            assert_eq!(permission_mode, CliPermissionMode::AcceptEdits);
        }
        _ => panic!("expected serve"),
    }
    let cli = Cli::try_parse_from(&["nca", "memory", "--json", "add", "remember", "--kind", "fact"]).unwrap();
    match cli.command {
        Some(Command::Memory { command: MemoryCommand::Add { text, kind }, json }) => {
            assert!(json);
            assert_eq!(text, "remember");
            assert_eq!(kind, "fact");
        }
        _ => panic!("expected memory add"),
    }
    let cli = Cli::try_parse_from(&["nca", "skills", "add", "owner/repo", "-s", "a", "-s", "b", "-g"]).unwrap();
    match cli.command {
        Some(Command::Skills { command: Some(SkillsCommand::Add { source, skill, global }), .. }) => {
            assert_eq!(source, "owner/repo");
            assert_eq!(skill, vec!["a".to_string(), "b".to_string()]);
            assert!(global);
        }
        _ => panic!("expected skills add"),
    }
    let cli = Cli::try_parse_from(&["nca", "sessions"]).unwrap();
    match cli.command {
        Some(Command::Sessions { limit, .. }) => assert_eq!(limit, 20),
        _ => panic!("expected sessions"),
    }
    let cli = Cli::try_parse_from(&["nca", "export", "abc", "--", "--not-an-option"]).err().unwrap();
    assert_eq!(cli.kind, CliErrorKind::UnexpectedPositional);
}

#[test]
fn permission_mode_spelling_round_trips() {
    for m in [
        CliPermissionMode::Default,
        CliPermissionMode::Plan,
        CliPermissionMode::AcceptEdits,
        CliPermissionMode::DontAsk,
        CliPermissionMode::BypassPermissions,
    ] {
        let cli = Cli::try_parse_from(&["nca", "--permission-mode", m.as_arg()]).unwrap();
        assert_eq!(cli.permission_mode, Some(m));
    }
}
