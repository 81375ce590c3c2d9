//! The `nca` command line: the parsed arguments and the parser that builds them.
//!
//! `Cli::try_parse_from` reads the words after the program name level by level with the
//! tables of [`crate::cli_levels`]; each level's options become the fields of its variant,
//! with defaults for absent options and errors for absent required arguments and values
//! outside an option's allowed set.

use crate::cli_levels::{
    autoresearch_def, autoresearch_level, autoresearch_once_def, autoresearch_once_level,
    completion_def, completion_generate_def, completion_generate_level, completion_install_def,
    completion_install_level, completion_level, cost_def, cost_level, doctor_def, doctor_level,
    export_def, export_level, index_def, index_level, index_rebuild_def, index_rebuild_level,
    index_search_def, index_search_level, init_def, init_level, json_only_def, json_only_level,
    logs_def, logs_level, memory_add_def, memory_add_level, memory_def, memory_level,
    memory_list_def, memory_list_level, models_def, models_level, resume_def, resume_level,
    run_def, run_level, serve_def, serve_level, session_json_def, session_json_level,
    sessions_def, sessions_level, skills_add_def, skills_add_level, skills_def, skills_level,
    skills_remove_def, skills_remove_level, skills_update_def, skills_update_level, spawn_def,
    spawn_level, top_def, top_level, upgrade_def, upgrade_level,
};
use crate::cli_scan::{
    cli_error, is_long_tok, is_short_tok, long_step, next_index, scan, scan_level, short_step,
    tok_views, CliError, CliErrorKind, LevelDef, LevelView, ScanEnd, ScanOut, ScanResult,
    ScanView,
};
use crate::cli_values::{
    chars_view, export_format_arg, export_format_error, export_format_or, get_all, get_flag,
    get_opt, get_positional, get_positional_required, get_required, given, inline_images_arg,
    inline_images_error, inline_images_or, number_error, number_opt, opt_chars, permission_arg,
    permission_error, permission_opt, permission_or, positional_chars, positional_of,
    required_error, same_text, shell_arg, shell_error, shell_opt, shell_or, status_filter_arg,
    status_filter_error, status_filter_opt, stdin_merge_arg, stdin_merge_error, stdin_merge_opt,
    stream_arg, stream_error, stream_opt, stream_or, u32_arg, usize_arg, value_of,
    ClapShell, CliPermissionMode, ErrV, ExportFormat, InlineImages, SessionStatusFilter,
    StdinMerge, StreamMode,
};
use crate::text::chars_of;
use crate::wrap::views;
use vstd::prelude::*;

verus! {

/// The parsed command line.
pub struct Cli {
    pub command: Option<Command>,
    /// One-shot prompt mode.
    pub prompt: Option<String>,
    /// Start in read-only safe mode.
    pub safe: bool,
    /// Resume the last session.
    pub resume: bool,
    /// Start a new session instead of resuming the last one.
    pub no_resume: bool,
    /// Start interactive run mode.
    pub run: bool,
    /// Override the default model.
    pub model: Option<String>,
    /// Enable extended thinking.
    pub enable_thinking: bool,
    /// Token budget for extended thinking.
    pub thinking_budget: u32,
    /// Max response tokens.
    pub max_tokens: u32,
    /// Verbose debug logging.
    pub verbose: bool,
    /// Output structured JSON.
    pub json: bool,
    /// Streaming output format.
    pub stream: StreamMode,
    /// Line-oriented REPL instead of the full-screen TUI.
    pub no_tui: bool,
    /// Permission handling mode.
    pub permission_mode: Option<CliPermissionMode>,
    /// Max turns per run.
    pub max_turns: Option<u32>,
    /// Internal session identifier for spawned runs.
    pub session_id: Option<String>,
    /// How stdin is combined with `--prompt` in one-shot mode.
    pub stdin_as: Option<StdinMerge>,
}

/// A subcommand and its arguments.
pub enum Command {
    Run {
        prompt: String,
        stream: StreamMode,
        model: Option<String>,
        json: bool,
        safe: bool,
        permission_mode: Option<CliPermissionMode>,
        session_id: Option<String>,
    },
    Serve {
        prompt: Option<String>,
        stream: StreamMode,
        model: Option<String>,
        safe: bool,
        permission_mode: CliPermissionMode,
        session_id: Option<String>,
    },
    Spawn {
        prompt: String,
        model: Option<String>,
        safe: bool,
        json: bool,
        permission_mode: Option<CliPermissionMode>,
    },
    Sessions {
        json: bool,
        status: Option<SessionStatusFilter>,
        since_hours: Option<u32>,
        search: Option<String>,
        limit: usize,
    },
    Resume {
        session_id: String,
        prompt: Option<String>,
        model: Option<String>,
        safe: bool,
        stream: StreamMode,
        no_tui: bool,
        permission_mode: Option<CliPermissionMode>,
    },
    Logs { session_id: String, follow: bool, json: bool },
    Attach { session_id: String, json: bool },
    Status { session_id: String, json: bool },
    Cancel { session_id: String, json: bool },
    /// Manage skills: list, add, remove, update.
    Skills { json: bool, command: Option<SkillsCommand> },
    Mcp { json: bool },
    Memory { command: MemoryCommand, json: bool },
    Models { json: bool, verbose: bool },
    Doctor { json: bool, fix: bool },
    Config { json: bool },
    /// Scaffold `.nca/` in the current workspace.
    Init { force: bool },
    /// Upgrade the nca binary.
    Upgrade { install_dir: Option<String>, no_test: bool },
    /// Shell completion generation and installation.
    Completion { command: CompletionCmd },
    /// Autonomous research helpers.
    Autoresearch { command: AutoresearchCmd },
    /// Build or show the CLI index, or search the code index.
    Index { command: IndexCmd },
    /// Token usage and estimated cost across recent sessions.
    Cost { since_hours: Option<u32>, limit: usize, json: bool },
    /// Export a session transcript.
    Export {
        session_id: String,
        format: ExportFormat,
        output: Option<String>,
        include_system: bool,
        include_tool_results: bool,
        inline_images: InlineImages,
    },
}

/// Subcommands of `skills`.
pub enum SkillsCommand {
    List { json: bool },
    Add { source: String, skill: Vec<String>, global: bool },
    Remove { name: String, global: bool },
    Update { name: Option<String> },
}

/// Subcommands of `memory`.
pub enum MemoryCommand {
    List,
    Add { text: String, kind: String },
}

/// Subcommands of `completion`.
pub enum CompletionCmd {
    Generate { shell: ClapShell },
    Install { shell: Option<ClapShell>, path: Option<String> },
}

/// Subcommands of `autoresearch`.
pub enum AutoresearchCmd {
    Once { program: String, workspace: Option<String> },
}

/// Subcommands of `index`.
pub enum IndexCmd {
    Build { json: bool },
    Show { json: bool },
    Rebuild { patterns: Vec<String>, json: bool },
    Search { query: String, limit: usize, json: bool },
}

/// Options of an export, resolved from the `export` arguments.
pub struct ExportArgs {
    pub format: ExportFormat,
    pub output: Option<String>,
    pub include_system: bool,
    pub include_tool_results: bool,
    pub inline_images: bool,
}

// ── Statement of the parser ───────────────────────────────────────────

/// `r` is the error `e`.
pub open spec fn fails_with<T>(r: Result<T, CliError>, e: ErrV) -> bool {
    r is Err && r->Err_0.view() == e
}

/// The first of two possible errors.
pub open spec fn or_else(a: Option<ErrV>, b: Option<ErrV>) -> Option<ErrV> {
    if a is Some {
        a
    } else {
        b
    }
}

/// An optional number equals an optional parsed value.
pub open spec fn same_number(o: Option<u32>, n: Option<int>) -> bool {
    match (o, n) {
        (Some(a), Some(b)) => a as int == b,
        (None, None) => true,
        _ => false,
    }
}

/// The number a value spells, or `d` when absent.
pub open spec fn number_or(v: Option<Seq<char>>, max: int, d: int) -> int {
    match number_opt(v, max) {
        Some(n) => n,
        None => d,
    }
}

/// A level without subcommands: scanning fails, a check fails, or `r` is the value built
/// from what was read.
pub open spec fn leaf_rel<T>(
    lv: LevelView,
    toks: Seq<Seq<char>>,
    start: int,
    checks: spec_fn(ScanView) -> Option<ErrV>,
    fields: spec_fn(ScanView, T) -> bool,
    r: Result<T, CliError>,
) -> bool {
    match scan(lv, toks, start as nat, init_scan_of(lv)) {
        Err(e) => fails_with(r, e),
        Ok(ScanEnd::Done(sc)) => match checks(sc) {
            Some(e) => fails_with(r, e),
            None => r is Ok && fields(sc, r->Ok_0),
        },
        Ok(ScanEnd::Sub(_, _, _)) => false,
    }
}

/// Nothing read yet at level `lv`.
pub open spec fn init_scan_of(lv: LevelView) -> ScanView {
    crate::cli_scan::init_scan(lv)
}

/// A level with subcommands named `name`: scanning fails, a check fails, the absent
/// subcommand is refused (when `required`), or `r` holds the level's own fields and the
/// subcommand's value as `sub_rel` states it for the chosen subcommand.
pub open spec fn parent_rel<T, S>(
    lv: LevelView,
    toks: Seq<Seq<char>>,
    start: int,
    name: Seq<char>,
    required: bool,
    checks: spec_fn(ScanView) -> Option<ErrV>,
    fields: spec_fn(ScanView, T) -> bool,
    sub_of: spec_fn(T) -> Option<S>,
    sub_rel: spec_fn(int, int, Result<S, CliError>) -> bool,
    r: Result<T, CliError>,
) -> bool {
    match scan(lv, toks, start as nat, init_scan_of(lv)) {
        Err(e) => fails_with(r, e),
        Ok(ScanEnd::Done(sc)) => match checks(sc) {
            Some(e) => fails_with(r, e),
            None => if required {
                fails_with(r, (CliErrorKind::MissingSubcommand, name))
            } else {
                r is Ok && fields(sc, r->Ok_0) && sub_of(r->Ok_0) is None
            },
        },
        Ok(ScanEnd::Sub(sc, k, n)) => match checks(sc) {
            Some(e) => fails_with(r, e),
            None => match r {
                Ok(t) => fields(sc, t) && sub_of(t) is Some && sub_rel(k, n, Ok(sub_of(t)->0)),
                Err(e) => sub_rel(k, n, Err(e)),
            },
        },
    }
}

/// No check fails.
pub open spec fn no_checks(sc: ScanView) -> Option<ErrV> {
    None
}

// ── run, serve, spawn ──

/// Checks of `run`: `--prompt` is required; stream and permission names must be known.
pub open spec fn run_checks(sc: ScanView) -> Option<ErrV> {
    or_else(
        required_error(value_of(sc, 0), "--prompt"@),
        or_else(stream_error(value_of(sc, 1)), permission_error(value_of(sc, 5))),
    )
}

/// `c` is the `run` command read into `sc`.
pub open spec fn run_fields(sc: ScanView, c: Command) -> bool {
    &&& c matches Command::Run { prompt, stream, model, json, safe, permission_mode, session_id }
    &&& value_of(sc, 0) == Some(prompt@)
    &&& stream == stream_or(value_of(sc, 1), StreamMode::Human)
    &&& same_text(model, value_of(sc, 2))
    &&& json == given(sc, 3)
    &&& safe == given(sc, 4)
    &&& permission_mode == permission_opt(value_of(sc, 5))
    &&& same_text(session_id, value_of(sc, 6))
}

/// Checks of `serve`: stream and permission names must be known.
pub open spec fn serve_checks(sc: ScanView) -> Option<ErrV> {
    or_else(stream_error(value_of(sc, 1)), permission_error(value_of(sc, 4)))
}

/// `c` is the `serve` command read into `sc` (ndjson and accept-edits by default).
pub open spec fn serve_fields(sc: ScanView, c: Command) -> bool {
    &&& c matches Command::Serve { prompt, stream, model, safe, permission_mode, session_id }
    &&& same_text(prompt, value_of(sc, 0))
    &&& stream == stream_or(value_of(sc, 1), StreamMode::Ndjson)
    &&& same_text(model, value_of(sc, 2))
    &&& safe == given(sc, 3)
    &&& permission_mode == permission_or(value_of(sc, 4), CliPermissionMode::AcceptEdits)
    &&& same_text(session_id, value_of(sc, 5))
}

/// Checks of `spawn`.
pub open spec fn spawn_checks(sc: ScanView) -> Option<ErrV> {
    or_else(required_error(value_of(sc, 0), "--prompt"@), permission_error(value_of(sc, 4)))
}

/// `c` is the `spawn` command read into `sc`.
pub open spec fn spawn_fields(sc: ScanView, c: Command) -> bool {
    &&& c matches Command::Spawn { prompt, model, safe, json, permission_mode }
    &&& value_of(sc, 0) == Some(prompt@)
    &&& same_text(model, value_of(sc, 1))
    &&& safe == given(sc, 2)
    &&& json == given(sc, 3)
    &&& permission_mode == permission_opt(value_of(sc, 4))
}

// ── sessions, resume, logs, attach, status, cancel ──

/// Checks of `sessions`.
pub open spec fn sessions_checks(sc: ScanView) -> Option<ErrV> {
    or_else(
        status_filter_error(value_of(sc, 1)),
        or_else(
            number_error(value_of(sc, 2), u32::MAX as int),
            number_error(value_of(sc, 4), usize::MAX as int),
        ),
    )
}

/// `c` is the `sessions` command read into `sc` (20 sessions by default).
pub open spec fn sessions_fields(sc: ScanView, c: Command) -> bool {
    &&& c matches Command::Sessions { json, status, since_hours, search, limit }
    &&& json == given(sc, 0)
    &&& status == status_filter_opt(value_of(sc, 1))
    &&& same_number(since_hours, number_opt(value_of(sc, 2), u32::MAX as int))
    &&& same_text(search, value_of(sc, 3))
    &&& limit as int == number_or(value_of(sc, 4), usize::MAX as int, 20)
}

/// Checks of `resume`.
pub open spec fn resume_checks(sc: ScanView) -> Option<ErrV> {
    or_else(
        required_error(positional_of(sc, 0), "<SESSION_ID>"@),
        or_else(stream_error(value_of(sc, 3)), permission_error(value_of(sc, 5))),
    )
}

/// `c` is the `resume` command read into `sc`.
pub open spec fn resume_fields(sc: ScanView, c: Command) -> bool {
    &&& c matches Command::Resume {
        session_id,
        prompt,
        model,
        safe,
        stream,
        no_tui,
        permission_mode,
    }
    &&& positional_of(sc, 0) == Some(session_id@)
    &&& same_text(prompt, value_of(sc, 0))
    &&& same_text(model, value_of(sc, 1))
    &&& safe == given(sc, 2)
    &&& stream == stream_or(value_of(sc, 3), StreamMode::Human)
    &&& no_tui == given(sc, 4)
    &&& permission_mode == permission_opt(value_of(sc, 5))
}

/// A session id is required.
pub open spec fn session_checks(sc: ScanView) -> Option<ErrV> {
    required_error(positional_of(sc, 0), "<SESSION_ID>"@)
}

/// `c` is the `logs` command read into `sc`.
pub open spec fn logs_fields(sc: ScanView, c: Command) -> bool {
    &&& c matches Command::Logs { session_id, follow, json }
    &&& positional_of(sc, 0) == Some(session_id@)
    &&& follow == given(sc, 0)
    &&& json == given(sc, 1)
}

/// `c` is the `attach` command read into `sc`.
pub open spec fn attach_fields(sc: ScanView, c: Command) -> bool {
    &&& c matches Command::Attach { session_id, json }
    &&& positional_of(sc, 0) == Some(session_id@)
    &&& json == given(sc, 0)
}

/// `c` is the `status` command read into `sc`.
pub open spec fn status_fields(sc: ScanView, c: Command) -> bool {
    &&& c matches Command::Status { session_id, json }
    &&& positional_of(sc, 0) == Some(session_id@)
    &&& json == given(sc, 0)
}

/// `c` is the `cancel` command read into `sc`.
pub open spec fn cancel_fields(sc: ScanView, c: Command) -> bool {
    &&& c matches Command::Cancel { session_id, json }
    &&& positional_of(sc, 0) == Some(session_id@)
    &&& json == given(sc, 0)
}

// ── skills ──

/// `c` is `skills list` read into `sc`.
pub open spec fn skills_list_fields(sc: ScanView, c: SkillsCommand) -> bool {
    c matches SkillsCommand::List { json } && json == given(sc, 0)
}

/// Checks of `skills add`.
pub open spec fn skills_add_checks(sc: ScanView) -> Option<ErrV> {
    required_error(positional_of(sc, 0), "<SOURCE>"@)
}

/// `c` is `skills add` read into `sc`.
pub open spec fn skills_add_fields(sc: ScanView, c: SkillsCommand) -> bool {
    &&& c matches SkillsCommand::Add { source, skill, global }
    &&& positional_of(sc, 0) == Some(source@)
    &&& views(skill@) == sc.values[0]
    &&& global == given(sc, 1)
}

/// Checks of `skills remove`.
pub open spec fn skills_remove_checks(sc: ScanView) -> Option<ErrV> {
    required_error(positional_of(sc, 0), "<NAME>"@)
}

/// `c` is `skills remove` read into `sc`.
pub open spec fn skills_remove_fields(sc: ScanView, c: SkillsCommand) -> bool {
    &&& c matches SkillsCommand::Remove { name, global }
    &&& positional_of(sc, 0) == Some(name@)
    &&& global == given(sc, 0)
}

/// `c` is `skills update` read into `sc`.
pub open spec fn skills_update_fields(sc: ScanView, c: SkillsCommand) -> bool {
    c matches SkillsCommand::Update { name } && same_text(name, positional_of(sc, 0))
}

/// The `k`-th subcommand of `skills` (`list`, `add`, `remove`, `update`) read from `n`.
pub open spec fn skills_sub_rel(toks: Seq<Seq<char>>, k: int, n: int, r: Result<SkillsCommand, CliError>) -> bool {
    if k == 0 {
        leaf_rel(json_only_level(), toks, n, |sc: ScanView| no_checks(sc), |sc: ScanView, c: SkillsCommand| skills_list_fields(sc, c), r)
    } else if k == 1 {
        leaf_rel(skills_add_level(), toks, n, |sc: ScanView| skills_add_checks(sc), |sc: ScanView, c: SkillsCommand| skills_add_fields(sc, c), r)
    } else if k == 2 {
        leaf_rel(skills_remove_level(), toks, n, |sc: ScanView| skills_remove_checks(sc), |sc: ScanView, c: SkillsCommand| skills_remove_fields(sc, c), r)
    } else {
        leaf_rel(skills_update_level(), toks, n, |sc: ScanView| no_checks(sc), |sc: ScanView, c: SkillsCommand| skills_update_fields(sc, c), r)
    }
}

/// The `--json` of `skills`, and the shape of the command.
pub open spec fn skills_fields(sc: ScanView, c: Command) -> bool {
    c matches Command::Skills { json, command } && json == given(sc, 0)
}

/// The subcommand of `skills`, if any.
pub open spec fn skills_sub_of(c: Command) -> Option<SkillsCommand> {
    match c {
        Command::Skills { command, .. } => command,
        _ => None,
    }
}

/// `skills` read from `start`; its subcommand is optional.
pub open spec fn skills_rel(toks: Seq<Seq<char>>, start: int, r: Result<Command, CliError>) -> bool {
    parent_rel(
        skills_level(),
        toks,
        start,
        "skills"@,
        false,
        |sc: ScanView| no_checks(sc),
        |sc: ScanView, c: Command| skills_fields(sc, c),
        |c: Command| skills_sub_of(c),
        |k: int, n: int, rr: Result<SkillsCommand, CliError>| skills_sub_rel(toks, k, n, rr),
        r,
    )
}

// ── memory ──

/// Checks of `memory add`.
pub open spec fn memory_add_checks(sc: ScanView) -> Option<ErrV> {
    required_error(positional_of(sc, 0), "<TEXT>"@)
}

/// `c` is `memory add` read into `sc` (kind `note` by default).
pub open spec fn memory_add_fields(sc: ScanView, c: MemoryCommand) -> bool {
    &&& c matches MemoryCommand::Add { text, kind }
    &&& positional_of(sc, 0) == Some(text@)
    &&& kind@ == match value_of(sc, 0) {
        Some(v) => v,
        None => "note"@,
    }
}

/// The `k`-th subcommand of `memory` (`list`, `add`) read from `n`.
pub open spec fn memory_sub_rel(toks: Seq<Seq<char>>, k: int, n: int, r: Result<MemoryCommand, CliError>) -> bool {
    if k == 0 {
        leaf_rel(memory_list_level(), toks, n, |sc: ScanView| no_checks(sc), |sc: ScanView, c: MemoryCommand| c is List, r)
    } else {
        leaf_rel(memory_add_level(), toks, n, |sc: ScanView| memory_add_checks(sc), |sc: ScanView, c: MemoryCommand| memory_add_fields(sc, c), r)
    }
}

/// The `--json` of `memory`, and the shape of the command.
pub open spec fn memory_fields(sc: ScanView, c: Command) -> bool {
    c matches Command::Memory { json, .. } && json == given(sc, 0)
}

/// The subcommand of `memory`.
pub open spec fn memory_sub_of(c: Command) -> Option<MemoryCommand> {
    match c {
        Command::Memory { command, .. } => Some(command),
        _ => None,
    }
}

/// `memory` read from `start`; its subcommand is required.
pub open spec fn memory_rel(toks: Seq<Seq<char>>, start: int, r: Result<Command, CliError>) -> bool {
    parent_rel(
        memory_level(),
        toks,
        start,
        "memory"@,
        true,
        |sc: ScanView| no_checks(sc),
        |sc: ScanView, c: Command| memory_fields(sc, c),
        |c: Command| memory_sub_of(c),
        |k: int, n: int, rr: Result<MemoryCommand, CliError>| memory_sub_rel(toks, k, n, rr),
        r,
    )
}

// ── models, doctor, config, init, upgrade, mcp ──

/// `c` is `mcp` read into `sc`.
pub open spec fn mcp_fields(sc: ScanView, c: Command) -> bool {
    c matches Command::Mcp { json } && json == given(sc, 0)
}

/// `c` is `models` read into `sc`.
pub open spec fn models_fields(sc: ScanView, c: Command) -> bool {
    c matches Command::Models { json, verbose } && json == given(sc, 0) && verbose == given(sc, 1)
}

/// `c` is `doctor` read into `sc`.
pub open spec fn doctor_fields(sc: ScanView, c: Command) -> bool {
    c matches Command::Doctor { json, fix } && json == given(sc, 0) && fix == given(sc, 1)
}

/// `c` is `config` read into `sc`.
pub open spec fn config_fields(sc: ScanView, c: Command) -> bool {
    c matches Command::Config { json } && json == given(sc, 0)
}

/// `c` is `init` read into `sc`.
pub open spec fn init_fields(sc: ScanView, c: Command) -> bool {
    c matches Command::Init { force } && force == given(sc, 0)
}

/// `c` is `upgrade` read into `sc`.
pub open spec fn upgrade_fields(sc: ScanView, c: Command) -> bool {
    c matches Command::Upgrade { install_dir, no_test } && same_text(install_dir, value_of(sc, 0))
        && no_test == given(sc, 1)
}

// ── completion, autoresearch ──

/// `c` is `completion generate` read into `sc` (bash by default).
pub open spec fn generate_fields(sc: ScanView, c: CompletionCmd) -> bool {
    c matches CompletionCmd::Generate { shell } && shell == shell_or(
        positional_of(sc, 0),
        ClapShell::Bash,
    )
}

/// `c` is `completion install` read into `sc`.
pub open spec fn install_fields(sc: ScanView, c: CompletionCmd) -> bool {
    c matches CompletionCmd::Install { shell, path } && shell == shell_opt(positional_of(sc, 0))
        && same_text(path, value_of(sc, 0))
}

/// The shell named by the positional argument must be known.
pub open spec fn shell_checks(sc: ScanView) -> Option<ErrV> {
    shell_error(positional_of(sc, 0))
}

/// The `k`-th subcommand of `completion` (`generate`, `install`) read from `n`.
pub open spec fn completion_sub_rel(toks: Seq<Seq<char>>, k: int, n: int, r: Result<CompletionCmd, CliError>) -> bool {
    if k == 0 {
        leaf_rel(completion_generate_level(), toks, n, |sc: ScanView| shell_checks(sc), |sc: ScanView, c: CompletionCmd| generate_fields(sc, c), r)
    } else {
        leaf_rel(completion_install_level(), toks, n, |sc: ScanView| shell_checks(sc), |sc: ScanView, c: CompletionCmd| install_fields(sc, c), r)
    }
}

/// The subcommand of `completion`.
pub open spec fn completion_sub_of(c: Command) -> Option<CompletionCmd> {
    match c {
        Command::Completion { command } => Some(command),
        _ => None,
    }
}

/// `completion` read from `start`; its subcommand is required.
pub open spec fn completion_rel(toks: Seq<Seq<char>>, start: int, r: Result<Command, CliError>) -> bool {
    parent_rel(
        completion_level(),
        toks,
        start,
        "completion"@,
        true,
        |sc: ScanView| no_checks(sc),
        |sc: ScanView, c: Command| c is Completion,
        |c: Command| completion_sub_of(c),
        |k: int, n: int, rr: Result<CompletionCmd, CliError>| completion_sub_rel(toks, k, n, rr),
        r,
    )
}

/// Checks of `autoresearch once`.
pub open spec fn once_checks(sc: ScanView) -> Option<ErrV> {
    required_error(positional_of(sc, 0), "<PROGRAM>"@)
}

/// `c` is `autoresearch once` read into `sc`.
pub open spec fn once_fields(sc: ScanView, c: AutoresearchCmd) -> bool {
    c matches AutoresearchCmd::Once { program, workspace } && positional_of(sc, 0) == Some(
        program@,
    ) && same_text(workspace, value_of(sc, 0))
}

/// The subcommand of `autoresearch`.
pub open spec fn autoresearch_sub_of(c: Command) -> Option<AutoresearchCmd> {
    match c {
        Command::Autoresearch { command } => Some(command),
        _ => None,
    }
}

/// `autoresearch` read from `start`; its subcommand is required.
pub open spec fn autoresearch_rel(toks: Seq<Seq<char>>, start: int, r: Result<Command, CliError>) -> bool {
    parent_rel(
        autoresearch_level(),
        toks,
        start,
        "autoresearch"@,
        true,
        |sc: ScanView| no_checks(sc),
        |sc: ScanView, c: Command| c is Autoresearch,
        |c: Command| autoresearch_sub_of(c),
        |k: int, n: int, rr: Result<AutoresearchCmd, CliError>| leaf_rel(
            autoresearch_once_level(),
            toks,
            n,
            |sc: ScanView| once_checks(sc),
            |sc: ScanView, c: AutoresearchCmd| once_fields(sc, c),
            rr,
        ),
        r,
    )
}

// ── index, cost, export ──

/// `c` is `index build` read into `sc`.
pub open spec fn index_build_fields(sc: ScanView, c: IndexCmd) -> bool {
    c matches IndexCmd::Build { json } && json == given(sc, 0)
}

/// `c` is `index show` read into `sc`.
pub open spec fn index_show_fields(sc: ScanView, c: IndexCmd) -> bool {
    c matches IndexCmd::Show { json } && json == given(sc, 0)
}

/// `c` is `index rebuild` read into `sc`.
pub open spec fn index_rebuild_fields(sc: ScanView, c: IndexCmd) -> bool {
    c matches IndexCmd::Rebuild { patterns, json } && views(patterns@) == sc.values[0] && json
        == given(sc, 1)
}

/// Checks of `index search`.
pub open spec fn index_search_checks(sc: ScanView) -> Option<ErrV> {
    or_else(
        required_error(positional_of(sc, 0), "<QUERY>"@),
        number_error(value_of(sc, 0), usize::MAX as int),
    )
}

/// `c` is `index search` read into `sc` (10 results by default).
pub open spec fn index_search_fields(sc: ScanView, c: IndexCmd) -> bool {
    &&& c matches IndexCmd::Search { query, limit, json }
    &&& positional_of(sc, 0) == Some(query@)
    &&& limit as int == number_or(value_of(sc, 0), usize::MAX as int, 10)
    &&& json == given(sc, 1)
}

/// The `k`-th subcommand of `index` (`build`, `show`, `rebuild`, `search`) read from `n`.
pub open spec fn index_sub_rel(toks: Seq<Seq<char>>, k: int, n: int, r: Result<IndexCmd, CliError>) -> bool {
    if k == 0 {
        leaf_rel(json_only_level(), toks, n, |sc: ScanView| no_checks(sc), |sc: ScanView, c: IndexCmd| index_build_fields(sc, c), r)
    } else if k == 1 {
        leaf_rel(json_only_level(), toks, n, |sc: ScanView| no_checks(sc), |sc: ScanView, c: IndexCmd| index_show_fields(sc, c), r)
    } else if k == 2 {
        leaf_rel(index_rebuild_level(), toks, n, |sc: ScanView| no_checks(sc), |sc: ScanView, c: IndexCmd| index_rebuild_fields(sc, c), r)
    } else {
        leaf_rel(index_search_level(), toks, n, |sc: ScanView| index_search_checks(sc), |sc: ScanView, c: IndexCmd| index_search_fields(sc, c), r)
    }
}

/// The subcommand of `index`.
pub open spec fn index_sub_of(c: Command) -> Option<IndexCmd> {
    match c {
        Command::Index { command } => Some(command),
        _ => None,
    }
}

/// `index` read from `start`; its subcommand is required.
pub open spec fn index_rel(toks: Seq<Seq<char>>, start: int, r: Result<Command, CliError>) -> bool {
    parent_rel(
        index_level(),
        toks,
        start,
        "index"@,
        true,
        |sc: ScanView| no_checks(sc),
        |sc: ScanView, c: Command| c is Index,
        |c: Command| index_sub_of(c),
        |k: int, n: int, rr: Result<IndexCmd, CliError>| index_sub_rel(toks, k, n, rr),
        r,
    )
}

/// Checks of `cost`.
pub open spec fn cost_checks(sc: ScanView) -> Option<ErrV> {
    or_else(
        number_error(value_of(sc, 0), u32::MAX as int),
        number_error(value_of(sc, 1), usize::MAX as int),
    )
}

/// `c` is `cost` read into `sc` (20 sessions by default).
pub open spec fn cost_fields(sc: ScanView, c: Command) -> bool {
    &&& c matches Command::Cost { since_hours, limit, json }
    &&& same_number(since_hours, number_opt(value_of(sc, 0), u32::MAX as int))
    &&& limit as int == number_or(value_of(sc, 1), usize::MAX as int, 20)
    &&& json == given(sc, 2)
}

/// Checks of `export`.
pub open spec fn export_checks(sc: ScanView) -> Option<ErrV> {
    or_else(
        required_error(positional_of(sc, 0), "<SESSION_ID>"@),
        or_else(export_format_error(value_of(sc, 0)), inline_images_error(value_of(sc, 4))),
    )
}

/// `c` is `export` read into `sc` (Markdown and `auto` images by default).
pub open spec fn export_fields(sc: ScanView, c: Command) -> bool {
    &&& c matches Command::Export {
        session_id,
        format,
        output,
        include_system,
        include_tool_results,
        inline_images,
    }
    &&& positional_of(sc, 0) == Some(session_id@)
    &&& format == export_format_or(value_of(sc, 0), ExportFormat::Markdown)
    &&& same_text(output, value_of(sc, 1))
    &&& include_system == given(sc, 2)
    &&& include_tool_results == given(sc, 3)
    &&& inline_images == inline_images_or(value_of(sc, 4), InlineImages::Auto)
}

/// The `k`-th subcommand of the top level read from `n`, in the order of
/// [`top_level`]'s subcommand names.
pub open spec fn command_rel(toks: Seq<Seq<char>>, k: int, n: int, r: Result<Command, CliError>) -> bool {
    if k == 0 {
        leaf_rel(run_level(), toks, n, |sc: ScanView| run_checks(sc), |sc: ScanView, c: Command| run_fields(sc, c), r)
    } else if k == 1 {
        leaf_rel(serve_level(), toks, n, |sc: ScanView| serve_checks(sc), |sc: ScanView, c: Command| serve_fields(sc, c), r)
    } else if k == 2 {
        leaf_rel(spawn_level(), toks, n, |sc: ScanView| spawn_checks(sc), |sc: ScanView, c: Command| spawn_fields(sc, c), r)
    } else if k == 3 {
        leaf_rel(sessions_level(), toks, n, |sc: ScanView| sessions_checks(sc), |sc: ScanView, c: Command| sessions_fields(sc, c), r)
    } else if k == 4 {
        leaf_rel(resume_level(), toks, n, |sc: ScanView| resume_checks(sc), |sc: ScanView, c: Command| resume_fields(sc, c), r)
    } else if k == 5 {
        leaf_rel(logs_level(), toks, n, |sc: ScanView| session_checks(sc), |sc: ScanView, c: Command| logs_fields(sc, c), r)
    } else if k == 6 {
        leaf_rel(session_json_level(), toks, n, |sc: ScanView| session_checks(sc), |sc: ScanView, c: Command| attach_fields(sc, c), r)
    } else if k == 7 {
        leaf_rel(session_json_level(), toks, n, |sc: ScanView| session_checks(sc), |sc: ScanView, c: Command| status_fields(sc, c), r)
    } else if k == 8 {
        leaf_rel(session_json_level(), toks, n, |sc: ScanView| session_checks(sc), |sc: ScanView, c: Command| cancel_fields(sc, c), r)
    } else if k == 9 {
        skills_rel(toks, n, r)
    } else if k == 10 {
        leaf_rel(json_only_level(), toks, n, |sc: ScanView| no_checks(sc), |sc: ScanView, c: Command| mcp_fields(sc, c), r)
    } else if k == 11 {
        memory_rel(toks, n, r)
    } else if k == 12 {
        leaf_rel(models_level(), toks, n, |sc: ScanView| no_checks(sc), |sc: ScanView, c: Command| models_fields(sc, c), r)
    } else if k == 13 {
        leaf_rel(doctor_level(), toks, n, |sc: ScanView| no_checks(sc), |sc: ScanView, c: Command| doctor_fields(sc, c), r)
    } else if k == 14 {
        leaf_rel(json_only_level(), toks, n, |sc: ScanView| no_checks(sc), |sc: ScanView, c: Command| config_fields(sc, c), r)
    } else if k == 15 {
        leaf_rel(init_level(), toks, n, |sc: ScanView| no_checks(sc), |sc: ScanView, c: Command| init_fields(sc, c), r)
    } else if k == 16 {
        leaf_rel(upgrade_level(), toks, n, |sc: ScanView| no_checks(sc), |sc: ScanView, c: Command| upgrade_fields(sc, c), r)
    } else if k == 17 {
        completion_rel(toks, n, r)
    } else if k == 18 {
        autoresearch_rel(toks, n, r)
    } else if k == 19 {
        index_rel(toks, n, r)
    } else if k == 20 {
        leaf_rel(cost_level(), toks, n, |sc: ScanView| cost_checks(sc), |sc: ScanView, c: Command| cost_fields(sc, c), r)
    } else {
        leaf_rel(export_level(), toks, n, |sc: ScanView| export_checks(sc), |sc: ScanView, c: Command| export_fields(sc, c), r)
    }
}

/// Checks of the top level: numbers and names of the global options.
pub open spec fn top_checks(sc: ScanView) -> Option<ErrV> {
    or_else(
        number_error(value_of(sc, 7), u32::MAX as int),
        or_else(
            number_error(value_of(sc, 8), u32::MAX as int),
            or_else(
                stream_error(value_of(sc, 11)),
                or_else(
                    permission_error(value_of(sc, 13)),
                    or_else(
                        number_error(value_of(sc, 14), u32::MAX as int),
                        stdin_merge_error(value_of(sc, 16)),
                    ),
                ),
            ),
        ),
    )
}

/// The global options of `cli` are those read into `sc` (thinking budget 5120, max tokens
/// 8192 and human streaming by default).
pub open spec fn top_fields(sc: ScanView, cli: Cli) -> bool {
    &&& same_text(cli.prompt, value_of(sc, 0))
    &&& cli.safe == given(sc, 1)
    &&& cli.resume == given(sc, 2)
    &&& cli.no_resume == given(sc, 3)
    &&& cli.run == given(sc, 4)
    &&& same_text(cli.model, value_of(sc, 5))
    &&& cli.enable_thinking == given(sc, 6)
    &&& cli.thinking_budget as int == number_or(value_of(sc, 7), u32::MAX as int, 5120)
    &&& cli.max_tokens as int == number_or(value_of(sc, 8), u32::MAX as int, 8192)
    &&& cli.verbose == given(sc, 9)
    &&& cli.json == given(sc, 10)
    &&& cli.stream == stream_or(value_of(sc, 11), StreamMode::Human)
    &&& cli.no_tui == given(sc, 12)
    &&& cli.permission_mode == permission_opt(value_of(sc, 13))
    &&& same_number(cli.max_turns, number_opt(value_of(sc, 14), u32::MAX as int))
    &&& same_text(cli.session_id, value_of(sc, 15))
    &&& cli.stdin_as == stdin_merge_opt(value_of(sc, 16))
}

/// The subcommand of a parsed command line.
pub open spec fn cli_sub_of(cli: Cli) -> Option<Command> {
    cli.command
}

/// The command line `toks` (program name first) parses to `r`.
pub open spec fn cli_rel(toks: Seq<Seq<char>>, r: Result<Cli, CliError>) -> bool {
    parent_rel(
        top_level(),
        toks,
        1,
        "nca"@,
        false,
        |sc: ScanView| top_checks(sc),
        |sc: ScanView, c: Cli| top_fields(sc, c),
        |c: Cli| cli_sub_of(c),
        |k: int, n: int, rr: Result<Command, CliError>| command_rel(toks, k, n, rr),
        r,
    )
}


// ── The parser ────────────────────────────────────────────────────────

/// Scanning ended at a subcommand.
pub open spec fn ended_at_sub(r: Result<ScanEnd, ErrV>) -> bool {
    match r {
        Ok(ScanEnd::Sub(_, _, _)) => true,
        _ => false,
    }
}

/// A level without subcommand names never ends at a subcommand.
proof fn lemma_scan_no_sub(lv: LevelView, toks: Seq<Seq<char>>, i: nat, st: ScanView)
    requires
        lv.subs.len() == 0,
    ensures
        !ended_at_sub(scan(lv, toks, i, st)),
    decreases toks.len() - i,
{
    if i < toks.len() {
        let t = toks[i as int];
        if !st.raw && t == seq!['-', '-'] {
            lemma_scan_no_sub(lv, toks, i + 1, ScanView { raw: true, ..st });
        } else if !st.raw && is_long_tok(t) {
            match long_step(lv, toks, i, st) {
                Ok((s2, took)) => lemma_scan_no_sub(lv, toks, next_index(toks, i, took), s2),
                Err(_) => {},
            }
        } else if !st.raw && is_short_tok(t) {
            match short_step(lv, toks, i, 1, st) {
                Ok((s2, took)) => lemma_scan_no_sub(lv, toks, next_index(toks, i, took), s2),
                Err(_) => {},
            }
        } else if lv.subs.len() == 0 && st.positionals.len() < lv.positionals {
            lemma_scan_no_sub(
                lv,
                toks,
                i + 1,
                ScanView { positionals: st.positionals.push(t), ..st },
            );
        }
    }
}

/// Scan a level that has no subcommands.
fn scan_leaf(lv: &LevelDef, toks: &[&str], start: usize) -> (r: Result<ScanOut, CliError>)
    requires
        lv.view().subs.len() == 0,
    ensures
        match r {
            Ok(o) => scan(lv.view(), tok_views(toks@), start as nat, init_scan_of(lv.view()))
                == Ok::<ScanEnd, ErrV>(ScanEnd::Done(o.view())) && o.values@.len()
                == lv.args@.len(),
            Err(e) => scan(lv.view(), tok_views(toks@), start as nat, init_scan_of(lv.view()))
                == Err::<ScanEnd, ErrV>(e.view()),
        },
{
    proof {
        lemma_scan_no_sub(lv.view(), tok_views(toks@), start as nat, init_scan_of(lv.view()));
    }
    match scan_level(lv, toks, start) {
        Ok(ScanResult::Done(o)) => Ok(o),
        Ok(ScanResult::Sub(o, _, _)) => Ok(o),
        Err(e) => Err(e),
    }
}

/// The stream mode of option `k`, `d` when absent.
fn stream_or_default(sc: &ScanOut, k: usize, d: StreamMode) -> (r: Result<StreamMode, CliError>)
    requires
        k < sc.values@.len(),
    ensures
        match r {
            Ok(m) => stream_error(value_of(sc.view(), k as int)) is None && m == stream_or(
                value_of(sc.view(), k as int),
                d,
            ),
            Err(e) => stream_error(value_of(sc.view(), k as int)) == Some(e.view()),
        },
{
    match stream_arg(opt_chars(sc, k)) {
        Ok(Some(m)) => Ok(m),
        Ok(None) => Ok(d),
        Err(e) => Err(e),
    }
}

/// The number of option `k`, `d` when absent.
fn u32_or_default(sc: &ScanOut, k: usize, d: u32) -> (r: Result<u32, CliError>)
    requires
        k < sc.values@.len(),
    ensures
        match r {
            Ok(n) => number_error(value_of(sc.view(), k as int), u32::MAX as int) is None
                && n as int == number_or(value_of(sc.view(), k as int), u32::MAX as int, d as int),
            Err(e) => number_error(value_of(sc.view(), k as int), u32::MAX as int) == Some(
                e.view(),
            ),
        },
{
    match u32_arg(opt_chars(sc, k)) {
        Ok(Some(n)) => Ok(n),
        Ok(None) => Ok(d),
        Err(e) => Err(e),
    }
}

/// The number of option `k`, if given.
fn u32_option(sc: &ScanOut, k: usize) -> (r: Result<Option<u32>, CliError>)
    requires
        k < sc.values@.len(),
    ensures
        match r {
            Ok(n) => number_error(value_of(sc.view(), k as int), u32::MAX as int) is None
                && same_number(n, number_opt(value_of(sc.view(), k as int), u32::MAX as int)),
            Err(e) => number_error(value_of(sc.view(), k as int), u32::MAX as int) == Some(
                e.view(),
            ),
        },
{
    u32_arg(opt_chars(sc, k))
}

/// The count of option `k`, `d` when absent.
fn usize_or_default(sc: &ScanOut, k: usize, d: usize) -> (r: Result<usize, CliError>)
    requires
        k < sc.values@.len(),
    ensures
        match r {
            Ok(n) => number_error(value_of(sc.view(), k as int), usize::MAX as int) is None
                && n as int == number_or(
                value_of(sc.view(), k as int),
                usize::MAX as int,
                d as int,
            ),
            Err(e) => number_error(value_of(sc.view(), k as int), usize::MAX as int) == Some(
                e.view(),
            ),
        },
{
    match usize_arg(opt_chars(sc, k)) {
        Ok(Some(n)) => Ok(n),
        Ok(None) => Ok(d),
        Err(e) => Err(e),
    }
}

fn build_run(toks: &[&str], start: usize) -> (r: Result<Command, CliError>)
    ensures
        command_rel(tok_views(toks@), 0, start as int, r),
{
    let sc = match scan_leaf(&run_def(), toks, start) {
        Ok(sc) => sc,
        Err(e) => return Err(e),
    };
    let prompt = match get_required(&sc, 0, "--prompt") {
        Ok(p) => p,
        Err(e) => return Err(e),
    };
    let stream = match stream_or_default(&sc, 1, StreamMode::Human) {
        Ok(m) => m,
        Err(e) => return Err(e),
    };
    let permission_mode = match permission_arg(opt_chars(&sc, 5)) {
        Ok(m) => m,
        Err(e) => return Err(e),
    };
    Ok(
        Command::Run {
            prompt,
            stream,
            model: get_opt(&sc, 2),
            json: get_flag(&sc, 3),
            safe: get_flag(&sc, 4),
            permission_mode,
            session_id: get_opt(&sc, 6),
        },
    )
}

fn build_serve(toks: &[&str], start: usize) -> (r: Result<Command, CliError>)
    ensures
        command_rel(tok_views(toks@), 1, start as int, r),
{
    let sc = match scan_leaf(&serve_def(), toks, start) {
        Ok(sc) => sc,
        Err(e) => return Err(e),
    };
    let stream = match stream_or_default(&sc, 1, StreamMode::Ndjson) {
        Ok(v) => v,
        Err(e) => return Err(e),
    };
    let permission = match permission_arg(opt_chars(&sc, 4)) {
        Ok(v) => v,
        Err(e) => return Err(e),
    };
    Ok(
        Command::Serve {
            prompt: get_opt(&sc, 0),
            stream,
            model: get_opt(&sc, 2),
            safe: get_flag(&sc, 3),
            permission_mode: match permission {
                Some(m) => m,
                None => CliPermissionMode::AcceptEdits,
            },
            session_id: get_opt(&sc, 5),
        },
    )
}

fn build_spawn(toks: &[&str], start: usize) -> (r: Result<Command, CliError>)
    ensures
        command_rel(tok_views(toks@), 2, start as int, r),
{
    let sc = match scan_leaf(&spawn_def(), toks, start) {
        Ok(sc) => sc,
        Err(e) => return Err(e),
    };
    let prompt = match get_required(&sc, 0, "--prompt") {
        Ok(v) => v,
        Err(e) => return Err(e),
    };
    let permission_mode = match permission_arg(opt_chars(&sc, 4)) {
        Ok(v) => v,
        Err(e) => return Err(e),
    };
    Ok(
        Command::Spawn {
            prompt,
            model: get_opt(&sc, 1),
            safe: get_flag(&sc, 2),
            json: get_flag(&sc, 3),
            permission_mode,
        },
    )
}

fn build_sessions(toks: &[&str], start: usize) -> (r: Result<Command, CliError>)
    ensures
        command_rel(tok_views(toks@), 3, start as int, r),
{
    let sc = match scan_leaf(&sessions_def(), toks, start) {
        Ok(sc) => sc,
        Err(e) => return Err(e),
    };
    let status = match status_filter_arg(opt_chars(&sc, 1)) {
        Ok(v) => v,
        Err(e) => return Err(e),
    };
    let since_hours = match u32_option(&sc, 2) {
        Ok(v) => v,
        Err(e) => return Err(e),
    };
    let limit = match usize_or_default(&sc, 4, 20) {
        Ok(v) => v,
        Err(e) => return Err(e),
    };
    Ok(
        Command::Sessions {
            json: get_flag(&sc, 0),
            status,
            since_hours,
            search: get_opt(&sc, 3),
            limit,
        },
    )
}

fn build_resume(toks: &[&str], start: usize) -> (r: Result<Command, CliError>)
    ensures
        command_rel(tok_views(toks@), 4, start as int, r),
{
    let sc = match scan_leaf(&resume_def(), toks, start) {
        Ok(sc) => sc,
        Err(e) => return Err(e),
    };
    let session_id = match get_positional_required(&sc, 0, "<SESSION_ID>") {
        Ok(v) => v,
        Err(e) => return Err(e),
    };
    let stream = match stream_or_default(&sc, 3, StreamMode::Human) {
        Ok(v) => v,
        Err(e) => return Err(e),
    };
    let permission_mode = match permission_arg(opt_chars(&sc, 5)) {
        Ok(v) => v,
        Err(e) => return Err(e),
    };
    Ok(
        Command::Resume {
            session_id,
            prompt: get_opt(&sc, 0),
            model: get_opt(&sc, 1),
            safe: get_flag(&sc, 2),
            stream,
            no_tui: get_flag(&sc, 4),
            permission_mode,
        },
    )
}

fn build_logs(toks: &[&str], start: usize) -> (r: Result<Command, CliError>)
    ensures
        command_rel(tok_views(toks@), 5, start as int, r),
{
    let sc = match scan_leaf(&logs_def(), toks, start) {
        Ok(sc) => sc,
        Err(e) => return Err(e),
    };
    let session_id = match get_positional_required(&sc, 0, "<SESSION_ID>") {
        Ok(v) => v,
        Err(e) => return Err(e),
    };
    Ok(Command::Logs { session_id, follow: get_flag(&sc, 0), json: get_flag(&sc, 1) })
}

fn build_attach(toks: &[&str], start: usize) -> (r: Result<Command, CliError>)
    ensures
        command_rel(tok_views(toks@), 6, start as int, r),
{
    let sc = match scan_leaf(&session_json_def(), toks, start) {
        Ok(sc) => sc,
        Err(e) => return Err(e),
    };
    let session_id = match get_positional_required(&sc, 0, "<SESSION_ID>") {
        Ok(v) => v,
        Err(e) => return Err(e),
    };
    Ok(Command::Attach { session_id, json: get_flag(&sc, 0) })
}

fn build_status(toks: &[&str], start: usize) -> (r: Result<Command, CliError>)
    ensures
        command_rel(tok_views(toks@), 7, start as int, r),
{
    let sc = match scan_leaf(&session_json_def(), toks, start) {
        Ok(sc) => sc,
        Err(e) => return Err(e),
    };
    let session_id = match get_positional_required(&sc, 0, "<SESSION_ID>") {
        Ok(v) => v,
        Err(e) => return Err(e),
    };
    Ok(Command::Status { session_id, json: get_flag(&sc, 0) })
}

fn build_cancel(toks: &[&str], start: usize) -> (r: Result<Command, CliError>)
    ensures
        command_rel(tok_views(toks@), 8, start as int, r),
{
    let sc = match scan_leaf(&session_json_def(), toks, start) {
        Ok(sc) => sc,
        Err(e) => return Err(e),
    };
    let session_id = match get_positional_required(&sc, 0, "<SESSION_ID>") {
        Ok(v) => v,
        Err(e) => return Err(e),
    };
    Ok(Command::Cancel { session_id, json: get_flag(&sc, 0) })
}

fn build_mcp(toks: &[&str], start: usize) -> (r: Result<Command, CliError>)
    ensures
        command_rel(tok_views(toks@), 10, start as int, r),
{
    let sc = match scan_leaf(&json_only_def(), toks, start) {
        Ok(sc) => sc,
        Err(e) => return Err(e),
    };
    Ok(Command::Mcp { json: get_flag(&sc, 0) })
}

fn build_models(toks: &[&str], start: usize) -> (r: Result<Command, CliError>)
    ensures
        command_rel(tok_views(toks@), 12, start as int, r),
{
    let sc = match scan_leaf(&models_def(), toks, start) {
        Ok(sc) => sc,
        Err(e) => return Err(e),
    };
    Ok(Command::Models { json: get_flag(&sc, 0), verbose: get_flag(&sc, 1) })
}

fn build_doctor(toks: &[&str], start: usize) -> (r: Result<Command, CliError>)
    ensures
        command_rel(tok_views(toks@), 13, start as int, r),
{
    let sc = match scan_leaf(&doctor_def(), toks, start) {
        Ok(sc) => sc,
        Err(e) => return Err(e),
    };
    Ok(Command::Doctor { json: get_flag(&sc, 0), fix: get_flag(&sc, 1) })
}

fn build_config(toks: &[&str], start: usize) -> (r: Result<Command, CliError>)
    ensures
        command_rel(tok_views(toks@), 14, start as int, r),
{
    let sc = match scan_leaf(&json_only_def(), toks, start) {
        Ok(sc) => sc,
        Err(e) => return Err(e),
    };
    Ok(Command::Config { json: get_flag(&sc, 0) })
}

fn build_init(toks: &[&str], start: usize) -> (r: Result<Command, CliError>)
    ensures
        command_rel(tok_views(toks@), 15, start as int, r),
{
    let sc = match scan_leaf(&init_def(), toks, start) {
        Ok(sc) => sc,
        Err(e) => return Err(e),
    };
    Ok(Command::Init { force: get_flag(&sc, 0) })
}

fn build_upgrade(toks: &[&str], start: usize) -> (r: Result<Command, CliError>)
    ensures
        command_rel(tok_views(toks@), 16, start as int, r),
{
    let sc = match scan_leaf(&upgrade_def(), toks, start) {
        Ok(sc) => sc,
        Err(e) => return Err(e),
    };
    Ok(Command::Upgrade { install_dir: get_opt(&sc, 0), no_test: get_flag(&sc, 1) })
}

fn build_cost(toks: &[&str], start: usize) -> (r: Result<Command, CliError>)
    ensures
        command_rel(tok_views(toks@), 20, start as int, r),
{
    let sc = match scan_leaf(&cost_def(), toks, start) {
        Ok(sc) => sc,
        Err(e) => return Err(e),
    };
    let since_hours = match u32_option(&sc, 0) {
        Ok(v) => v,
        Err(e) => return Err(e),
    };
    let limit = match usize_or_default(&sc, 1, 20) {
        Ok(v) => v,
        Err(e) => return Err(e),
    };
    Ok(Command::Cost { since_hours, limit, json: get_flag(&sc, 2) })
}

fn build_export(toks: &[&str], start: usize) -> (r: Result<Command, CliError>)
    ensures
        command_rel(tok_views(toks@), 21, start as int, r),
{
    let sc = match scan_leaf(&export_def(), toks, start) {
        Ok(sc) => sc,
        Err(e) => return Err(e),
    };
    let session_id = match get_positional_required(&sc, 0, "<SESSION_ID>") {
        Ok(v) => v,
        Err(e) => return Err(e),
    };
    let format = match export_format_arg(opt_chars(&sc, 0)) {
        Ok(v) => v,
        Err(e) => return Err(e),
    };
    let inline_images = match inline_images_arg(opt_chars(&sc, 4)) {
        Ok(v) => v,
        Err(e) => return Err(e),
    };
    Ok(
        Command::Export {
            session_id,
            format: match format {
                Some(f) => f,
                None => ExportFormat::Markdown,
            },
            output: get_opt(&sc, 1),
            include_system: get_flag(&sc, 2),
            include_tool_results: get_flag(&sc, 3),
            inline_images: match inline_images {
                Some(m) => m,
                None => InlineImages::Auto,
            },
        },
    )
}

fn build_skills_list(toks: &[&str], start: usize) -> (r: Result<SkillsCommand, CliError>)
    ensures
        skills_sub_rel(tok_views(toks@), 0, start as int, r),
{
    let sc = match scan_leaf(&json_only_def(), toks, start) {
        Ok(sc) => sc,
        Err(e) => return Err(e),
    };
    Ok(SkillsCommand::List { json: get_flag(&sc, 0) })
}

fn build_skills_add(toks: &[&str], start: usize) -> (r: Result<SkillsCommand, CliError>)
    ensures
        skills_sub_rel(tok_views(toks@), 1, start as int, r),
{
    let sc = match scan_leaf(&skills_add_def(), toks, start) {
        Ok(sc) => sc,
        Err(e) => return Err(e),
    };
    let source = match get_positional_required(&sc, 0, "<SOURCE>") {
        Ok(v) => v,
        Err(e) => return Err(e),
    };
    Ok(SkillsCommand::Add { source, skill: get_all(&sc, 0), global: get_flag(&sc, 1) })
}

fn build_skills_remove(toks: &[&str], start: usize) -> (r: Result<SkillsCommand, CliError>)
    ensures
        skills_sub_rel(tok_views(toks@), 2, start as int, r),
{
    let sc = match scan_leaf(&skills_remove_def(), toks, start) {
        Ok(sc) => sc,
        Err(e) => return Err(e),
    };
    let name = match get_positional_required(&sc, 0, "<NAME>") {
        Ok(v) => v,
        Err(e) => return Err(e),
    };
    Ok(SkillsCommand::Remove { name, global: get_flag(&sc, 0) })
}

fn build_skills_update(toks: &[&str], start: usize) -> (r: Result<SkillsCommand, CliError>)
    ensures
        skills_sub_rel(tok_views(toks@), 3, start as int, r),
{
    let sc = match scan_leaf(&skills_update_def(), toks, start) {
        Ok(sc) => sc,
        Err(e) => return Err(e),
    };
    Ok(SkillsCommand::Update { name: get_positional(&sc, 0) })
}

fn build_memory_list(toks: &[&str], start: usize) -> (r: Result<MemoryCommand, CliError>)
    ensures
        memory_sub_rel(tok_views(toks@), 0, start as int, r),
{
    let sc = match scan_leaf(&memory_list_def(), toks, start) {
        Ok(sc) => sc,
        Err(e) => return Err(e),
    };
    Ok(MemoryCommand::List)
}

fn build_memory_add(toks: &[&str], start: usize) -> (r: Result<MemoryCommand, CliError>)
    ensures
        memory_sub_rel(tok_views(toks@), 1, start as int, r),
{
    let sc = match scan_leaf(&memory_add_def(), toks, start) {
        Ok(sc) => sc,
        Err(e) => return Err(e),
    };
    let text = match get_positional_required(&sc, 0, "<TEXT>") {
        Ok(v) => v,
        Err(e) => return Err(e),
    };
    let kind = match get_opt(&sc, 0) {
        Some(k) => k,
        None => "note".to_owned(),
    };
    Ok(MemoryCommand::Add { text, kind })
}

fn build_completion_generate(toks: &[&str], start: usize) -> (r: Result<CompletionCmd, CliError>)
    ensures
        completion_sub_rel(tok_views(toks@), 0, start as int, r),
{
    let sc = match scan_leaf(&completion_generate_def(), toks, start) {
        Ok(sc) => sc,
        Err(e) => return Err(e),
    };
    let shell = match shell_arg(positional_chars(&sc, 0)) {
        Ok(v) => v,
        Err(e) => return Err(e),
    };
    Ok(
        CompletionCmd::Generate {
            shell: match shell {
                Some(s) => s,
                None => ClapShell::Bash,
            },
        },
    )
}

fn build_completion_install(toks: &[&str], start: usize) -> (r: Result<CompletionCmd, CliError>)
    ensures
        completion_sub_rel(tok_views(toks@), 1, start as int, r),
{
    let sc = match scan_leaf(&completion_install_def(), toks, start) {
        Ok(sc) => sc,
        Err(e) => return Err(e),
    };
    let shell = match shell_arg(positional_chars(&sc, 0)) {
        Ok(v) => v,
        Err(e) => return Err(e),
    };
    Ok(CompletionCmd::Install { shell, path: get_opt(&sc, 0) })
}

fn build_autoresearch_once(toks: &[&str], start: usize) -> (r: Result<AutoresearchCmd, CliError>)
    ensures
        leaf_rel(
            autoresearch_once_level(),
            tok_views(toks@),
            start as int,
            |sc: ScanView| once_checks(sc),
            |sc: ScanView, c: AutoresearchCmd| once_fields(sc, c),
            r,
        ),
{
    let sc = match scan_leaf(&autoresearch_once_def(), toks, start) {
        Ok(sc) => sc,
        Err(e) => return Err(e),
    };
    let program = match get_positional_required(&sc, 0, "<PROGRAM>") {
        Ok(v) => v,
        Err(e) => return Err(e),
    };
    Ok(AutoresearchCmd::Once { program, workspace: get_opt(&sc, 0) })
}

fn build_index_build(toks: &[&str], start: usize) -> (r: Result<IndexCmd, CliError>)
    ensures
        index_sub_rel(tok_views(toks@), 0, start as int, r),
{
    let sc = match scan_leaf(&json_only_def(), toks, start) {
        Ok(sc) => sc,
        Err(e) => return Err(e),
    };
    Ok(IndexCmd::Build { json: get_flag(&sc, 0) })
}

fn build_index_show(toks: &[&str], start: usize) -> (r: Result<IndexCmd, CliError>)
    ensures
        index_sub_rel(tok_views(toks@), 1, start as int, r),
{
    let sc = match scan_leaf(&json_only_def(), toks, start) {
        Ok(sc) => sc,
        Err(e) => return Err(e),
    };
    Ok(IndexCmd::Show { json: get_flag(&sc, 0) })
}

fn build_index_rebuild(toks: &[&str], start: usize) -> (r: Result<IndexCmd, CliError>)
    ensures
        index_sub_rel(tok_views(toks@), 2, start as int, r),
{
    let sc = match scan_leaf(&index_rebuild_def(), toks, start) {
        Ok(sc) => sc,
        Err(e) => return Err(e),
    };
    Ok(IndexCmd::Rebuild { patterns: get_all(&sc, 0), json: get_flag(&sc, 1) })
}

fn build_index_search(toks: &[&str], start: usize) -> (r: Result<IndexCmd, CliError>)
    ensures
        index_sub_rel(tok_views(toks@), 3, start as int, r),
{
    let sc = match scan_leaf(&index_search_def(), toks, start) {
        Ok(sc) => sc,
        Err(e) => return Err(e),
    };
    let query = match get_positional_required(&sc, 0, "<QUERY>") {
        Ok(v) => v,
        Err(e) => return Err(e),
    };
    let limit = match usize_or_default(&sc, 0, 10) {
        Ok(v) => v,
        Err(e) => return Err(e),
    };
    Ok(IndexCmd::Search { query, limit, json: get_flag(&sc, 1) })
}

fn build_skills(toks: &[&str], start: usize) -> (r: Result<Command, CliError>)
    ensures
        command_rel(tok_views(toks@), 9, start as int, r),
{
    let lv = skills_def();
    match scan_level(&lv, toks, start) {
        Err(e) => Err(e),
        Ok(ScanResult::Done(sc)) => {
            Ok(Command::Skills { json: get_flag(&sc, 0), command: None })
        },
        Ok(ScanResult::Sub(sc, k, n)) => {
            let json = get_flag(&sc, 0);
            let sub: Result<SkillsCommand, CliError> = if k == 0 {
                build_skills_list(toks, n)
            } else if k == 1 {
                build_skills_add(toks, n)
            } else if k == 2 {
                build_skills_remove(toks, n)
            } else {
                build_skills_update(toks, n)
            };
            match sub {
                Ok(c) => Ok(Command::Skills { json, command: Some(c) }),
                Err(e) => Err(e),
            }
        },
    }
}

fn build_memory(toks: &[&str], start: usize) -> (r: Result<Command, CliError>)
    ensures
        command_rel(tok_views(toks@), 11, start as int, r),
{
    let lv = memory_def();
    match scan_level(&lv, toks, start) {
        Err(e) => Err(e),
        Ok(ScanResult::Done(sc)) => {
            Err(cli_error(CliErrorKind::MissingSubcommand, &chars_of("memory")))
        },
        Ok(ScanResult::Sub(sc, k, n)) => {
            let json = get_flag(&sc, 0);
            let sub: Result<MemoryCommand, CliError> = if k == 0 {
                build_memory_list(toks, n)
            } else {
                build_memory_add(toks, n)
            };
            match sub {
                Ok(c) => Ok(Command::Memory { command: c, json }),
                Err(e) => Err(e),
            }
        },
    }
}

fn build_completion(toks: &[&str], start: usize) -> (r: Result<Command, CliError>)
    ensures
        command_rel(tok_views(toks@), 17, start as int, r),
{
    let lv = completion_def();
    match scan_level(&lv, toks, start) {
        Err(e) => Err(e),
        Ok(ScanResult::Done(sc)) => {
            Err(cli_error(CliErrorKind::MissingSubcommand, &chars_of("completion")))
        },
        Ok(ScanResult::Sub(sc, k, n)) => {
            let sub: Result<CompletionCmd, CliError> = if k == 0 {
                build_completion_generate(toks, n)
            } else {
                build_completion_install(toks, n)
            };
            match sub {
                Ok(c) => Ok(Command::Completion { command: c }),
                Err(e) => Err(e),
            }
        },
    }
}

fn build_autoresearch(toks: &[&str], start: usize) -> (r: Result<Command, CliError>)
    ensures
        command_rel(tok_views(toks@), 18, start as int, r),
{
    let lv = autoresearch_def();
    match scan_level(&lv, toks, start) {
        Err(e) => Err(e),
        Ok(ScanResult::Done(sc)) => {
            Err(cli_error(CliErrorKind::MissingSubcommand, &chars_of("autoresearch")))
        },
        Ok(ScanResult::Sub(sc, k, n)) => {
            let sub: Result<AutoresearchCmd, CliError> = build_autoresearch_once(toks, n);
            match sub {
                Ok(c) => Ok(Command::Autoresearch { command: c }),
                Err(e) => Err(e),
            }
        },
    }
}

fn build_index(toks: &[&str], start: usize) -> (r: Result<Command, CliError>)
    ensures
        command_rel(tok_views(toks@), 19, start as int, r),
{
    let lv = index_def();
    match scan_level(&lv, toks, start) {
        Err(e) => Err(e),
        Ok(ScanResult::Done(sc)) => {
            Err(cli_error(CliErrorKind::MissingSubcommand, &chars_of("index")))
        },
        Ok(ScanResult::Sub(sc, k, n)) => {
            let sub: Result<IndexCmd, CliError> = if k == 0 {
                build_index_build(toks, n)
            } else if k == 1 {
                build_index_show(toks, n)
            } else if k == 2 {
                build_index_rebuild(toks, n)
            } else {
                build_index_search(toks, n)
            };
            match sub {
                Ok(c) => Ok(Command::Index { command: c }),
                Err(e) => Err(e),
            }
        },
    }
}

/// The `k`-th subcommand (in the order of [`top_level`]'s names) read from `start`.
fn build_command(toks: &[&str], k: usize, start: usize) -> (r: Result<Command, CliError>)
    ensures
        command_rel(tok_views(toks@), k as int, start as int, r),
{
    if k == 0 {
        build_run(toks, start)
    } else if k == 1 {
        build_serve(toks, start)
    } else if k == 2 {
        build_spawn(toks, start)
    } else if k == 3 {
        build_sessions(toks, start)
    } else if k == 4 {
        build_resume(toks, start)
    } else if k == 5 {
        build_logs(toks, start)
    } else if k == 6 {
        build_attach(toks, start)
    } else if k == 7 {
        build_status(toks, start)
    } else if k == 8 {
        build_cancel(toks, start)
    } else if k == 9 {
        build_skills(toks, start)
    } else if k == 10 {
        build_mcp(toks, start)
    } else if k == 11 {
        build_memory(toks, start)
    } else if k == 12 {
        build_models(toks, start)
    } else if k == 13 {
        build_doctor(toks, start)
    } else if k == 14 {
        build_config(toks, start)
    } else if k == 15 {
        build_init(toks, start)
    } else if k == 16 {
        build_upgrade(toks, start)
    } else if k == 17 {
        build_completion(toks, start)
    } else if k == 18 {
        build_autoresearch(toks, start)
    } else if k == 19 {
        build_index(toks, start)
    } else if k == 20 {
        build_cost(toks, start)
    } else {
        build_export(toks, start)
    }
}

/// The global options read into `sc`, with no subcommand.
fn read_globals(sc: &ScanOut) -> (r: Result<Cli, CliError>)
    requires
        sc.values@.len() == 17,
    ensures
        match r {
            Ok(c) => top_checks(sc.view()) is None && top_fields(sc.view(), c) && c.command is None,
            Err(e) => top_checks(sc.view()) == Some(e.view()),
        },
{
    let thinking_budget = match u32_or_default(sc, 7, 5120) {
        Ok(v) => v,
        Err(e) => return Err(e),
    };
    let max_tokens = match u32_or_default(sc, 8, 8192) {
        Ok(v) => v,
        Err(e) => return Err(e),
    };
    let stream = match stream_or_default(sc, 11, StreamMode::Human) {
        Ok(v) => v,
        Err(e) => return Err(e),
    };
    let permission_mode = match permission_arg(opt_chars(sc, 13)) {
        Ok(v) => v,
        Err(e) => return Err(e),
    };
    let max_turns = match u32_option(sc, 14) {
        Ok(v) => v,
        Err(e) => return Err(e),
    };
    let stdin_as = match stdin_merge_arg(opt_chars(sc, 16)) {
        Ok(v) => v,
        Err(e) => return Err(e),
    };
    Ok(
        Cli {
            command: None,
            prompt: get_opt(sc, 0),
            safe: get_flag(sc, 1),
            resume: get_flag(sc, 2),
            no_resume: get_flag(sc, 3),
            run: get_flag(sc, 4),
            model: get_opt(sc, 5),
            enable_thinking: get_flag(sc, 6),
            thinking_budget,
            max_tokens,
            verbose: get_flag(sc, 9),
            json: get_flag(sc, 10),
            stream,
            no_tui: get_flag(sc, 12),
            permission_mode,
            max_turns,
            session_id: get_opt(sc, 15),
            stdin_as,
        },
    )
}

impl Cli {
    /// Parse a command line whose first word is the program name (see [`cli_rel`]).
    pub fn try_parse_from(args: &[&str]) -> (r: Result<Cli, CliError>)
        ensures
            cli_rel(tok_views(args@), r),
    {
        let lv = top_def();
        let (sc, sub) = match scan_level(&lv, args, 1) {
            Err(e) => return Err(e),
            Ok(ScanResult::Done(sc)) => (sc, None),
            Ok(ScanResult::Sub(sc, k, n)) => (sc, Some((k, n))),
        };
        let mut cli = match read_globals(&sc) {
            Ok(c) => c,
            Err(e) => return Err(e),
        };
        match sub {
            None => Ok(cli),
            Some((k, n)) => match build_command(args, k, n) {
                Ok(c) => {
                    cli.command = Some(c);
                    Ok(cli)
                },
                Err(e) => Err(e),
            },
        }
    }
}

} // verus!
