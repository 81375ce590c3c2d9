//! The grammar of the `nca` command line: the options, positional slots and subcommands
//! of every level, as tables that the scanner reads.

use crate::cli_scan::{ArgDef, ArgKind, LevelDef, LevelView};
use vstd::prelude::*;

verus! {

/// An option of a level.
fn arg(long: &str, short: Option<char>, kind: ArgKind) -> (r: ArgDef)
    ensures
        r.long@ == long@,
        r.short == short,
        r.kind == kind,
{
    ArgDef { long: long.to_owned(), short, kind }
}

/// A subcommand name.
fn word(s: &str) -> (r: String)
    ensures
        r@ == s@,
{
    s.to_owned()
}

/// The options of the top level: global options and the subcommands.
pub open spec fn top_level() -> LevelView {
    LevelView {
        args: seq![
            ("prompt"@, Some('p'), ArgKind::Value),
            ("safe"@, Some('s'), ArgKind::Flag),
            ("resume"@, Some('r'), ArgKind::Flag),
            ("no-resume"@, None, ArgKind::Flag),
            ("run"@, None, ArgKind::Flag),
            ("model"@, Some('m'), ArgKind::Value),
            ("enable-thinking"@, Some('t'), ArgKind::Flag),
            ("thinking-budget"@, None, ArgKind::Value),
            ("max-tokens"@, None, ArgKind::Value),
            ("verbose"@, Some('v'), ArgKind::Flag),
            ("json"@, None, ArgKind::Flag),
            ("stream"@, Some('S'), ArgKind::Value),
            ("no-tui"@, None, ArgKind::Flag),
            ("permission-mode"@, None, ArgKind::Value),
            ("max-turns"@, None, ArgKind::Value),
            ("session-id"@, None, ArgKind::Value),
            ("stdin-as"@, None, ArgKind::Value),
        ],
        positionals: 0,
        subs: seq![
            "run"@,
            "serve"@,
            "spawn"@,
            "sessions"@,
            "resume"@,
            "logs"@,
            "attach"@,
            "status"@,
            "cancel"@,
            "skills"@,
            "mcp"@,
            "memory"@,
            "models"@,
            "doctor"@,
            "config"@,
            "init"@,
            "upgrade"@,
            "completion"@,
            "autoresearch"@,
            "index"@,
            "cost"@,
            "export"@,
        ],
    }
}

/// The table that [`top_level`] describes.
pub fn top_def() -> (r: LevelDef)
    ensures
        r.view() == top_level(),
{
    let r = LevelDef {
        args: vec![
            arg("prompt", Some('p'), ArgKind::Value),
            arg("safe", Some('s'), ArgKind::Flag),
            arg("resume", Some('r'), ArgKind::Flag),
            arg("no-resume", None, ArgKind::Flag),
            arg("run", None, ArgKind::Flag),
            arg("model", Some('m'), ArgKind::Value),
            arg("enable-thinking", Some('t'), ArgKind::Flag),
            arg("thinking-budget", None, ArgKind::Value),
            arg("max-tokens", None, ArgKind::Value),
            arg("verbose", Some('v'), ArgKind::Flag),
            arg("json", None, ArgKind::Flag),
            arg("stream", Some('S'), ArgKind::Value),
            arg("no-tui", None, ArgKind::Flag),
            arg("permission-mode", None, ArgKind::Value),
            arg("max-turns", None, ArgKind::Value),
            arg("session-id", None, ArgKind::Value),
            arg("stdin-as", None, ArgKind::Value),
        ],
        positionals: 0,
        subcommands: vec![
            word("run"),
            word("serve"),
            word("spawn"),
            word("sessions"),
            word("resume"),
            word("logs"),
            word("attach"),
            word("status"),
            word("cancel"),
            word("skills"),
            word("mcp"),
            word("memory"),
            word("models"),
            word("doctor"),
            word("config"),
            word("init"),
            word("upgrade"),
            word("completion"),
            word("autoresearch"),
            word("index"),
            word("cost"),
            word("export"),
        ],
    };
    assert(r.view().args =~= top_level().args);
    assert(r.view().subs =~= top_level().subs);
    r
}

/// The options of `run`.
pub open spec fn run_level() -> LevelView {
    LevelView {
        args: seq![
            ("prompt"@, None, ArgKind::Value),
            ("stream"@, None, ArgKind::Value),
            ("model"@, None, ArgKind::Value),
            ("json"@, None, ArgKind::Flag),
            ("safe"@, None, ArgKind::Flag),
            ("permission-mode"@, None, ArgKind::Value),
            ("session-id"@, None, ArgKind::Value),
        ],
        positionals: 0,
        subs: seq![],
    }
}

/// The table that [`run_level`] describes.
pub fn run_def() -> (r: LevelDef)
    ensures
        r.view() == run_level(),
{
    let r = LevelDef {
        args: vec![
            arg("prompt", None, ArgKind::Value),
            arg("stream", None, ArgKind::Value),
            arg("model", None, ArgKind::Value),
            arg("json", None, ArgKind::Flag),
            arg("safe", None, ArgKind::Flag),
            arg("permission-mode", None, ArgKind::Value),
            arg("session-id", None, ArgKind::Value),
        ],
        positionals: 0,
        subcommands: vec![],
    };
    assert(r.view().args =~= run_level().args);
    assert(r.view().subs =~= run_level().subs);
    r
}

/// The options of `serve`.
pub open spec fn serve_level() -> LevelView {
    LevelView {
        args: seq![
            ("prompt"@, None, ArgKind::Value),
            ("stream"@, None, ArgKind::Value),
            ("model"@, None, ArgKind::Value),
            ("safe"@, None, ArgKind::Flag),
            ("permission-mode"@, None, ArgKind::Value),
            ("session-id"@, None, ArgKind::Value),
        ],
        positionals: 0,
        subs: seq![],
    }
}

/// The table that [`serve_level`] describes.
pub fn serve_def() -> (r: LevelDef)
    ensures
        r.view() == serve_level(),
{
    let r = LevelDef {
        args: vec![
            arg("prompt", None, ArgKind::Value),
            arg("stream", None, ArgKind::Value),
            arg("model", None, ArgKind::Value),
            arg("safe", None, ArgKind::Flag),
            arg("permission-mode", None, ArgKind::Value),
            arg("session-id", None, ArgKind::Value),
        ],
        positionals: 0,
        subcommands: vec![],
    };
    assert(r.view().args =~= serve_level().args);
    assert(r.view().subs =~= serve_level().subs);
    r
}

/// The options of `spawn`.
pub open spec fn spawn_level() -> LevelView {
    LevelView {
        args: seq![
            ("prompt"@, None, ArgKind::Value),
            ("model"@, None, ArgKind::Value),
            ("safe"@, None, ArgKind::Flag),
            ("json"@, None, ArgKind::Flag),
            ("permission-mode"@, None, ArgKind::Value),
        ],
        positionals: 0,
        subs: seq![],
    }
}

/// The table that [`spawn_level`] describes.
pub fn spawn_def() -> (r: LevelDef)
    ensures
        r.view() == spawn_level(),
{
    let r = LevelDef {
        args: vec![
            arg("prompt", None, ArgKind::Value),
            arg("model", None, ArgKind::Value),
            arg("safe", None, ArgKind::Flag),
            arg("json", None, ArgKind::Flag),
            arg("permission-mode", None, ArgKind::Value),
        ],
        positionals: 0,
        subcommands: vec![],
    };
    assert(r.view().args =~= spawn_level().args);
    assert(r.view().subs =~= spawn_level().subs);
    r
}

/// The options of `sessions`.
pub open spec fn sessions_level() -> LevelView {
    LevelView {
        args: seq![
            ("json"@, None, ArgKind::Flag),
            ("status"@, None, ArgKind::Value),
            ("since-hours"@, None, ArgKind::Value),
            ("search"@, None, ArgKind::Value),
            ("limit"@, None, ArgKind::Value),
        ],
        positionals: 0,
        subs: seq![],
    }
}

/// The table that [`sessions_level`] describes.
pub fn sessions_def() -> (r: LevelDef)
    ensures
        r.view() == sessions_level(),
{
    let r = LevelDef {
        args: vec![
            arg("json", None, ArgKind::Flag),
            arg("status", None, ArgKind::Value),
            arg("since-hours", None, ArgKind::Value),
            arg("search", None, ArgKind::Value),
            arg("limit", None, ArgKind::Value),
        ],
        positionals: 0,
        subcommands: vec![],
    };
    assert(r.view().args =~= sessions_level().args);
    assert(r.view().subs =~= sessions_level().subs);
    r
}

/// The options of `resume <SESSION_ID>`.
pub open spec fn resume_level() -> LevelView {
    LevelView {
        args: seq![
            ("prompt"@, None, ArgKind::Value),
            ("model"@, None, ArgKind::Value),
            ("safe"@, None, ArgKind::Flag),
            ("stream"@, None, ArgKind::Value),
            ("no-tui"@, None, ArgKind::Flag),
            ("permission-mode"@, None, ArgKind::Value),
        ],
        positionals: 1,
        subs: seq![],
    }
}

/// The table that [`resume_level`] describes.
pub fn resume_def() -> (r: LevelDef)
    ensures
        r.view() == resume_level(),
{
    let r = LevelDef {
        args: vec![
            arg("prompt", None, ArgKind::Value),
            arg("model", None, ArgKind::Value),
            arg("safe", None, ArgKind::Flag),
            arg("stream", None, ArgKind::Value),
            arg("no-tui", None, ArgKind::Flag),
            arg("permission-mode", None, ArgKind::Value),
        ],
        positionals: 1,
        subcommands: vec![],
    };
    assert(r.view().args =~= resume_level().args);
    assert(r.view().subs =~= resume_level().subs);
    r
}

/// The options of `logs <SESSION_ID>`.
pub open spec fn logs_level() -> LevelView {
    LevelView {
        args: seq![
            ("follow"@, None, ArgKind::Flag),
            ("json"@, None, ArgKind::Flag),
        ],
        positionals: 1,
        subs: seq![],
    }
}

/// The table that [`logs_level`] describes.
pub fn logs_def() -> (r: LevelDef)
    ensures
        r.view() == logs_level(),
{
    let r = LevelDef {
        args: vec![
            arg("follow", None, ArgKind::Flag),
            arg("json", None, ArgKind::Flag),
        ],
        positionals: 1,
        subcommands: vec![],
    };
    assert(r.view().args =~= logs_level().args);
    assert(r.view().subs =~= logs_level().subs);
    r
}

/// The options of `attach`, `status` and `cancel`: a session id and `--json`.
pub open spec fn session_json_level() -> LevelView {
    LevelView {
        args: seq![
            ("json"@, None, ArgKind::Flag),
        ],
        positionals: 1,
        subs: seq![],
    }
}

/// The table that [`session_json_level`] describes.
pub fn session_json_def() -> (r: LevelDef)
    ensures
        r.view() == session_json_level(),
{
    let r = LevelDef {
        args: vec![
            arg("json", None, ArgKind::Flag),
        ],
        positionals: 1,
        subcommands: vec![],
    };
    assert(r.view().args =~= session_json_level().args);
    assert(r.view().subs =~= session_json_level().subs);
    r
}

/// The options of levels with `--json` alone: `mcp`, `config`, `skills list`, `index build`, `index show`.
pub open spec fn json_only_level() -> LevelView {
    LevelView {
        args: seq![
            ("json"@, None, ArgKind::Flag),
        ],
        positionals: 0,
        subs: seq![],
    }
}

/// The table that [`json_only_level`] describes.
pub fn json_only_def() -> (r: LevelDef)
    ensures
        r.view() == json_only_level(),
{
    let r = LevelDef {
        args: vec![
            arg("json", None, ArgKind::Flag),
        ],
        positionals: 0,
        subcommands: vec![],
    };
    assert(r.view().args =~= json_only_level().args);
    assert(r.view().subs =~= json_only_level().subs);
    r
}

/// The options of `skills`.
pub open spec fn skills_level() -> LevelView {
    LevelView {
        args: seq![
            ("json"@, None, ArgKind::Flag),
        ],
        positionals: 0,
        subs: seq!["list"@, "add"@, "remove"@, "update"@],
    }
}

/// The table that [`skills_level`] describes.
pub fn skills_def() -> (r: LevelDef)
    ensures
        r.view() == skills_level(),
{
    let r = LevelDef {
        args: vec![
            arg("json", None, ArgKind::Flag),
        ],
        positionals: 0,
        subcommands: vec![word("list"), word("add"), word("remove"), word("update")],
    };
    assert(r.view().args =~= skills_level().args);
    assert(r.view().subs =~= skills_level().subs);
    r
}

/// The options of `skills add <SOURCE>`.
pub open spec fn skills_add_level() -> LevelView {
    LevelView {
        args: seq![
            ("skill"@, Some('s'), ArgKind::Multi),
            ("global"@, Some('g'), ArgKind::Flag),
        ],
        positionals: 1,
        subs: seq![],
    }
}

/// The table that [`skills_add_level`] describes.
pub fn skills_add_def() -> (r: LevelDef)
    ensures
        r.view() == skills_add_level(),
{
    let r = LevelDef {
        args: vec![
            arg("skill", Some('s'), ArgKind::Multi),
            arg("global", Some('g'), ArgKind::Flag),
        ],
        positionals: 1,
        subcommands: vec![],
    };
    assert(r.view().args =~= skills_add_level().args);
    assert(r.view().subs =~= skills_add_level().subs);
    r
}

/// The options of `skills remove <NAME>`.
pub open spec fn skills_remove_level() -> LevelView {
    LevelView {
        args: seq![
            ("global"@, Some('g'), ArgKind::Flag),
        ],
        positionals: 1,
        subs: seq![],
    }
}

/// The table that [`skills_remove_level`] describes.
pub fn skills_remove_def() -> (r: LevelDef)
    ensures
        r.view() == skills_remove_level(),
{
    let r = LevelDef {
        args: vec![
            arg("global", Some('g'), ArgKind::Flag),
        ],
        positionals: 1,
        subcommands: vec![],
    };
    assert(r.view().args =~= skills_remove_level().args);
    assert(r.view().subs =~= skills_remove_level().subs);
    r
}

/// The options of `skills update [NAME]`.
pub open spec fn skills_update_level() -> LevelView {
    LevelView {
        args: seq![],
        positionals: 1,
        subs: seq![],
    }
}

/// The table that [`skills_update_level`] describes.
pub fn skills_update_def() -> (r: LevelDef)
    ensures
        r.view() == skills_update_level(),
{
    let r = LevelDef {
        args: vec![],
        positionals: 1,
        subcommands: vec![],
    };
    assert(r.view().args =~= skills_update_level().args);
    assert(r.view().subs =~= skills_update_level().subs);
    r
}

/// The options of `memory`.
pub open spec fn memory_level() -> LevelView {
    LevelView {
        args: seq![
            ("json"@, None, ArgKind::Flag),
        ],
        positionals: 0,
        subs: seq!["list"@, "add"@],
    }
}

/// The table that [`memory_level`] describes.
pub fn memory_def() -> (r: LevelDef)
    ensures
        r.view() == memory_level(),
{
    let r = LevelDef {
        args: vec![
            arg("json", None, ArgKind::Flag),
        ],
        positionals: 0,
        subcommands: vec![word("list"), word("add")],
    };
    assert(r.view().args =~= memory_level().args);
    assert(r.view().subs =~= memory_level().subs);
    r
}

/// The options of `memory list`.
pub open spec fn memory_list_level() -> LevelView {
    LevelView {
        args: seq![],
        positionals: 0,
        subs: seq![],
    }
}

/// The table that [`memory_list_level`] describes.
pub fn memory_list_def() -> (r: LevelDef)
    ensures
        r.view() == memory_list_level(),
{
    let r = LevelDef {
        args: vec![],
        positionals: 0,
        subcommands: vec![],
    };
    assert(r.view().args =~= memory_list_level().args);
    assert(r.view().subs =~= memory_list_level().subs);
    r
}

/// The options of `memory add <TEXT>`.
pub open spec fn memory_add_level() -> LevelView {
    LevelView {
        args: seq![
            ("kind"@, None, ArgKind::Value),
        ],
        positionals: 1,
        subs: seq![],
    }
}

/// The table that [`memory_add_level`] describes.
pub fn memory_add_def() -> (r: LevelDef)
    ensures
        r.view() == memory_add_level(),
{
    let r = LevelDef {
        args: vec![
            arg("kind", None, ArgKind::Value),
        ],
        positionals: 1,
        subcommands: vec![],
    };
    assert(r.view().args =~= memory_add_level().args);
    assert(r.view().subs =~= memory_add_level().subs);
    r
}

/// The options of `models`.
pub open spec fn models_level() -> LevelView {
    LevelView {
        args: seq![
            ("json"@, None, ArgKind::Flag),
            ("verbose"@, None, ArgKind::Flag),
        ],
        positionals: 0,
        subs: seq![],
    }
}

/// The table that [`models_level`] describes.
pub fn models_def() -> (r: LevelDef)
    ensures
        r.view() == models_level(),
{
    let r = LevelDef {
        args: vec![
            arg("json", None, ArgKind::Flag),
            arg("verbose", None, ArgKind::Flag),
        ],
        positionals: 0,
        subcommands: vec![],
    };
    assert(r.view().args =~= models_level().args);
    assert(r.view().subs =~= models_level().subs);
    r
}

/// The options of `doctor`.
pub open spec fn doctor_level() -> LevelView {
    LevelView {
        args: seq![
            ("json"@, None, ArgKind::Flag),
            ("fix"@, None, ArgKind::Flag),
        ],
        positionals: 0,
        subs: seq![],
    }
}

/// The table that [`doctor_level`] describes.
pub fn doctor_def() -> (r: LevelDef)
    ensures
        r.view() == doctor_level(),
{
    let r = LevelDef {
        args: vec![
            arg("json", None, ArgKind::Flag),
            arg("fix", None, ArgKind::Flag),
        ],
        positionals: 0,
        subcommands: vec![],
    };
    assert(r.view().args =~= doctor_level().args);
    assert(r.view().subs =~= doctor_level().subs);
    r
}

/// The options of `init`.
pub open spec fn init_level() -> LevelView {
    LevelView {
        args: seq![
            ("force"@, None, ArgKind::Flag),
        ],
        positionals: 0,
        subs: seq![],
    }
}

/// The table that [`init_level`] describes.
pub fn init_def() -> (r: LevelDef)
    ensures
        r.view() == init_level(),
{
    let r = LevelDef {
        args: vec![
            arg("force", None, ArgKind::Flag),
        ],
        positionals: 0,
        subcommands: vec![],
    };
    assert(r.view().args =~= init_level().args);
    assert(r.view().subs =~= init_level().subs);
    r
}

/// The options of `upgrade`.
pub open spec fn upgrade_level() -> LevelView {
    LevelView {
        args: seq![
            ("install-dir"@, None, ArgKind::Value),
            ("no-test"@, None, ArgKind::Flag),
        ],
        positionals: 0,
        subs: seq![],
    }
}

/// The table that [`upgrade_level`] describes.
pub fn upgrade_def() -> (r: LevelDef)
    ensures
        r.view() == upgrade_level(),
{
    let r = LevelDef {
        args: vec![
            arg("install-dir", None, ArgKind::Value),
            arg("no-test", None, ArgKind::Flag),
        ],
        positionals: 0,
        subcommands: vec![],
    };
    assert(r.view().args =~= upgrade_level().args);
    assert(r.view().subs =~= upgrade_level().subs);
    r
}

/// The options of `completion`.
pub open spec fn completion_level() -> LevelView {
    LevelView {
        args: seq![],
        positionals: 0,
        subs: seq!["generate"@, "install"@],
    }
}

/// The table that [`completion_level`] describes.
pub fn completion_def() -> (r: LevelDef)
    ensures
        r.view() == completion_level(),
{
    let r = LevelDef {
        args: vec![],
        positionals: 0,
        subcommands: vec![word("generate"), word("install")],
    };
    assert(r.view().args =~= completion_level().args);
    assert(r.view().subs =~= completion_level().subs);
    r
}

/// The options of `completion generate [SHELL]`.
pub open spec fn completion_generate_level() -> LevelView {
    LevelView {
        args: seq![],
        positionals: 1,
        subs: seq![],
    }
}

/// The table that [`completion_generate_level`] describes.
pub fn completion_generate_def() -> (r: LevelDef)
    ensures
        r.view() == completion_generate_level(),
{
    let r = LevelDef {
        args: vec![],
        positionals: 1,
        subcommands: vec![],
    };
    assert(r.view().args =~= completion_generate_level().args);
    assert(r.view().subs =~= completion_generate_level().subs);
    r
}

/// The options of `completion install [SHELL]`.
pub open spec fn completion_install_level() -> LevelView {
    LevelView {
        args: seq![
            ("path"@, None, ArgKind::Value),
        ],
        positionals: 1,
        subs: seq![],
    }
}

/// The table that [`completion_install_level`] describes.
pub fn completion_install_def() -> (r: LevelDef)
    ensures
        r.view() == completion_install_level(),
{
    let r = LevelDef {
        args: vec![
            arg("path", None, ArgKind::Value),
        ],
        positionals: 1,
        subcommands: vec![],
    };
    assert(r.view().args =~= completion_install_level().args);
    assert(r.view().subs =~= completion_install_level().subs);
    r
}

/// The options of `autoresearch`.
pub open spec fn autoresearch_level() -> LevelView {
    LevelView {
        args: seq![],
        positionals: 0,
        subs: seq!["once"@],
    }
}

/// The table that [`autoresearch_level`] describes.
pub fn autoresearch_def() -> (r: LevelDef)
    ensures
        r.view() == autoresearch_level(),
{
    let r = LevelDef {
        args: vec![],
        positionals: 0,
        subcommands: vec![word("once")],
    };
    assert(r.view().args =~= autoresearch_level().args);
    assert(r.view().subs =~= autoresearch_level().subs);
    r
}

/// The options of `autoresearch once <PROGRAM>`.
pub open spec fn autoresearch_once_level() -> LevelView {
    LevelView {
        args: seq![
            ("workspace"@, None, ArgKind::Value),
        ],
        positionals: 1,
        subs: seq![],
    }
}

/// The table that [`autoresearch_once_level`] describes.
pub fn autoresearch_once_def() -> (r: LevelDef)
    ensures
        r.view() == autoresearch_once_level(),
{
    let r = LevelDef {
        args: vec![
            arg("workspace", None, ArgKind::Value),
        ],
        positionals: 1,
        subcommands: vec![],
    };
    assert(r.view().args =~= autoresearch_once_level().args);
    assert(r.view().subs =~= autoresearch_once_level().subs);
    r
}

/// The options of `index`.
pub open spec fn index_level() -> LevelView {
    LevelView {
        args: seq![],
        positionals: 0,
        subs: seq!["build"@, "show"@, "rebuild"@, "search"@],
    }
}

/// The table that [`index_level`] describes.
pub fn index_def() -> (r: LevelDef)
    ensures
        r.view() == index_level(),
{
    let r = LevelDef {
        args: vec![],
        positionals: 0,
        subcommands: vec![word("build"), word("show"), word("rebuild"), word("search")],
    };
    assert(r.view().args =~= index_level().args);
    assert(r.view().subs =~= index_level().subs);
    r
}

/// The options of `index rebuild`.
pub open spec fn index_rebuild_level() -> LevelView {
    LevelView {
        args: seq![
            ("include"@, None, ArgKind::Multi),
            ("json"@, None, ArgKind::Flag),
        ],
        positionals: 0,
        subs: seq![],
    }
}

/// The table that [`index_rebuild_level`] describes.
pub fn index_rebuild_def() -> (r: LevelDef)
    ensures
        r.view() == index_rebuild_level(),
{
    let r = LevelDef {
        args: vec![
            arg("include", None, ArgKind::Multi),
            arg("json", None, ArgKind::Flag),
        ],
        positionals: 0,
        subcommands: vec![],
    };
    assert(r.view().args =~= index_rebuild_level().args);
    assert(r.view().subs =~= index_rebuild_level().subs);
    r
}

/// The options of `index search <QUERY>`.
pub open spec fn index_search_level() -> LevelView {
    LevelView {
        args: seq![
            ("limit"@, None, ArgKind::Value),
            ("json"@, None, ArgKind::Flag),
        ],
        positionals: 1,
        subs: seq![],
    }
}

/// The table that [`index_search_level`] describes.
pub fn index_search_def() -> (r: LevelDef)
    ensures
        r.view() == index_search_level(),
{
    let r = LevelDef {
        args: vec![
            arg("limit", None, ArgKind::Value),
            arg("json", None, ArgKind::Flag),
        ],
        positionals: 1,
        subcommands: vec![],
    };
    assert(r.view().args =~= index_search_level().args);
    assert(r.view().subs =~= index_search_level().subs);
    r
}

/// The options of `cost`.
pub open spec fn cost_level() -> LevelView {
    LevelView {
        args: seq![
            ("since-hours"@, None, ArgKind::Value),
            ("limit"@, None, ArgKind::Value),
            ("json"@, None, ArgKind::Flag),
        ],
        positionals: 0,
        subs: seq![],
    }
}

/// The table that [`cost_level`] describes.
pub fn cost_def() -> (r: LevelDef)
    ensures
        r.view() == cost_level(),
{
    let r = LevelDef {
        args: vec![
            arg("since-hours", None, ArgKind::Value),
            arg("limit", None, ArgKind::Value),
            arg("json", None, ArgKind::Flag),
        ],
        positionals: 0,
        subcommands: vec![],
    };
    assert(r.view().args =~= cost_level().args);
    assert(r.view().subs =~= cost_level().subs);
    r
}

/// The options of `export <SESSION_ID>`.
pub open spec fn export_level() -> LevelView {
    LevelView {
        args: seq![
            ("format"@, None, ArgKind::Value),
            ("output"@, Some('o'), ArgKind::Value),
            ("include-system"@, None, ArgKind::Flag),
            ("include-tool-results"@, None, ArgKind::Flag),
            ("inline-images"@, None, ArgKind::Value),
        ],
        positionals: 1,
        subs: seq![],
    }
}

/// The table that [`export_level`] describes.
pub fn export_def() -> (r: LevelDef)
    ensures
        r.view() == export_level(),
{
    let r = LevelDef {
        args: vec![
            arg("format", None, ArgKind::Value),
            arg("output", Some('o'), ArgKind::Value),
            arg("include-system", None, ArgKind::Flag),
            arg("include-tool-results", None, ArgKind::Flag),
            arg("inline-images", None, ArgKind::Value),
        ],
        positionals: 1,
        subcommands: vec![],
    };
    assert(r.view().args =~= export_level().args);
    assert(r.view().subs =~= export_level().subs);
    r
}

} // verus!
