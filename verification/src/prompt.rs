//! The line prompt, the application's lifecycle state, and how a one-shot prompt is put
//! together from `--prompt` and standard input.

use crate::cli_values::{ClapShell, StdinMerge};
use crate::text::{chars_of, ends_with_vec, has_suffix, slice_vec, string_of, trim, trim_vec};
use vstd::prelude::*;

verus! {

/// The prompt of the line-oriented session, marking run and safe mode.
pub struct NcaPrompt {
    pub safe_mode: bool,
    pub run_mode: bool,
}

/// The prompt text for the two modes.
pub open spec fn prompt_text(safe: bool, run: bool) -> Seq<char> {
    if safe && run {
        "nca(run,safe)> "@
    } else if safe {
        "nca(safe)> "@
    } else if run {
        "nca(run)> "@
    } else {
        "nca> "@
    }
}

impl NcaPrompt {
    /// A prompt for the given modes.
    pub fn new(safe_mode: bool, run_mode: bool) -> (r: Self)
        ensures
            r.safe_mode == safe_mode,
            r.run_mode == run_mode,
    {
        NcaPrompt { safe_mode, run_mode }
    }

    /// The prompt text (see [`prompt_text`]).
    pub fn prompt_string(&self) -> (r: &'static str)
        ensures
            r@ == prompt_text(self.safe_mode, self.run_mode),
    {
        if self.safe_mode && self.run_mode {
            "nca(run,safe)> "
        } else if self.safe_mode {
            "nca(safe)> "
        } else if self.run_mode {
            "nca(run)> "
        } else {
            "nca> "
        }
    }
}

/// Lifecycle state of the application.
#[derive(Clone, PartialEq, Eq, Debug)]
pub enum AppState {
    Initializing,
    Idle,
    WaitingForInput,
    Processing,
    WaitingForApproval { call_id: String },
    Exiting,
}

/// The application: its state and whether it runs in safe mode.
pub struct App {
    pub state: AppState,
    pub safe_mode: bool,
}

impl App {
    /// A new application, initializing.
    pub fn new(safe_mode: bool) -> (r: Self)
        ensures
            r.state == AppState::Initializing,
            r.safe_mode == safe_mode,
    {
        App { state: AppState::Initializing, safe_mode }
    }
}

/// `s` without its trailing line feeds.
pub open spec fn strip_trailing_newlines(s: Seq<char>) -> Seq<char>
    decreases s.len(),
{
    if s.len() > 0 && s.last() == '\n' {
        strip_trailing_newlines(s.drop_last())
    } else {
        s
    }
}

/// The one-shot prompt: `--prompt` trimmed (absent when blank) and the standard input
/// read (`None` when not read) without trailing line feeds (absent when empty), merged by
/// `mode` (append by default): `only` takes the input alone and ignores `--prompt` (no
/// prompt without input), `prefix` puts the input first, `append` after, a blank line
/// between; otherwise either alone is taken as it is.
pub open spec fn merged_prompt(
    prompt: Option<Seq<char>>,
    mode: Option<StdinMerge>,
    stdin: Option<Seq<char>>,
) -> Option<Seq<char>> {
    let p = match prompt {
        Some(s) => if trim(s).len() == 0 {
            None
        } else {
            Some(trim(s))
        },
        None => None,
    };
    let i = match stdin {
        Some(s) => if strip_trailing_newlines(s).len() == 0 {
            None
        } else {
            Some(strip_trailing_newlines(s))
        },
        None => None,
    };
    if mode == Some(StdinMerge::Only) {
        i
    } else {
        match (p, i) {
            (Some(p), Some(s)) => match mode {
                Some(StdinMerge::Prefix) => Some(s + "\n\n"@ + p),
                _ => Some(p + "\n\n"@ + s),
            },
            (Some(p), None) => Some(p),
            (None, Some(s)) => Some(s),
            (None, None) => None,
        }
    }
}

/// Whether standard input is read: when a merge mode is given or it is not a terminal.
pub open spec fn wants_stdin(mode: Option<StdinMerge>, stdin_is_tty: bool) -> bool {
    mode is Some || !stdin_is_tty
}

/// Whether standard input is read for the one-shot prompt.
pub fn should_read_stdin(mode: Option<StdinMerge>, stdin_is_tty: bool) -> (b: bool)
    ensures
        b == wants_stdin(mode, stdin_is_tty),
{
    mode.is_some() || !stdin_is_tty
}

/// The optional text as characters.
pub open spec fn opt_view(o: Option<String>) -> Option<Seq<char>> {
    match o {
        Some(s) => Some(s@),
        None => None,
    }
}

/// Combine `--prompt` with what was read from standard input (see [`merged_prompt`]).
pub fn compose_prompt_with_stdin(
    cli_prompt: Option<String>,
    mode: Option<StdinMerge>,
    stdin_text: Option<String>,
) -> (r: Option<String>)
    ensures
        opt_view(r) == merged_prompt(opt_view(cli_prompt), mode, opt_view(stdin_text)),
{
    let p: Option<Vec<char>> = match &cli_prompt {
        Some(s) => {
            let t = trim_vec(&chars_of(s.as_str()));
            if t.len() == 0 {
                None
            } else {
                Some(t)
            }
        },
        None => None,
    };
    let i: Option<Vec<char>> = match &stdin_text {
        Some(s) => {
            let v = chars_of(s.as_str());
            let mut n = v.len();
            assert(v@.take(n as int) =~= v@);
            while n > 0 && v[n - 1] == '\n'
                invariant
                    n <= v@.len(),
                    strip_trailing_newlines(v@) == strip_trailing_newlines(v@.take(n as int)),
                decreases n,
            {
                assert(v@.take(n as int).drop_last() =~= v@.take(n - 1));
                n -= 1;
            }
            let t = slice_vec(&v, 0, n);
            assert(t@ =~= v@.take(n as int));
            if t.len() == 0 {
                None
            } else {
                Some(t)
            }
        },
        None => None,
    };
    if let Some(StdinMerge::Only) = mode {
        return match i {
            Some(s) => Some(string_of(&s)),
            None => None,
        };
    }
    match (p, i) {
        (Some(p), Some(s)) => {
            let (first, second) = match mode {
                Some(StdinMerge::Prefix) => (s, p),
                _ => (p, s),
            };
            let mut out = string_of(&first);
            out.append("\n\n");
            out.append(string_of(&second).as_str());
            Some(out)
        },
        (Some(p), None) => Some(string_of(&p)),
        (None, Some(s)) => Some(string_of(&s)),
        (None, None) => None,
    }
}

/// The shell of a `$SHELL` value: zsh or fish by its ending, bash otherwise.
pub open spec fn shell_of_env(sh: Seq<char>) -> ClapShell {
    if has_suffix(sh, "zsh"@) {
        ClapShell::Zsh
    } else if has_suffix(sh, "fish"@) {
        ClapShell::Fish
    } else {
        ClapShell::Bash
    }
}

/// The completion shell for a `$SHELL` value (see [`shell_of_env`]).
pub fn shell_from_env_value(sh: &str) -> (r: ClapShell)
    ensures
        r == shell_of_env(sh@),
{
    let v = chars_of(sh);
    if ends_with_vec(&v, &chars_of("zsh")) {
        ClapShell::Zsh
    } else if ends_with_vec(&v, &chars_of("fish")) {
        ClapShell::Fish
    } else {
        ClapShell::Bash
    }
}

} // verus!
