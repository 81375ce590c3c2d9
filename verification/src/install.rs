//! Where `completion install` writes a completion script and how `upgrade` recognises the
//! source tree it builds from.

use crate::cli_values::ClapShell;
use crate::prompt::opt_view;
use crate::styled::cat2;
use crate::text::{chars_of, contains_seq, contains_vec};
use vstd::prelude::*;

verus! {

/// The file a completion script for `shell` goes to: `path` when given, else the usual
/// per-user location under `home`; none for the shells that have no usual location
/// (PowerShell and Elvish), which cannot be installed automatically.
pub open spec fn completion_target(shell: ClapShell, home: Seq<char>, path: Option<Seq<char>>) -> Option<
    Seq<char>,
> {
    match path {
        Some(p) => Some(p),
        None => match shell {
            ClapShell::Bash => Some(home + "/.local/share/bash-completion/completions/nca"@),
            ClapShell::Zsh => Some(home + "/.zsh/completions/_nca"@),
            ClapShell::Fish => Some(home + "/.config/fish/completions/nca.fish"@),
            ClapShell::PowerShell | ClapShell::Elvish => None,
        },
    }
}

/// The file `completion install` writes for `shell` (see [`completion_target`]); `None`
/// asks the user to generate the script and place it by hand.
pub fn completion_install_path(shell: ClapShell, home: &str, path: Option<String>) -> (r: Option<
    String,
>)
    ensures
        match r {
            Some(t) => completion_target(shell, home@, opt_view(path)) == Some(t@),
            None => completion_target(shell, home@, opt_view(path)) is None,
        },
{
    match path {
        Some(p) => Some(p),
        None => match shell {
            ClapShell::Bash => Some(cat2(home, "/.local/share/bash-completion/completions/nca")),
            ClapShell::Zsh => Some(cat2(home, "/.zsh/completions/_nca")),
            ClapShell::Fish => Some(cat2(home, "/.config/fish/completions/nca.fish")),
            ClapShell::PowerShell | ClapShell::Elvish => None,
        },
    }
}

/// Whether a `Cargo.toml` with text `manifest` is the root of a cargo workspace: it holds a
/// `[workspace]` table header.
pub fn is_workspace_manifest(manifest: &str) -> (b: bool)
    ensures
        b == contains_seq(manifest@, "[workspace]"@),
{
    contains_vec(&chars_of(manifest), &chars_of("[workspace]"))
}

} // verus!
