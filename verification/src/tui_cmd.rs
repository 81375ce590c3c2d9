//! Commands the full-screen session sends to the runtime.

use crate::keys::KeyCode;
use crate::provider::ProviderKind;
use vstd::prelude::*;

verus! {

/// An answer to an interactive `ask_question` prompt.
#[derive(Clone, PartialEq, Eq, Debug)]
pub enum QuestionSelection {
    /// Take the suggested answer.
    Suggested,
    /// Pick the option with this id.
    Picked { option_id: String },
    /// A free-form answer.
    Custom { text: String },
}

/// Command from the TUI to the external runtime.
#[derive(Clone, PartialEq, Eq, Debug)]
pub enum TuiCmd {
    Submit(String),
    /// Answer for the current `ask_question`.
    QuestionAnswer(QuestionSelection),
    CycleAgent,
    CancelTurn,
    Exit,
    /// Open the branch picker popup.
    OpenBranchPicker,
    /// Switch to the given branch name.
    SwitchBranch(String),
    /// Create a new branch with the given name and switch to it.
    CreateBranch(String),
    /// Apply workspace default provider.
    ApplyDefaultProvider(ProviderKind),
    /// Open the API key modal for a provider; whether to connect after saving.
    PromptApiKey(ProviderKind, bool),
    /// Apply a model name.
    ApplyModel(String),
    /// Switch provider from the model picker.
    ApplyModelProvider(ProviderKind),
    /// Apply the permission mode at this picker index.
    ApplyPermission(usize),
    /// Switch to the agent profile at this picker index.
    SwitchAgent(usize),
    OpenEditor,
    NewSession,
    RunCompact,
    OpenModelPicker,
    OpenStatus,
    OpenHelp,
    OpenAgentPicker,
    OpenPermissionPicker,
    OpenSessions,
    /// Cycle to the next (true) or previous (false) recent model.
    CycleModel(bool),
    /// Validate an API key for a provider.
    ValidateApiKey(ProviderKind, String),
    CompleteOnboarding,
    /// Resume a different session by id.
    ResumeSession(String),
}

/// What the key after the Ctrl+X leader asks for (either case): `m` model picker, `e`
/// editor, `l` sessions, `n` new session, `c` compact, `s` status, `a` agent picker, `h`
/// help, `q` exit; any other key nothing.
pub open spec fn leader_target(code: KeyCode) -> Option<TuiCmd> {
    match code {
        KeyCode::Char(c) => if c == 'm' || c == 'M' {
            Some(TuiCmd::OpenModelPicker)
        } else if c == 'e' || c == 'E' {
            Some(TuiCmd::OpenEditor)
        } else if c == 'l' || c == 'L' {
            Some(TuiCmd::OpenSessions)
        } else if c == 'n' || c == 'N' {
            Some(TuiCmd::NewSession)
        } else if c == 'c' || c == 'C' {
            Some(TuiCmd::RunCompact)
        } else if c == 's' || c == 'S' {
            Some(TuiCmd::OpenStatus)
        } else if c == 'a' || c == 'A' {
            Some(TuiCmd::OpenAgentPicker)
        } else if c == 'h' || c == 'H' {
            Some(TuiCmd::OpenHelp)
        } else if c == 'q' || c == 'Q' {
            Some(TuiCmd::Exit)
        } else {
            None
        },
        _ => None,
    }
}

/// The command of the key pressed after the Ctrl+X leader (see [`leader_target`]).
pub fn leader_command(code: KeyCode) -> (r: Option<TuiCmd>)
    ensures
        r == leader_target(code),
{
    match code {
        KeyCode::Char(c) => {
            if c == 'm' || c == 'M' {
                Some(TuiCmd::OpenModelPicker)
            } else if c == 'e' || c == 'E' {
                Some(TuiCmd::OpenEditor)
            } else if c == 'l' || c == 'L' {
                Some(TuiCmd::OpenSessions)
            } else if c == 'n' || c == 'N' {
                Some(TuiCmd::NewSession)
            } else if c == 'c' || c == 'C' {
                Some(TuiCmd::RunCompact)
            } else if c == 's' || c == 'S' {
                Some(TuiCmd::OpenStatus)
            } else if c == 'a' || c == 'A' {
                Some(TuiCmd::OpenAgentPicker)
            } else if c == 'h' || c == 'H' {
                Some(TuiCmd::OpenHelp)
            } else if c == 'q' || c == 'Q' {
                Some(TuiCmd::Exit)
            } else {
                None
            }
        },
        _ => None,
    }
}

} // verus!
