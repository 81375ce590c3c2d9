//! Messages of the full-screen session's update loop, the global shortcuts, and the
//! routing of a message to the popup it is meant for.

use crate::branch::{branch_picker_key_step, BranchPickerAction, BranchPickerState};
use crate::keys::{KeyCode, KeyEvent, MOD_CONTROL, MOD_NONE, MOD_SHIFT};
use crate::model_picker::{model_picker_key_step, ModelPickerPopupAction, ModelPickerState};
use crate::palette::{palette_step, PaletteState};
use crate::pickers::{
    agent_picker_key_step, api_key_modal_key_step, info_modal_key_step,
    permission_picker_key_step, provider_picker_key_step, AgentPickerAction, AgentPickerState,
    ApiKeyModalAction, ApiKeyModalState, InfoModalAction, InfoModalState, PermissionPickerAction,
    PermissionPickerState, ProviderPickerAction, ProviderPickerState,
};
use crate::provider::ProviderKind;
use crate::session_picker::{session_picker_key_step, SessionPickerAction, SessionPickerState};
use crate::tui_cmd::{QuestionSelection, TuiCmd};
use vstd::prelude::*;

verus! {

/// Identifier of each component or popup of the session screen.
#[derive(Clone, Copy, PartialEq, Eq, Debug)]
pub enum CompId {
    StatusBar,
    Transcript,
    Composer,
    CommandPalette,
    ModelPicker,
    BranchPicker,
    ProviderPicker,
    AgentPicker,
    PermissionPicker,
    SessionPicker,
    ConnectModal,
    ApiKeyModal,
    InfoModal,
    SlashPanel,
    AtCompletionPanel,
    Onboarding,
}

/// A message of the update loop.
#[derive(Clone, PartialEq, Eq, Debug)]
pub enum Msg {
    /// Keyboard input.
    Key(KeyEvent),
    /// Mouse input or a runtime event, which the components here do not consume.
    External,
    /// Pasted text.
    Paste(String),
    /// The terminal was resized.
    Resize(u16, u16),
    /// Command for the runtime.
    Cmd(TuiCmd),
    /// Direct answer to the open question.
    QuestionAnswer(QuestionSelection),
    /// Raw input for the open question.
    QuestionSubmit(String),
    /// Raw input for the open approval.
    ApprovalSubmit(String),
    /// Quick approval answer.
    ApprovalQuickAnswer { approved: bool, always_allow: bool },
    /// Redraw the screen.
    Redraw,
    /// Leave the application.
    Quit,
}

/// Global shortcuts, with the state of the Ctrl+X leader key.
#[derive(Clone, Copy, PartialEq, Eq, Debug)]
pub struct GlobalListener {
    pub leader_pending: bool,
}

/// What the key after Ctrl+X does: M models, E editor, L sessions, N new session,
/// C compact, S status, A agents, H help, Q quit (either case).
pub open spec fn leader_msg(code: KeyCode) -> Option<Msg> {
    match code {
        KeyCode::Char(c) => if c == 'm' || c == 'M' {
            Some(Msg::Cmd(TuiCmd::OpenModelPicker))
        } else if c == 'e' || c == 'E' {
            Some(Msg::Cmd(TuiCmd::OpenEditor))
        } else if c == 'l' || c == 'L' {
            Some(Msg::Cmd(TuiCmd::OpenSessions))
        } else if c == 'n' || c == 'N' {
            Some(Msg::Cmd(TuiCmd::NewSession))
        } else if c == 'c' || c == 'C' {
            Some(Msg::Cmd(TuiCmd::RunCompact))
        } else if c == 's' || c == 'S' {
            Some(Msg::Cmd(TuiCmd::OpenStatus))
        } else if c == 'a' || c == 'A' {
            Some(Msg::Cmd(TuiCmd::OpenAgentPicker))
        } else if c == 'h' || c == 'H' {
            Some(Msg::Cmd(TuiCmd::OpenHelp))
        } else if c == 'q' || c == 'Q' {
            Some(Msg::Quit)
        } else {
            None
        },
        _ => None,
    }
}

/// Shortcuts without the leader: Ctrl+Q quits, Ctrl+C and a bare Esc cancel the turn,
/// F2 and Shift+F2 cycle the model forward and back.
pub open spec fn shortcut_msg(key: KeyEvent) -> Option<Msg> {
    if key.code == KeyCode::Char('q') && key.modifiers == MOD_CONTROL {
        Some(Msg::Quit)
    } else if key.code == KeyCode::Char('c') && key.modifiers == MOD_CONTROL {
        Some(Msg::Cmd(TuiCmd::CancelTurn))
    } else if key.code == KeyCode::Esc && key.modifiers == MOD_NONE {
        Some(Msg::Cmd(TuiCmd::CancelTurn))
    } else if key.code == KeyCode::F(2) && key.modifiers == MOD_NONE {
        Some(Msg::Cmd(TuiCmd::CycleModel(true)))
    } else if key.code == KeyCode::F(2) && key.modifiers == MOD_SHIFT {
        Some(Msg::Cmd(TuiCmd::CycleModel(false)))
    } else {
        None
    }
}

/// The listener's answer to a message and whether the leader is pending afterwards: after
/// Ctrl+X the next key is read as a leader command; Ctrl+X itself arms the leader.
pub open spec fn listener_on(pending: bool, ev: Msg) -> (Option<Msg>, bool) {
    match ev {
        Msg::Key(key) => if pending {
            (leader_msg(key.code), false)
        } else {
            (shortcut_msg(key), key.code == KeyCode::Char('x') && key.modifiers == MOD_CONTROL)
        },
        _ => (None, pending),
    }
}

impl GlobalListener {
    /// No leader pending.
    pub fn new() -> (r: Self)
        ensures
            !r.leader_pending,
    {
        GlobalListener { leader_pending: false }
    }

    /// Process a message; `Some` when a global shortcut was triggered (see [`listener_on`]).
    pub fn on(&mut self, msg: &Msg) -> (r: Option<Msg>)
        ensures
            (r, final(self).leader_pending) == listener_on(old(self).leader_pending, *msg),
    {
        let key = match msg {
            Msg::Key(k) => *k,
            _ => {
                return None;
            },
        };
        if self.leader_pending {
            self.leader_pending = false;
            return match key.code {
                KeyCode::Char(c) => {
                    if c == 'm' || c == 'M' {
                        Some(Msg::Cmd(TuiCmd::OpenModelPicker))
                    } else if c == 'e' || c == 'E' {
                        Some(Msg::Cmd(TuiCmd::OpenEditor))
                    } else if c == 'l' || c == 'L' {
                        Some(Msg::Cmd(TuiCmd::OpenSessions))
                    } else if c == 'n' || c == 'N' {
                        Some(Msg::Cmd(TuiCmd::NewSession))
                    } else if c == 'c' || c == 'C' {
                        Some(Msg::Cmd(TuiCmd::RunCompact))
                    } else if c == 's' || c == 'S' {
                        Some(Msg::Cmd(TuiCmd::OpenStatus))
                    } else if c == 'a' || c == 'A' {
                        Some(Msg::Cmd(TuiCmd::OpenAgentPicker))
                    } else if c == 'h' || c == 'H' {
                        Some(Msg::Cmd(TuiCmd::OpenHelp))
                    } else if c == 'q' || c == 'Q' {
                        Some(Msg::Quit)
                    } else {
                        None
                    }
                },
                _ => None,
            };
        }
        match key.code {
            KeyCode::Char(c) => {
                if key.modifiers == MOD_CONTROL {
                    if c == 'q' {
                        return Some(Msg::Quit);
                    } else if c == 'c' {
                        return Some(Msg::Cmd(TuiCmd::CancelTurn));
                    } else if c == 'x' {
                        self.leader_pending = true;
                    }
                }
                None
            },
            KeyCode::Esc => {
                if key.modifiers == MOD_NONE {
                    Some(Msg::Cmd(TuiCmd::CancelTurn))
                } else {
                    None
                }
            },
            KeyCode::F(n) => {
                if n == 2 && key.modifiers == MOD_NONE {
                    Some(Msg::Cmd(TuiCmd::CycleModel(true)))
                } else if n == 2 && key.modifiers == MOD_SHIFT {
                    Some(Msg::Cmd(TuiCmd::CycleModel(false)))
                } else {
                    None
                }
            },
            _ => None,
        }
    }
}

/// The popups of the session screen; `Some` while mounted.
pub struct Components {
    pub global_listener: GlobalListener,
    pub command_palette: Option<PaletteState>,
    pub model_picker: Option<ModelPickerState>,
    pub branch_picker: Option<BranchPickerState>,
    pub provider_picker: Option<ProviderPickerState>,
    pub agent_picker: Option<AgentPickerState>,
    pub permission_picker: Option<PermissionPickerState>,
    pub session_picker: Option<SessionPickerState>,
    pub api_key_modal: Option<ApiKeyModalState>,
    pub info_modal: Option<InfoModalState>,
}

/// The message of a model picker action.
pub open spec fn model_msg(a: ModelPickerPopupAction) -> Option<Msg> {
    match a {
        ModelPickerPopupAction::ApplyModel(m) => Some(Msg::Cmd(TuiCmd::ApplyModel(m))),
        ModelPickerPopupAction::SwitchProvider(p) => Some(Msg::Cmd(TuiCmd::ApplyModelProvider(p))),
        _ => None,
    }
}

/// The message of a branch picker action.
pub open spec fn branch_msg(a: BranchPickerAction) -> Option<Msg> {
    match a {
        BranchPickerAction::SwitchBranch(n) => Some(Msg::Cmd(TuiCmd::SwitchBranch(n))),
        BranchPickerAction::CreateBranch(n) => Some(Msg::Cmd(TuiCmd::CreateBranch(n))),
        _ => None,
    }
}

/// The message of a provider picker action.
pub open spec fn provider_msg(a: ProviderPickerAction) -> Option<Msg> {
    match a {
        ProviderPickerAction::ApplyDefaultProvider(p) => Some(Msg::Cmd(TuiCmd::ApplyDefaultProvider(p))),
        ProviderPickerAction::PromptApiKey(p) => Some(Msg::Cmd(TuiCmd::PromptApiKey(p, false))),
        _ => None,
    }
}

/// The message of an agent picker action.
pub open spec fn agent_msg(a: AgentPickerAction) -> Option<Msg> {
    match a {
        AgentPickerAction::SwitchAgent(i) => Some(Msg::Cmd(TuiCmd::SwitchAgent(i))),
        _ => None,
    }
}

/// The message of a permission picker action.
pub open spec fn permission_msg(a: PermissionPickerAction) -> Option<Msg> {
    match a {
        PermissionPickerAction::ApplyPermission(i) => Some(Msg::Cmd(TuiCmd::ApplyPermission(i))),
        _ => None,
    }
}

/// The message of a session picker action.
pub open spec fn session_msg(a: SessionPickerAction) -> Option<Msg> {
    match a {
        SessionPickerAction::ResumeSession(id) => Some(Msg::Cmd(TuiCmd::ResumeSession(id))),
        _ => None,
    }
}

/// The message of an API key modal action, for the modal's target provider (MiniMax when
/// it has none).
pub open spec fn api_key_msg(a: ApiKeyModalAction, target: Option<ProviderKind>) -> Option<Msg> {
    match a {
        ApiKeyModalAction::Confirm(k) => Some(
            Msg::Cmd(
                TuiCmd::ValidateApiKey(
                    match target {
                        Some(p) => p,
                        None => ProviderKind::MiniMax,
                    },
                    k,
                ),
            ),
        ),
        _ => None,
    }
}

/// The command palette after `key`, and the message it gives: it stays mounted while the
/// step leaves it open, and a chosen command goes to the runtime as a submitted line.
pub open spec fn palette_took_key(p0: PaletteState, s1: Option<PaletteState>, key: KeyEvent, r: Option<Msg>) -> bool {
    let (st, out) = palette_step(p0.open, p0.query@, p0.index as nat, key);
    &&& match out {
        Some(c) => r matches Some(Msg::Cmd(TuiCmd::Submit(line))) && line@ == c,
        None => r is None,
    }
    &&& if st.0 {
        s1 matches Some(p) && p.open && p.query@ == st.1 && p.index == st.2
    } else {
        s1 is None
    }
}

/// The popups other than `id` are as they were.
pub open spec fn others_unchanged(s0: Components, s1: Components, id: CompId) -> bool {
    &&& (id != CompId::CommandPalette ==> s1.command_palette == s0.command_palette)
    &&& (id != CompId::ModelPicker ==> s1.model_picker == s0.model_picker)
    &&& (id != CompId::BranchPicker ==> s1.branch_picker == s0.branch_picker)
    &&& (id != CompId::ProviderPicker ==> s1.provider_picker == s0.provider_picker)
    &&& (id != CompId::AgentPicker ==> s1.agent_picker == s0.agent_picker)
    &&& (id != CompId::PermissionPicker ==> s1.permission_picker == s0.permission_picker)
    &&& (id != CompId::SessionPicker ==> s1.session_picker == s0.session_picker)
    &&& (id != CompId::ApiKeyModal ==> s1.api_key_modal == s0.api_key_modal)
    &&& (id != CompId::InfoModal ==> s1.info_modal == s0.info_modal)
}

/// The popup `id` is mounted.
pub open spec fn mounted(c: Components, id: CompId) -> bool {
    match id {
        CompId::CommandPalette => c.command_palette is Some,
        CompId::ModelPicker => c.model_picker is Some,
        CompId::BranchPicker => c.branch_picker is Some,
        CompId::ProviderPicker => c.provider_picker is Some,
        CompId::AgentPicker => c.agent_picker is Some,
        CompId::PermissionPicker => c.permission_picker is Some,
        CompId::SessionPicker => c.session_picker is Some,
        CompId::ApiKeyModal => c.api_key_modal is Some,
        CompId::InfoModal => c.info_modal is Some,
        _ => false,
    }
}

/// The mounted popup `id` took `key`: it moved as its own key step states, stays mounted
/// only when its action was a no-op, and `r` is the action's message.
pub open spec fn popup_took_key(s0: Components, s1: Components, id: CompId, key: KeyEvent, r: Option<Msg>) -> bool {
    match id {
        CompId::CommandPalette => palette_took_key(s0.command_palette->0, s1.command_palette, key, r),
        CompId::ModelPicker => exists|p: ModelPickerState, a: ModelPickerPopupAction|
            #[trigger] model_picker_key_step(s0.model_picker->0, p, key, a) && r == model_msg(a)
                && s1.model_picker == (if a == ModelPickerPopupAction::NoOp {
                Some(p)
            } else {
                None
            }),
        CompId::BranchPicker => exists|p: BranchPickerState, a: BranchPickerAction|
            #[trigger] branch_picker_key_step(s0.branch_picker->0, p, key, a) && r == branch_msg(a)
                && s1.branch_picker == (if a == BranchPickerAction::NoOp {
                Some(p)
            } else {
                None
            }),
        CompId::ProviderPicker => exists|p: ProviderPickerState, a: ProviderPickerAction|
            #[trigger] provider_picker_key_step(s0.provider_picker->0, p, key, a) && r
                == provider_msg(a) && s1.provider_picker == (if a == ProviderPickerAction::NoOp {
                Some(p)
            } else {
                None
            }),
        CompId::AgentPicker => exists|p: AgentPickerState, a: AgentPickerAction|
            #[trigger] agent_picker_key_step(s0.agent_picker->0, p, key, a) && r == agent_msg(a)
                && s1.agent_picker == (if a == AgentPickerAction::NoOp {
                Some(p)
            } else {
                None
            }),
        CompId::PermissionPicker => exists|p: PermissionPickerState, a: PermissionPickerAction|
            #[trigger] permission_picker_key_step(s0.permission_picker->0, p, key, a) && r
                == permission_msg(a) && s1.permission_picker == (if a
                == PermissionPickerAction::NoOp {
                Some(p)
            } else {
                None
            }),
        CompId::SessionPicker => exists|p: SessionPickerState, a: SessionPickerAction|
            #[trigger] session_picker_key_step(s0.session_picker->0, p, key, a) && r == session_msg(
                a,
            ) && s1.session_picker == (if a == SessionPickerAction::NoOp {
                Some(p)
            } else {
                None
            }),
        CompId::ApiKeyModal => exists|p: ApiKeyModalState, a: ApiKeyModalAction|
            #[trigger] api_key_modal_key_step(s0.api_key_modal->0, p, key, a) && r == api_key_msg(
                a,
                p.target_provider,
            ) && s1.api_key_modal == (if a == ApiKeyModalAction::NoOp {
                Some(p)
            } else {
                None
            }),
        CompId::InfoModal => exists|p: InfoModalState, a: InfoModalAction|
            #[trigger] info_modal_key_step(s0.info_modal->0, p, key, a) && r == None::<Msg>
                && s1.info_modal == (if a == InfoModalAction::NoOp {
                Some(p)
            } else {
                None
            }),
        _ => false,
    }
}

impl Components {
    /// No popup mounted.
    pub fn new() -> (r: Self)
        ensures
            !r.global_listener.leader_pending,
            !r.is_any_popup_open_spec(),
    {
        Components {
            global_listener: GlobalListener::new(),
            command_palette: None,
            model_picker: None,
            branch_picker: None,
            provider_picker: None,
            agent_picker: None,
            permission_picker: None,
            session_picker: None,
            api_key_modal: None,
            info_modal: None,
        }
    }

    /// Some popup is mounted.
    pub open spec fn is_any_popup_open_spec(&self) -> bool {
        self.command_palette is Some || self.model_picker is Some || self.branch_picker is Some
            || self.provider_picker is Some
            || self.agent_picker is Some || self.permission_picker is Some
            || self.session_picker is Some || self.api_key_modal is Some || self.info_modal is Some
    }

    /// Whether any popup is mounted.
    pub fn is_any_popup_open(&self) -> (b: bool)
        ensures
            b == self.is_any_popup_open_spec(),
    {
        self.command_palette.is_some() || self.model_picker.is_some()
            || self.branch_picker.is_some() || self.provider_picker.is_some() || self.agent_picker.is_some()
            || self.permission_picker.is_some() || self.session_picker.is_some()
            || self.api_key_modal.is_some() || self.info_modal.is_some()
    }

    /// The value the model's `popup_open` flag takes from the current popup mounts.
    pub fn sync_popup_open(&self) -> (b: bool)
        ensures
            b == self.is_any_popup_open_spec(),
    {
        self.is_any_popup_open()
    }

    /// Route a message to component `id`: the status bar, transcript and composer take
    /// nothing here; for the others the global shortcuts come first, and then a key goes to
    /// the popup `id` when it is mounted (see [`popup_took_key`]).
    pub fn handle_event(&mut self, id: CompId, ev: &Msg) -> (r: Option<Msg>)
        ensures
            ({
                let s0 = *old(self);
                let s1 = *final(self);
                if id == CompId::StatusBar || id == CompId::Transcript || id == CompId::Composer {
                    r is None && s1 == s0
                } else {
                    let (g, pending) = listener_on(s0.global_listener.leader_pending, *ev);
                    &&& s1.global_listener.leader_pending == pending
                    &&& if g is Some {
                        r == g && others_unchanged(s0, s1, CompId::StatusBar)
                    } else if ev is Key && mounted(s0, id) {
                        others_unchanged(s0, s1, id) && popup_took_key(s0, s1, id, ev->Key_0, r)
                    } else {
                        r is None && others_unchanged(s0, s1, CompId::StatusBar)
                    }
                }
            }),
    {
        match id {
            CompId::StatusBar => {
                return None;
            },
            CompId::Transcript => {
                return None;
            },
            CompId::Composer => {
                return None;
            },
            _ => {},
        }
        if let Some(msg) = self.global_listener.on(ev) {
            return Some(msg);
        }
        let key = match ev {
            Msg::Key(k) => *k,
            _ => {
                return None;
            },
        };
        match id {
            CompId::CommandPalette => {
                if let Some(mut p) = self.command_palette.take() {
                    let chosen = p.handle_key(key);
                    if p.open {
                        self.command_palette = Some(p);
                    }
                    return match chosen {
                        Some(c) => Some(Msg::Cmd(TuiCmd::Submit(String::from_str(c)))),
                        None => None,
                    };
                }
                None
            },
            CompId::ModelPicker => {
                if let Some(mut p) = self.model_picker.take() {
                    let a = p.handle_key(key);
                    let r = match &a {
                        ModelPickerPopupAction::ApplyModel(m) => Some(
                            Msg::Cmd(TuiCmd::ApplyModel(m.clone())),
                        ),
                        ModelPickerPopupAction::SwitchProvider(q) => Some(
                            Msg::Cmd(TuiCmd::ApplyModelProvider(*q)),
                        ),
                        _ => None,
                    };
                    let keep = match &a {
                        ModelPickerPopupAction::NoOp => true,
                        _ => false,
                    };
                    let ghost pv = p;
                    if keep {
                        self.model_picker = Some(p);
                    }
                    assert(model_picker_key_step(old(self).model_picker->0, pv, key, a));
                    return r;
                }
                None
            },
            CompId::BranchPicker => {
                if let Some(mut p) = self.branch_picker.take() {
                    let a = p.handle_key(key);
                    let r = match &a {
                        BranchPickerAction::SwitchBranch(n) => Some(
                            Msg::Cmd(TuiCmd::SwitchBranch(n.clone())),
                        ),
                        BranchPickerAction::CreateBranch(n) => Some(
                            Msg::Cmd(TuiCmd::CreateBranch(n.clone())),
                        ),
                        _ => None,
                    };
                    let keep = match &a {
                        BranchPickerAction::NoOp => true,
                        _ => false,
                    };
                    let ghost pv = p;
                    if keep {
                        self.branch_picker = Some(p);
                    }
                    assert(branch_picker_key_step(old(self).branch_picker->0, pv, key, a));
                    return r;
                }
                None
            },
            CompId::ProviderPicker => {
                if let Some(mut p) = self.provider_picker.take() {
                    let a = p.handle_key(key);
                    let r = match a {
                        ProviderPickerAction::ApplyDefaultProvider(q) => Some(
                            Msg::Cmd(TuiCmd::ApplyDefaultProvider(q)),
                        ),
                        ProviderPickerAction::PromptApiKey(q) => Some(
                            Msg::Cmd(TuiCmd::PromptApiKey(q, false)),
                        ),
                        _ => None,
                    };
                    let ghost pv = p;
                    match a {
                        ProviderPickerAction::NoOp => {
                            self.provider_picker = Some(p);
                        },
                        _ => {},
                    }
                    assert(provider_picker_key_step(old(self).provider_picker->0, pv, key, a));
                    return r;
                }
                None
            },
            CompId::AgentPicker => {
                if let Some(mut p) = self.agent_picker.take() {
                    let a = p.handle_key(key);
                    let r = match a {
                        AgentPickerAction::SwitchAgent(i) => Some(Msg::Cmd(TuiCmd::SwitchAgent(i))),
                        _ => None,
                    };
                    let ghost pv = p;
                    match a {
                        AgentPickerAction::NoOp => {
                            self.agent_picker = Some(p);
                        },
                        _ => {},
                    }
                    assert(agent_picker_key_step(old(self).agent_picker->0, pv, key, a));
                    return r;
                }
                None
            },
            CompId::PermissionPicker => {
                if let Some(mut p) = self.permission_picker.take() {
                    let a = p.handle_key(key);
                    let r = match a {
                        PermissionPickerAction::ApplyPermission(i) => Some(
                            Msg::Cmd(TuiCmd::ApplyPermission(i)),
                        ),
                        _ => None,
                    };
                    let ghost pv = p;
                    match a {
                        PermissionPickerAction::NoOp => {
                            self.permission_picker = Some(p);
                        },
                        _ => {},
                    }
                    assert(permission_picker_key_step(old(self).permission_picker->0, pv, key, a));
                    return r;
                }
                None
            },
            CompId::SessionPicker => {
                if let Some(mut p) = self.session_picker.take() {
                    let a = p.handle_key(key);
                    let r = match &a {
                        SessionPickerAction::ResumeSession(id) => Some(
                            Msg::Cmd(TuiCmd::ResumeSession(id.clone())),
                        ),
                        _ => None,
                    };
                    let keep = match &a {
                        SessionPickerAction::NoOp => true,
                        _ => false,
                    };
                    let ghost pv = p;
                    if keep {
                        self.session_picker = Some(p);
                    }
                    assert(session_picker_key_step(old(self).session_picker->0, pv, key, a));
                    return r;
                }
                None
            },
            CompId::ApiKeyModal => {
                if let Some(mut p) = self.api_key_modal.take() {
                    let a = p.handle_key(key);
                    let target = match p.provider() {
                        Some(q) => q,
                        None => ProviderKind::MiniMax,
                    };
                    let r = match &a {
                        ApiKeyModalAction::Confirm(k) => Some(
                            Msg::Cmd(TuiCmd::ValidateApiKey(target, k.clone())),
                        ),
                        _ => None,
                    };
                    let keep = match &a {
                        ApiKeyModalAction::NoOp => true,
                        _ => false,
                    };
                    let ghost pv = p;
                    if keep {
                        self.api_key_modal = Some(p);
                    }
                    assert(api_key_modal_key_step(old(self).api_key_modal->0, pv, key, a));
                    return r;
                }
                None
            },
            CompId::InfoModal => {
                if let Some(mut p) = self.info_modal.take() {
                    let a = p.handle_key(key);
                    let ghost pv = p;
                    match a {
                        InfoModalAction::NoOp => {
                            self.info_modal = Some(p);
                        },
                        _ => {},
                    }
                    assert(info_modal_key_step(old(self).info_modal->0, pv, key, a));
                    return None;
                }
                None
            },
            _ => None,
        }
    }
}

} // verus!
