//! Which part of the session screen a key or mouse event goes to while popups are open.

use vstd::prelude::*;

verus! {

/// The popups, modals and prefixes of the session screen that are open or pending.
#[derive(Clone, Copy, PartialEq, Eq, Debug)]
pub struct OpenPopups {
    pub command_palette: bool,
    pub info_modal: bool,
    pub model_picker: bool,
    pub connect_modal: bool,
    pub api_key_modal: bool,
    pub provider_picker: bool,
    pub branch_picker: bool,
    pub question_modal: bool,
    pub permission_picker: bool,
    pub agent_picker: bool,
    pub session_picker: bool,
    /// Ctrl+X was pressed and the next key picks a command.
    pub leader_pending: bool,
}

/// The part that handles a key.
#[derive(Clone, Copy, PartialEq, Eq, Debug)]
pub enum KeyTarget {
    CommandPalette,
    InfoModal,
    ModelPicker,
    ConnectModal,
    ApiKeyModal,
    ProviderPicker,
    BranchPicker,
    QuestionModal,
    PermissionPicker,
    AgentPicker,
    SessionPicker,
    Leader,
    /// The composer and the screen's own shortcuts.
    Composer,
}

/// The first open part in the order palette, info modal, model picker, connect modal, API
/// key modal, provider picker, branch picker, question modal, permission picker, agent
/// picker, session picker, pending leader key; the composer when none is.
pub open spec fn key_target_of(p: OpenPopups) -> KeyTarget {
    if p.command_palette {
        KeyTarget::CommandPalette
    } else if p.info_modal {
        KeyTarget::InfoModal
    } else if p.model_picker {
        KeyTarget::ModelPicker
    } else if p.connect_modal {
        KeyTarget::ConnectModal
    } else if p.api_key_modal {
        KeyTarget::ApiKeyModal
    } else if p.provider_picker {
        KeyTarget::ProviderPicker
    } else if p.branch_picker {
        KeyTarget::BranchPicker
    } else if p.question_modal {
        KeyTarget::QuestionModal
    } else if p.permission_picker {
        KeyTarget::PermissionPicker
    } else if p.agent_picker {
        KeyTarget::AgentPicker
    } else if p.session_picker {
        KeyTarget::SessionPicker
    } else if p.leader_pending {
        KeyTarget::Leader
    } else {
        KeyTarget::Composer
    }
}

/// The part that handles a key press (see [`key_target_of`]).
pub fn key_target(p: &OpenPopups) -> (r: KeyTarget)
    ensures
        r == key_target_of(*p),
{
    if p.command_palette {
        KeyTarget::CommandPalette
    } else if p.info_modal {
        KeyTarget::InfoModal
    } else if p.model_picker {
        KeyTarget::ModelPicker
    } else if p.connect_modal {
        KeyTarget::ConnectModal
    } else if p.api_key_modal {
        KeyTarget::ApiKeyModal
    } else if p.provider_picker {
        KeyTarget::ProviderPicker
    } else if p.branch_picker {
        KeyTarget::BranchPicker
    } else if p.question_modal {
        KeyTarget::QuestionModal
    } else if p.permission_picker {
        KeyTarget::PermissionPicker
    } else if p.agent_picker {
        KeyTarget::AgentPicker
    } else if p.session_picker {
        KeyTarget::SessionPicker
    } else if p.leader_pending {
        KeyTarget::Leader
    } else {
        KeyTarget::Composer
    }
}

/// Mouse events are dropped while the palette, a modal or a picker other than the branch
/// picker is open.
pub open spec fn mouse_blocked_by(p: OpenPopups) -> bool {
    p.command_palette || p.info_modal || p.model_picker || p.connect_modal || p.api_key_modal
        || p.provider_picker || p.permission_picker || p.agent_picker || p.session_picker
        || p.question_modal
}

/// Whether a mouse event is dropped (see [`mouse_blocked_by`]).
pub fn mouse_blocked(p: &OpenPopups) -> (r: bool)
    ensures
        r == mouse_blocked_by(*p),
{
    p.command_palette || p.info_modal || p.model_picker || p.connect_modal || p.api_key_modal
        || p.provider_picker || p.permission_picker || p.agent_picker || p.session_picker
        || p.question_modal
}

/// With nothing open or pending, keys go to the composer; an open palette takes every key.
pub proof fn law_composer_gets_keys_only_when_nothing_is_open(p: OpenPopups)
    ensures
        key_target_of(p) == KeyTarget::Composer <==> !(p.command_palette || p.info_modal
            || p.model_picker || p.connect_modal || p.api_key_modal || p.provider_picker
            || p.branch_picker || p.question_modal || p.permission_picker || p.agent_picker
            || p.session_picker || p.leader_pending),
        p.command_palette ==> key_target_of(p) == KeyTarget::CommandPalette,
{
}

} // verus!
