//! Popup pickers of the full-screen session: agent, permission, provider, info, API key.

use crate::keys::{is_typing, KeyCode, KeyEvent, MOD_NONE};
use crate::provider::{all_providers, ProviderKind, PROVIDER_COUNT};
use crate::searchable_list::{dec, min, sat_sub, step_down};
use crate::text::{chars_of, clear_string, pop_char, push_char, string_of, trim, trim_vec};
use vstd::prelude::*;

verus! {

/// Rows the agent picker shows before it scrolls.
pub const AGENT_PICKER_MAX_ROWS: usize = 12;

/// Agent profile picker state.
pub struct AgentPickerState {
    pub index: usize,
    /// `(display name, description)` of each agent, set when the picker opens.
    pub labels: Vec<(String, String)>,
}

/// Action of the agent picker.
#[derive(Clone, Copy, PartialEq, Eq, Debug)]
pub enum AgentPickerAction {
    NoOp,
    Close,
    SwitchAgent(usize),
}

/// The agent picker's scroll offset and row count: the first `min(total, 12)` rows, or a
/// window that keeps the selection near its middle.
pub open spec fn agent_window(index: nat, total: nat) -> (nat, nat) {
    let n_show = min(total as int, AGENT_PICKER_MAX_ROWS as int) as nat;
    if total <= n_show {
        (0, n_show)
    } else {
        (min(sat_sub(index as int, (n_show / 2) as int) as int, total - n_show) as nat, n_show)
    }
}

impl AgentPickerState {
    /// A closed picker with no agents.
    pub fn new() -> (r: Self)
        ensures
            r.index == 0,
            r.labels@.len() == 0,
    {
        AgentPickerState { index: 0, labels: Vec::new() }
    }

    /// Show `labels` with the current agent selected (clamped to the last).
    pub fn open(&mut self, labels: Vec<(String, String)>, current_index: usize)
        ensures
            final(self).labels == labels,
            final(self).index == min(current_index as int, sat_sub(labels@.len() as int, 1) as int),
    {
        self.labels = labels;
        let max = if self.labels.len() >= 1 {
            self.labels.len() - 1
        } else {
            0
        };
        self.index = if current_index < max {
            current_index
        } else {
            max
        };
    }

    /// Reset the selection.
    pub fn close(&mut self)
        ensures
            final(self).index == 0,
            final(self).labels == old(self).labels,
    {
        self.index = 0;
    }

    /// A mounted picker is open.
    pub fn is_open(&self) -> (r: bool)
        ensures
            r,
    {
        true
    }

    /// Handle a key: arrows move within the list, Enter picks, Esc closes.
    pub fn handle_key(&mut self, key: KeyEvent) -> (r: AgentPickerAction)
        ensures
            agent_picker_key_step(*old(self), *final(self), key, r),
    {
        let count = if self.labels.len() >= 1 {
            self.labels.len()
        } else {
            1
        };
        match key.code {
            KeyCode::Esc => AgentPickerAction::Close,
            KeyCode::Up => {
                if self.index > 0 {
                    self.index = self.index - 1;
                }
                AgentPickerAction::NoOp
            },
            KeyCode::Down => {
                self.index = if self.index < count - 1 {
                    self.index + 1
                } else {
                    count - 1
                };
                AgentPickerAction::NoOp
            },
            KeyCode::Enter => AgentPickerAction::SwitchAgent(self.index),
            _ => AgentPickerAction::NoOp,
        }
    }

    /// Scroll offset and number of shown rows (see [`agent_window`]).
    pub fn visible_window(&self) -> (r: (usize, usize))
        ensures
            (r.0 as nat, r.1 as nat) == agent_window(self.index as nat, self.labels@.len()),
    {
        let total = self.labels.len();
        let n_show = if total < AGENT_PICKER_MAX_ROWS {
            total
        } else {
            AGENT_PICKER_MAX_ROWS
        };
        if total <= n_show {
            return (0, n_show);
        }
        let half = n_show / 2;
        let back = if self.index >= half {
            self.index - half
        } else {
            0
        };
        let cap = total - n_show;
        (if back < cap {
            back
        } else {
            cap
        }, n_show)
    }
}

/// Number of permission modes in the picker.
pub const PERMISSION_COUNT: usize = 5;

/// The permission modes' labels, in picker order.
pub open spec fn permission_labels() -> Seq<Seq<char>> {
    seq!["Default"@, "Plan"@, "AcceptEdits"@, "DontAsk"@, "BypassPermissions"@]
}

/// Permission mode picker state.
pub struct PermissionPickerState {
    pub index: usize,
}

/// Action of the permission picker.
#[derive(Clone, Copy, PartialEq, Eq, Debug)]
pub enum PermissionPickerAction {
    NoOp,
    Close,
    ApplyPermission(usize),
}

impl PermissionPickerState {
    /// Picker at the first mode.
    pub fn new() -> (r: Self)
        ensures
            r.index == 0,
    {
        PermissionPickerState { index: 0 }
    }

    /// Open at the current mode (clamped to the last).
    pub fn open(&mut self, current_index: usize)
        ensures
            final(self).index == min(current_index as int, PERMISSION_COUNT - 1),
    {
        self.index = if current_index < PERMISSION_COUNT - 1 {
            current_index
        } else {
            PERMISSION_COUNT - 1
        };
    }

    /// Reset the selection.
    pub fn close(&mut self)
        ensures
            final(self).index == 0,
    {
        self.index = 0;
    }

    /// A mounted picker is open.
    pub fn is_open(&self) -> (r: bool)
        ensures
            r,
    {
        true
    }

    /// Handle a key: arrows move within the five modes, Enter applies, Esc closes.
    pub fn handle_key(&mut self, key: KeyEvent) -> (r: PermissionPickerAction)
        ensures
            permission_picker_key_step(*old(self), *final(self), key, r),
    {
        match key.code {
            KeyCode::Esc => PermissionPickerAction::Close,
            KeyCode::Up => {
                if self.index > 0 {
                    self.index = self.index - 1;
                }
                PermissionPickerAction::NoOp
            },
            KeyCode::Down => {
                self.index = if self.index < PERMISSION_COUNT - 1 {
                    self.index + 1
                } else {
                    PERMISSION_COUNT - 1
                };
                PermissionPickerAction::NoOp
            },
            KeyCode::Enter => PermissionPickerAction::ApplyPermission(self.index),
            _ => PermissionPickerAction::NoOp,
        }
    }
}

/// Provider picker state: for the default provider, or for the API key target.
pub struct ProviderPickerState {
    pub index: usize,
    pub for_api_key: bool,
}

/// Action of the provider picker.
#[derive(Clone, Copy, PartialEq, Eq, Debug)]
pub enum ProviderPickerAction {
    NoOp,
    Close,
    ApplyDefaultProvider(ProviderKind),
    PromptApiKey(ProviderKind),
}

impl ProviderPickerState {
    /// Picker at the first provider, for the default provider.
    pub fn new() -> (r: Self)
        ensures
            r.index == 0,
            !r.for_api_key,
    {
        ProviderPickerState { index: 0, for_api_key: false }
    }

    /// Open at the first provider.
    pub fn open(&mut self, for_api_key: bool)
        ensures
            final(self).index == 0,
            final(self).for_api_key == for_api_key,
    {
        self.for_api_key = for_api_key;
        self.index = 0;
    }

    /// Reset the selection.
    pub fn close(&mut self)
        ensures
            final(self).index == 0,
            final(self).for_api_key == old(self).for_api_key,
    {
        self.index = 0;
    }

    /// A mounted picker is open.
    pub fn is_open(&self) -> (r: bool)
        ensures
            r,
    {
        true
    }

    /// Handle a key: Up stops at the top, Down wraps around, Enter picks the provider.
    pub fn handle_key(&mut self, key: KeyEvent) -> (r: ProviderPickerAction)
        ensures
            provider_picker_key_step(*old(self), *final(self), key, r),
    {
        match key.code {
            KeyCode::Esc => ProviderPickerAction::Close,
            KeyCode::Up => {
                if self.index > 0 {
                    self.index = self.index - 1;
                }
                ProviderPickerAction::NoOp
            },
            KeyCode::Down => {
                self.index = (self.index % PROVIDER_COUNT + 1) % PROVIDER_COUNT;
                ProviderPickerAction::NoOp
            },
            KeyCode::Enter => {
                let i = if self.index < PROVIDER_COUNT - 1 {
                    self.index
                } else {
                    PROVIDER_COUNT - 1
                };
                let p = ProviderKind::from_index(i);
                if self.for_api_key {
                    ProviderPickerAction::PromptApiKey(p)
                } else {
                    ProviderPickerAction::ApplyDefaultProvider(p)
                }
            },
            _ => ProviderPickerAction::NoOp,
        }
    }
}

/// Lines an info modal shows at once.
pub const INFO_MODAL_MAX_VIS: usize = 16;

/// A read-only scrollable popup (help, status, …).
pub struct InfoModalState {
    pub title: String,
    pub lines: Vec<String>,
    pub scroll: usize,
}

/// Action of the info modal.
#[derive(Clone, Copy, PartialEq, Eq, Debug)]
pub enum InfoModalAction {
    NoOp,
    Close,
}

impl InfoModalState {
    /// An empty modal.
    pub fn new() -> (r: Self)
        ensures
            r.title@.len() == 0,
            r.lines@.len() == 0,
            r.scroll == 0,
    {
        InfoModalState { title: String::new(), lines: Vec::new(), scroll: 0 }
    }

    /// Show `lines` under `title`, from the top.
    pub fn open(&mut self, title: String, lines: Vec<String>)
        ensures
            final(self).title == title,
            final(self).lines == lines,
            final(self).scroll == 0,
    {
        self.title = title;
        self.lines = lines;
        self.scroll = 0;
    }

    /// Empty the modal.
    pub fn close(&mut self)
        ensures
            final(self).title@.len() == 0,
            final(self).lines@.len() == 0,
            final(self).scroll == 0,
    {
        clear_string(&mut self.title);
        self.lines.clear();
        self.scroll = 0;
    }

    /// A mounted modal is open.
    pub fn is_open(&self) -> (r: bool)
        ensures
            r,
    {
        true
    }

    /// Handle a key: Esc or `q` closes; Up/`k` and Down/`j` scroll one line within the
    /// text; Home and End jump to the top and the last page.
    pub fn handle_key(&mut self, key: KeyEvent) -> (r: InfoModalAction)
        ensures
            info_modal_key_step(*old(self), *final(self), key, r),
    {
        let plain = key.modifiers == 0;
        let max_scroll = if self.lines.len() >= INFO_MODAL_MAX_VIS {
            self.lines.len() - INFO_MODAL_MAX_VIS
        } else {
            0
        };
        match key.code {
            KeyCode::Esc => InfoModalAction::Close,
            KeyCode::Char('q') if plain => InfoModalAction::Close,
            KeyCode::Up => {
                if self.scroll > 0 {
                    self.scroll = self.scroll - 1;
                }
                InfoModalAction::NoOp
            },
            KeyCode::Char('k') if plain => {
                if self.scroll > 0 {
                    self.scroll = self.scroll - 1;
                }
                InfoModalAction::NoOp
            },
            KeyCode::Down => {
                self.scroll = if self.scroll < max_scroll {
                    self.scroll + 1
                } else {
                    max_scroll
                };
                InfoModalAction::NoOp
            },
            KeyCode::Char('j') if plain => {
                self.scroll = if self.scroll < max_scroll {
                    self.scroll + 1
                } else {
                    max_scroll
                };
                InfoModalAction::NoOp
            },
            KeyCode::Home => {
                self.scroll = 0;
                InfoModalAction::NoOp
            },
            KeyCode::End => {
                self.scroll = max_scroll;
                InfoModalAction::NoOp
            },
            _ => InfoModalAction::NoOp,
        }
    }
}

/// API key entry modal.
pub struct ApiKeyModalState {
    pub target_provider: Option<ProviderKind>,
    pub input: String,
    pub has_existing: bool,
    pub connect_after_save: bool,
}

/// Action of the API key modal.
#[derive(Clone, PartialEq, Eq, Debug)]
pub enum ApiKeyModalAction {
    NoOp,
    Close,
    /// Confirm with the trimmed input.
    Confirm(String),
}

impl ApiKeyModalState {
    /// A modal with no target and no input.
    pub fn new() -> (r: Self)
        ensures
            r.target_provider is None,
            r.input@.len() == 0,
            !r.has_existing,
            !r.connect_after_save,
    {
        ApiKeyModalState {
            target_provider: None,
            input: String::new(),
            has_existing: false,
            connect_after_save: false,
        }
    }

    /// Ask for the key of `provider`.
    pub fn open(&mut self, provider: ProviderKind, has_existing: bool, connect_after_save: bool)
        ensures
            final(self).target_provider == Some(provider),
            final(self).has_existing == has_existing,
            final(self).connect_after_save == connect_after_save,
            final(self).input@.len() == 0,
    {
        self.target_provider = Some(provider);
        self.has_existing = has_existing;
        self.connect_after_save = connect_after_save;
        clear_string(&mut self.input);
    }

    /// Forget the target and the input.
    pub fn close(&mut self)
        ensures
            final(self).target_provider is None,
            final(self).input@.len() == 0,
            final(self).has_existing == old(self).has_existing,
            final(self).connect_after_save == old(self).connect_after_save,
    {
        self.target_provider = None;
        clear_string(&mut self.input);
    }

    /// A mounted modal is open.
    pub fn is_open(&self) -> (r: bool)
        ensures
            r,
    {
        true
    }

    /// The target provider.
    pub fn provider(&self) -> (r: Option<ProviderKind>)
        ensures
            r == self.target_provider,
    {
        self.target_provider
    }

    /// Whether to connect after saving the key.
    pub fn connect_after(&self) -> (r: bool)
        ensures
            r == self.connect_after_save,
    {
        self.connect_after_save
    }

    /// Handle a key: typing edits the input, Enter confirms the trimmed input, Esc closes.
    pub fn handle_key(&mut self, key: KeyEvent) -> (r: ApiKeyModalAction)
        ensures
            api_key_modal_key_step(*old(self), *final(self), key, r),
    {
        match key.code {
            KeyCode::Esc => ApiKeyModalAction::Close,
            KeyCode::Enter => {
                let k = string_of(&trim_vec(&chars_of(self.input.as_str())));
                ApiKeyModalAction::Confirm(k)
            },
            KeyCode::Backspace => {
                pop_char(&mut self.input);
                ApiKeyModalAction::NoOp
            },
            KeyCode::Char(c) => {
                if key.modifiers == 0 || key.modifiers == 1 {
                    push_char(&mut self.input, c);
                }
                ApiKeyModalAction::NoOp
            },
            _ => ApiKeyModalAction::NoOp,
        }
    }
}

/// One key press of [`AgentPickerState::handle_key`]: the state goes from `s0` to `s1` and the
/// action is `r`.
pub open spec fn agent_picker_key_step(
    s0: AgentPickerState,
    s1: AgentPickerState,
    key: KeyEvent,
    r: AgentPickerAction,
) -> bool {
    &&& s1.labels == s0.labels
    &&& match key.code {
            KeyCode::Esc => r == AgentPickerAction::Close && s1.index == s0.index,
            KeyCode::Up => r == AgentPickerAction::NoOp && s1.index == dec(s0.index as nat),
            KeyCode::Down => r == AgentPickerAction::NoOp && s1.index == step_down(
                s0.index as nat,
                if s0.labels@.len() >= 1 { s0.labels@.len() } else { 1 },
            ),
            KeyCode::Enter => r == AgentPickerAction::SwitchAgent(s0.index) && s1.index
                == s0.index,
            _ => r == AgentPickerAction::NoOp && s1.index == s0.index,
        }
}

/// One key press of [`PermissionPickerState::handle_key`]: the state goes from `s0` to `s1` and the
/// action is `r`.
pub open spec fn permission_picker_key_step(
    s0: PermissionPickerState,
    s1: PermissionPickerState,
    key: KeyEvent,
    r: PermissionPickerAction,
) -> bool {
    &&& match key.code {
            KeyCode::Esc => r == PermissionPickerAction::Close && s1.index == s0.index,
            KeyCode::Up => r == PermissionPickerAction::NoOp && s1.index == dec(s0.index as nat),
            KeyCode::Down => r == PermissionPickerAction::NoOp && s1.index == step_down(
                s0.index as nat,
                PERMISSION_COUNT as nat,
            ),
            KeyCode::Enter => r == PermissionPickerAction::ApplyPermission(s0.index)
                && s1.index == s0.index,
            _ => r == PermissionPickerAction::NoOp && s1.index == s0.index,
        }
}

/// One key press of [`ProviderPickerState::handle_key`]: the state goes from `s0` to `s1` and the
/// action is `r`.
pub open spec fn provider_picker_key_step(
    s0: ProviderPickerState,
    s1: ProviderPickerState,
    key: KeyEvent,
    r: ProviderPickerAction,
) -> bool {
    &&& s1.for_api_key == s0.for_api_key
    &&& match key.code {
            KeyCode::Esc => r == ProviderPickerAction::Close && s1.index == s0.index,
            KeyCode::Up => r == ProviderPickerAction::NoOp && s1.index == dec(s0.index as nat),
            KeyCode::Down => r == ProviderPickerAction::NoOp && s1.index == (s0.index
                + 1) % (PROVIDER_COUNT as int),
            KeyCode::Enter => s1.index == s0.index && {
                let p = all_providers()[min(s0.index as int, PROVIDER_COUNT - 1)];
                r == if s0.for_api_key {
                    ProviderPickerAction::PromptApiKey(p)
                } else {
                    ProviderPickerAction::ApplyDefaultProvider(p)
                }
            },
            _ => r == ProviderPickerAction::NoOp && s1.index == s0.index,
        }
}

/// One key press of [`InfoModalState::handle_key`]: the state goes from `s0` to `s1` and the
/// action is `r`.
pub open spec fn info_modal_key_step(
    s0: InfoModalState,
    s1: InfoModalState,
    key: KeyEvent,
    r: InfoModalAction,
) -> bool {
    &&& s1.title == s0.title
    &&& s1.lines == s0.lines
    &&& ({
            let max_scroll = sat_sub(s0.lines@.len() as int, INFO_MODAL_MAX_VIS as int);
            let plain = key.modifiers == MOD_NONE;
            if key.code == KeyCode::Esc || (key.code == KeyCode::Char('q') && plain) {
                r == InfoModalAction::Close && s1.scroll == s0.scroll
            } else if key.code == KeyCode::Up || (key.code == KeyCode::Char('k') && plain) {
                r == InfoModalAction::NoOp && s1.scroll == dec(s0.scroll as nat)
            } else if key.code == KeyCode::Down || (key.code == KeyCode::Char('j') && plain) {
                r == InfoModalAction::NoOp && s1.scroll == min(s0.scroll + 1, max_scroll as int)
            } else if key.code == KeyCode::Home {
                r == InfoModalAction::NoOp && s1.scroll == 0
            } else if key.code == KeyCode::End {
                r == InfoModalAction::NoOp && s1.scroll == max_scroll
            } else {
                r == InfoModalAction::NoOp && s1.scroll == s0.scroll
            }
        })
}

/// One key press of [`ApiKeyModalState::handle_key`]: the state goes from `s0` to `s1` and the
/// action is `r`.
pub open spec fn api_key_modal_key_step(
    s0: ApiKeyModalState,
    s1: ApiKeyModalState,
    key: KeyEvent,
    r: ApiKeyModalAction,
) -> bool {
    &&& s1.target_provider == s0.target_provider
    &&& s1.has_existing == s0.has_existing
    &&& s1.connect_after_save == s0.connect_after_save
    &&& match key.code {
            KeyCode::Esc => r == ApiKeyModalAction::Close && s1.input == s0.input,
            KeyCode::Enter => s1.input == s0.input && (r matches ApiKeyModalAction::Confirm(k)
                && k@ == trim(s0.input@)),
            KeyCode::Backspace => r == ApiKeyModalAction::NoOp && s1.input@ == (if s0.input@.len() > 0 {
                s0.input@.drop_last()
            } else {
                s0.input@
            }),
            KeyCode::Char(c) => r == ApiKeyModalAction::NoOp && s1.input@ == (if is_typing(key) {
                s0.input@.push(c)
            } else {
                s0.input@
            }),
            _ => r == ApiKeyModalAction::NoOp && s1.input == s0.input,
        }
}

} // verus!
