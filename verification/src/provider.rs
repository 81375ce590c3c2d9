//! LLM providers and permission modes as the CLI names them.

use crate::text::{chars_of, lower_vec, eq_vec, lower};
use vstd::prelude::*;

verus! {

/// The LLM providers the assistant can talk to.
#[derive(Clone, Copy, PartialEq, Eq, Debug, Structural)]
pub enum ProviderKind {
    MiniMax,
    OpenAi,
    Anthropic,
    OpenRouter,
    ZhipuAI,
    DeepSeek,
}

/// All providers, in picker order.
pub open spec fn all_providers() -> Seq<ProviderKind> {
    seq![
        ProviderKind::MiniMax,
        ProviderKind::OpenAi,
        ProviderKind::Anthropic,
        ProviderKind::OpenRouter,
        ProviderKind::ZhipuAI,
        ProviderKind::DeepSeek,
    ]
}

/// Number of providers.
pub const PROVIDER_COUNT: usize = 6;

impl ProviderKind {
    /// The provider at `index` of [`all_providers`].
    pub fn from_index(index: usize) -> (r: ProviderKind)
        requires
            index < PROVIDER_COUNT,
        ensures
            r == all_providers()[index as int],
    {
        match index {
            0 => ProviderKind::MiniMax,
            1 => ProviderKind::OpenAi,
            2 => ProviderKind::Anthropic,
            3 => ProviderKind::OpenRouter,
            4 => ProviderKind::ZhipuAI,
            _ => ProviderKind::DeepSeek,
        }
    }

    /// All providers, in picker order.
    pub fn all() -> (r: Vec<ProviderKind>)
        ensures
            r@ == all_providers(),
    {
        let r = vec![
            ProviderKind::MiniMax,
            ProviderKind::OpenAi,
            ProviderKind::Anthropic,
            ProviderKind::OpenRouter,
            ProviderKind::ZhipuAI,
            ProviderKind::DeepSeek,
        ];
        assert(r@ =~= all_providers());
        r
    }

    /// The name shown for the provider.
    pub fn display_name(&self) -> (r: &'static str)
        ensures
            r@ == provider_display_name(*self),
    {
        match self {
            ProviderKind::MiniMax => "MiniMax",
            ProviderKind::OpenAi => "OpenAI",
            ProviderKind::Anthropic => "Anthropic",
            ProviderKind::OpenRouter => "OpenRouter",
            ProviderKind::ZhipuAI => "ZhipuAI",
            ProviderKind::DeepSeek => "DeepSeek",
        }
    }
}

/// The name shown for a provider.
pub open spec fn provider_display_name(p: ProviderKind) -> Seq<char> {
    match p {
        ProviderKind::MiniMax => "MiniMax"@,
        ProviderKind::OpenAi => "OpenAI"@,
        ProviderKind::Anthropic => "Anthropic"@,
        ProviderKind::OpenRouter => "OpenRouter"@,
        ProviderKind::ZhipuAI => "ZhipuAI"@,
        ProviderKind::DeepSeek => "DeepSeek"@,
    }
}

/// How tool calls are approved.
#[derive(Clone, Copy, PartialEq, Eq, Debug)]
pub enum PermissionMode {
    Default,
    Plan,
    AcceptEdits,
    DontAsk,
    BypassPermissions,
}

/// The permission modes in picker order.
pub open spec fn all_permission_modes() -> Seq<PermissionMode> {
    seq![
        PermissionMode::Default,
        PermissionMode::Plan,
        PermissionMode::AcceptEdits,
        PermissionMode::DontAsk,
        PermissionMode::BypassPermissions,
    ]
}

/// `s` without `-` and `_`, ASCII lower-cased.
pub open spec fn squash(s: Seq<char>) -> Seq<char> {
    lower(s).filter(|c: char| c != '-' && c != '_')
}

/// The permission mode a name denotes: the variant names, compared case-insensitively and
/// ignoring `-` and `_` (so `accept-edits`, `dontask` and `bypass_permissions` all parse).
pub open spec fn permission_mode_named(s: Seq<char>) -> Option<PermissionMode> {
    let q = squash(s);
    if q == "default"@ {
        Some(PermissionMode::Default)
    } else if q == "plan"@ {
        Some(PermissionMode::Plan)
    } else if q == "acceptedits"@ {
        Some(PermissionMode::AcceptEdits)
    } else if q == "dontask"@ {
        Some(PermissionMode::DontAsk)
    } else if q == "bypasspermissions"@ {
        Some(PermissionMode::BypassPermissions)
    } else {
        None
    }
}

impl PermissionMode {
    /// The mode at `index` of the picker order; indices past the end give the last mode.
    pub fn from_index(index: usize) -> (r: PermissionMode)
        ensures
            r == all_permission_modes()[if index < 5 { index as int } else { 4 }],
    {
        match index {
            0 => PermissionMode::Default,
            1 => PermissionMode::Plan,
            2 => PermissionMode::AcceptEdits,
            3 => PermissionMode::DontAsk,
            _ => PermissionMode::BypassPermissions,
        }
    }

    /// Parse a permission mode name (see [`permission_mode_named`]).
    pub fn parse_name(s: &str) -> (r: Option<PermissionMode>)
        ensures
            r == permission_mode_named(s@),
    {
        let low = lower_vec(&chars_of(s));
        let mut q: Vec<char> = Vec::new();
        let mut i: usize = 0;
        let ghost pred = |c: char| c != '-' && c != '_';
        while i < low.len()
            invariant
                i <= low@.len(),
                low@ == lower(s@),
                pred == (|c: char| c != '-' && c != '_'),
                q@ == low@.take(i as int).filter(pred),
            decreases low@.len() - i,
        {
            assert(low@.take(i + 1).drop_last() =~= low@.take(i as int));
            assert(low@.take(i + 1).last() == low@[i as int]);
            reveal_with_fuel(Seq::filter, 1);
            if low[i] != '-' && low[i] != '_' {
                q.push(low[i]);
            }
            i += 1;
        }
        assert(low@.take(low@.len() as int) =~= low@);
        if eq_vec(&q, &chars_of("default")) {
            Some(PermissionMode::Default)
        } else if eq_vec(&q, &chars_of("plan")) {
            Some(PermissionMode::Plan)
        } else if eq_vec(&q, &chars_of("acceptedits")) {
            Some(PermissionMode::AcceptEdits)
        } else if eq_vec(&q, &chars_of("dontask")) {
            Some(PermissionMode::DontAsk)
        } else if eq_vec(&q, &chars_of("bypasspermissions")) {
            Some(PermissionMode::BypassPermissions)
        } else {
            None
        }
    }
}

/// A name that is no permission mode.
#[derive(Clone, Copy, PartialEq, Eq, Debug)]
pub struct UnknownPermissionMode;

impl std::str::FromStr for PermissionMode {
    type Err = UnknownPermissionMode;

    fn from_str(s: &str) -> (r: Result<Self, Self::Err>)
        ensures
            match permission_mode_named(s@) {
                Some(m) => r == Ok::<PermissionMode, UnknownPermissionMode>(m),
                None => r == Err::<PermissionMode, UnknownPermissionMode>(UnknownPermissionMode),
            },
    {
        match PermissionMode::parse_name(s) {
            Some(m) => Ok(m),
            None => Err(UnknownPermissionMode),
        }
    }
}

} // verus!
