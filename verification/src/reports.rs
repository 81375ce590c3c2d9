//! Text reports of the configuration: `nca models` and `nca config`.

use crate::session::{dec, push_decimal};
use vstd::prelude::*;

verus! {

/// One provider's model as `nca models` shows it.
#[derive(Clone, Debug, PartialEq, Eq)]
pub struct ProviderModel {
    pub provider: String,
    pub model: String,
    pub base_url: String,
    pub selected: bool,
}

/// Retry settings for empty responses.
#[derive(Clone, Copy, Debug, PartialEq, Eq)]
pub struct RetrySettings {
    pub max_empty_response_retries: u64,
    pub empty_response_backoff_initial_ms: u64,
    pub empty_response_backoff_max_ms: u64,
}

/// What `nca models` shows.
#[derive(Clone, Debug, PartialEq, Eq)]
pub struct ModelCatalog {
    pub default_provider: String,
    pub default_model: String,
    pub provider_models: Vec<ProviderModel>,
    /// Alias and target, in alias order.
    pub aliases: Vec<(String, String)>,
    pub thinking_enabled: bool,
    pub thinking_budget: u32,
    /// Shown only in verbose mode.
    pub retry: Option<RetrySettings>,
}

/// The line of a provider's model.
pub open spec fn provider_model_line(p: ProviderModel) -> Seq<char> {
    "  "@ + p.provider@ + (if p.selected { " [selected]"@ } else { Seq::empty() }) + " -> "@ + p.model@
        + " ("@ + p.base_url@ + ")"@
}

/// The lines of `nca models`: the defaults, thinking, each provider's model, the aliases,
/// and in verbose mode the retry settings.
pub open spec fn catalog_lines(c: ModelCatalog) -> Seq<Seq<char>> {
    seq![
        "Default provider/model: "@ + c.default_provider@ + " / "@ + c.default_model@,
        "Thinking: "@ + (if c.thinking_enabled { "on"@ } else { "off"@ }) + " (budget "@ + dec(
            c.thinking_budget as nat,
        ) + ")"@,
        "Provider models:"@,
    ] + c.provider_models@.map_values(|p: ProviderModel| provider_model_line(p)) + c.aliases@.map_values(
        |a: (String, String)| "  "@ + a.0@ + " -> "@ + a.1@,
    ) + match c.retry {
        Some(r) => seq![
            "Empty-response retries: max "@ + dec(r.max_empty_response_retries as nat)
                + " (exponential backoff "@ + dec(r.empty_response_backoff_initial_ms as nat)
                + "ms → cap "@ + dec(r.empty_response_backoff_max_ms as nat) + "ms)"@,
        ],
        None => seq![],
    }
}

fn push_views_eq(out: &mut Vec<String>, s: String)
    ensures
        crate::wrap::views(final(out)@) == crate::wrap::views(old(out)@).push(s@),
{
    let ghost o = crate::wrap::views(out@);
    let ghost v = s@;
    out.push(s);
    assert(crate::wrap::views(out@) =~= o.push(v));
}

/// The lines of `nca models` (see [`catalog_lines`]).
pub fn model_catalog_lines(c: &ModelCatalog) -> (r: Vec<String>)
    ensures
        crate::wrap::views(r@) == catalog_lines(*c),
{
    let mut out: Vec<String> = Vec::new();
    let mut first = "Default provider/model: ".to_owned();
    first.append(c.default_provider.as_str());
    first.append(" / ");
    first.append(c.default_model.as_str());
    push_views_eq(&mut out, first);
    let mut second = "Thinking: ".to_owned();
    second.append(if c.thinking_enabled { "on" } else { "off" });
    second.append(" (budget ");
    push_decimal(&mut second, c.thinking_budget as u64);
    second.append(")");
    push_views_eq(&mut out, second);
    push_views_eq(&mut out, "Provider models:".to_owned());
    let ghost head = crate::wrap::views(out@);
    let mut i: usize = 0;
    while i < c.provider_models.len()
        invariant
            i <= c.provider_models@.len(),
            crate::wrap::views(out@) == head + c.provider_models@.take(i as int).map_values(
                |p: ProviderModel| provider_model_line(p),
            ),
        decreases c.provider_models@.len() - i,
    {
        let p = &c.provider_models[i];
        let mut l = "  ".to_owned();
        l.append(p.provider.as_str());
        if p.selected {
            l.append(" [selected]");
        }
        l.append(" -> ");
        l.append(p.model.as_str());
        l.append(" (");
        l.append(p.base_url.as_str());
        l.append(")");
        proof {
            reveal_strlit("");
        }
        assert(l@ =~= provider_model_line(*p));
        push_views_eq(&mut out, l);
        assert(c.provider_models@.take(i + 1).map_values(|p: ProviderModel| provider_model_line(p))
            =~= c.provider_models@.take(i as int).map_values(|p: ProviderModel| provider_model_line(p)).push(
            provider_model_line(*p),
        ));
        i += 1;
    }
    assert(c.provider_models@.take(c.provider_models@.len() as int) =~= c.provider_models@);
    let ghost mid = crate::wrap::views(out@);
    let mut k: usize = 0;
    while k < c.aliases.len()
        invariant
            k <= c.aliases@.len(),
            crate::wrap::views(out@) == mid + c.aliases@.take(k as int).map_values(
                |a: (String, String)| "  "@ + a.0@ + " -> "@ + a.1@,
            ),
        decreases c.aliases@.len() - k,
    {
        let (alias, target) = &c.aliases[k];
        let mut l = "  ".to_owned();
        l.append(alias.as_str());
        l.append(" -> ");
        l.append(target.as_str());
        push_views_eq(&mut out, l);
        assert(c.aliases@.take(k + 1).map_values(|a: (String, String)| "  "@ + a.0@ + " -> "@ + a.1@)
            =~= c.aliases@.take(k as int).map_values(|a: (String, String)| "  "@ + a.0@ + " -> "@ + a.1@).push(
            "  "@ + alias@ + " -> "@ + target@,
        ));
        k += 1;
    }
    assert(c.aliases@.take(c.aliases@.len() as int) =~= c.aliases@);
    if let Some(r) = &c.retry {
        let mut l = "Empty-response retries: max ".to_owned();
        push_decimal(&mut l, r.max_empty_response_retries);
        l.append(" (exponential backoff ");
        push_decimal(&mut l, r.empty_response_backoff_initial_ms);
        l.append("ms → cap ");
        push_decimal(&mut l, r.empty_response_backoff_max_ms);
        l.append("ms)");
        push_views_eq(&mut out, l);
    }
    assert(crate::wrap::views(out@) =~= catalog_lines(*c));
    out
}

/// What `nca config` shows.
#[derive(Clone, Debug, PartialEq, Eq)]
pub struct ConfigSummary {
    /// The global configuration file, when a home directory is known.
    pub global_config_path: Option<String>,
    pub workspace_config_path: String,
    pub default_provider: String,
    pub default_model: String,
    pub permission_mode: String,
    /// Provider name, model and base URL of each provider.
    pub endpoints: Vec<(String, String, String)>,
    pub memory_path: String,
    /// The skill directories, resolved against the workspace.
    pub skill_directories: Vec<String>,
}

/// The lines of `nca config`: the configuration files, defaults, permission mode, each
/// provider's endpoint, the memory path and the skill directories.
pub open spec fn config_lines(c: ConfigSummary) -> Seq<Seq<char>> {
    seq![
        "Global config: "@ + match c.global_config_path {
            Some(p) => p@,
            None => "<unavailable>"@,
        },
        "Workspace config: "@ + c.workspace_config_path@,
        "Default provider: "@ + c.default_provider@,
        "Default model: "@ + c.default_model@,
        "Permission mode: "@ + c.permission_mode@,
        "Provider endpoints:"@,
    ] + c.endpoints@.map_values(
        |e: (String, String, String)| "  "@ + e.0@ + " -> model="@ + e.1@ + " base_url="@ + e.2@,
    ) + seq!["Memory path: "@ + c.memory_path@, "Skill directories:"@] + c.skill_directories@.map_values(
        |d: String| "  "@ + d@,
    )
}

fn line_of(a: &str, b: &str) -> (r: String)
    ensures
        r@ == a@ + b@,
{
    let mut s = a.to_owned();
    s.append(b);
    s
}

/// The lines of `nca config` (see [`config_lines`]).
pub fn config_summary_lines(c: &ConfigSummary) -> (r: Vec<String>)
    ensures
        crate::wrap::views(r@) == config_lines(*c),
{
    let mut out: Vec<String> = Vec::new();
    let global: &str = match &c.global_config_path {
        Some(p) => p.as_str(),
        None => "<unavailable>",
    };
    push_views_eq(&mut out, line_of("Global config: ", global));
    push_views_eq(&mut out, line_of("Workspace config: ", c.workspace_config_path.as_str()));
    push_views_eq(&mut out, line_of("Default provider: ", c.default_provider.as_str()));
    push_views_eq(&mut out, line_of("Default model: ", c.default_model.as_str()));
    push_views_eq(&mut out, line_of("Permission mode: ", c.permission_mode.as_str()));
    push_views_eq(&mut out, "Provider endpoints:".to_owned());
    let ghost head = crate::wrap::views(out@);
    let mut i: usize = 0;
    while i < c.endpoints.len()
        invariant
            i <= c.endpoints@.len(),
            crate::wrap::views(out@) == head + c.endpoints@.take(i as int).map_values(
                |e: (String, String, String)| "  "@ + e.0@ + " -> model="@ + e.1@ + " base_url="@ + e.2@,
            ),
        decreases c.endpoints@.len() - i,
    {
        let (name, model, url) = &c.endpoints[i];
        let mut l = line_of("  ", name.as_str());
        l.append(" -> model=");
        l.append(model.as_str());
        l.append(" base_url=");
        l.append(url.as_str());
        push_views_eq(&mut out, l);
        assert(c.endpoints@.take(i + 1).map_values(
            |e: (String, String, String)| "  "@ + e.0@ + " -> model="@ + e.1@ + " base_url="@ + e.2@,
        ) =~= c.endpoints@.take(i as int).map_values(
            |e: (String, String, String)| "  "@ + e.0@ + " -> model="@ + e.1@ + " base_url="@ + e.2@,
        ).push("  "@ + name@ + " -> model="@ + model@ + " base_url="@ + url@));
        i += 1;
    }
    assert(c.endpoints@.take(c.endpoints@.len() as int) =~= c.endpoints@);
    push_views_eq(&mut out, line_of("Memory path: ", c.memory_path.as_str()));
    push_views_eq(&mut out, "Skill directories:".to_owned());
    let ghost mid = crate::wrap::views(out@);
    let mut k: usize = 0;
    while k < c.skill_directories.len()
        invariant
            k <= c.skill_directories@.len(),
            crate::wrap::views(out@) == mid + c.skill_directories@.take(k as int).map_values(|d: String| "  "@ + d@),
        decreases c.skill_directories@.len() - k,
    {
        push_views_eq(&mut out, line_of("  ", c.skill_directories[k].as_str()));
        assert(c.skill_directories@.take(k + 1).map_values(|d: String| "  "@ + d@) =~= c.skill_directories@.take(
            k as int,
        ).map_values(|d: String| "  "@ + d@).push("  "@ + c.skill_directories@[k as int]@));
        k += 1;
    }
    assert(c.skill_directories@.take(c.skill_directories@.len() as int) =~= c.skill_directories@);
    assert(crate::wrap::views(out@) =~= config_lines(*c));
    out
}

} // verus!
