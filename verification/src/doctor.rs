//! `nca doctor`: the readiness of each provider and the report it prints.

use crate::session::{dec, push_decimal};
use crate::text::{chars_of, eq_vec, lower, lower_vec, string_of};
use vstd::prelude::*;

verus! {

/// What the preflight probe of a provider found.
#[derive(Clone, Debug, PartialEq, Eq)]
pub enum PreflightResult {
    Valid,
    InvalidKey(String),
    NetworkError(String),
}

/// The doctor's view of one provider.
#[derive(Clone, Debug, PartialEq, Eq)]
pub struct DoctorProvider {
    pub provider: String,
    pub selected: bool,
    pub api_key_present: bool,
    pub api_key_env: String,
    pub model: String,
    pub base_url: String,
    pub preflight_ms: Option<u64>,
    /// `ok`, `invalid_key`, `network_error`, `skipped` or `skipped_no_api_key`.
    pub preflight: String,
    pub preflight_detail: Option<String>,
}

/// What the doctor reports.
#[derive(Clone, Debug, PartialEq, Eq)]
pub struct DoctorReport {
    pub provider: String,
    pub default_model: String,
    pub providers: Vec<DoctorProvider>,
    pub mcp_server_count: usize,
    pub skill_count: usize,
    pub memory_path: String,
}

/// `NCA_DOCTOR_SKIP_NETWORK` turns the probes off when it is `1` or `true` in any case.
pub open spec fn skips_network(value: Option<Seq<char>>) -> bool {
    match value {
        Some(v) => v == "1"@ || lower(v) == "true"@,
        None => false,
    }
}

/// Whether the value of `NCA_DOCTOR_SKIP_NETWORK` turns the probes off (see
/// [`skips_network`]).
pub fn doctor_skip_network(value: Option<&str>) -> (b: bool)
    ensures
        b == skips_network(match value {
            Some(v) => Some(v@),
            None => None,
        }),
{
    match value {
        Some(v) => {
            let c = chars_of(v);
            eq_vec(&c, &chars_of("1")) || eq_vec(&lower_vec(&c), &chars_of("true"))
        },
        None => false,
    }
}

/// A provider is probed when probes are on and it has a key.
pub fn needs_preflight(skip_network: bool, api_key_present: bool) -> (b: bool)
    ensures
        b == (!skip_network && api_key_present),
{
    !skip_network && api_key_present
}

/// The preflight fields of a provider row: skipped without probes, skipped without a key,
/// else the probe's time and outcome.
pub open spec fn preflight_fields(
    skip_network: bool,
    api_key_present: bool,
    probe: Option<(PreflightResult, u64)>,
) -> (Option<u64>, Seq<char>, Option<Seq<char>>) {
    if skip_network {
        (None, "skipped"@, Some("NCA_DOCTOR_SKIP_NETWORK set — no HTTP probe"@))
    } else if !api_key_present {
        (None, "skipped_no_api_key"@, None)
    } else {
        match probe {
            Some((PreflightResult::Valid, ms)) => (Some(ms), "ok"@, None),
            Some((PreflightResult::InvalidKey(m), ms)) => (Some(ms), "invalid_key"@, Some(m@)),
            Some((PreflightResult::NetworkError(m), ms)) => (Some(ms), "network_error"@, Some(m@)),
            None => (None, "skipped_no_api_key"@, None),
        }
    }
}

/// The row of a provider with the given settings and probe outcome (see
/// [`preflight_fields`]).
pub fn doctor_provider_row(
    provider: String,
    selected: bool,
    api_key_present: bool,
    api_key_env: String,
    model: String,
    base_url: String,
    skip_network: bool,
    probe: Option<(PreflightResult, u64)>,
) -> (r: DoctorProvider)
    ensures
        r.provider == provider,
        r.selected == selected,
        r.api_key_present == api_key_present,
        r.api_key_env == api_key_env,
        r.model == model,
        r.base_url == base_url,
        ({
            let (ms, pre, detail) = preflight_fields(skip_network, api_key_present, probe);
            &&& r.preflight_ms == ms
            &&& r.preflight@ == pre
            &&& match (r.preflight_detail, detail) {
                (Some(a), Some(b)) => a@ == b,
                (None, None) => true,
                _ => false,
            }
        }),
{
    let (ms, pre, detail): (Option<u64>, &str, Option<String>) = if skip_network {
        (None, "skipped", Some("NCA_DOCTOR_SKIP_NETWORK set — no HTTP probe".to_owned()))
    } else if !api_key_present {
        (None, "skipped_no_api_key", None)
    } else {
        match probe {
            Some((PreflightResult::Valid, ms)) => (Some(ms), "ok", None),
            Some((PreflightResult::InvalidKey(m), ms)) => (Some(ms), "invalid_key", Some(m)),
            Some((PreflightResult::NetworkError(m), ms)) => (Some(ms), "network_error", Some(m)),
            None => (None, "skipped_no_api_key", None),
        }
    };
    DoctorProvider {
        provider,
        selected,
        api_key_present,
        api_key_env,
        model,
        base_url,
        preflight_ms: ms,
        preflight: pre.to_owned(),
        preflight_detail: detail,
    }
}

/// `s` with each `_` written as a space.
pub open spec fn underscores_to_spaces(s: Seq<char>) -> Seq<char> {
    s.map_values(|c: char| if c == '_' { ' ' } else { c })
}

/// The report line of a provider.
pub open spec fn provider_line(p: DoctorProvider) -> Seq<char> {
    let pre = match p.preflight_ms {
        Some(ms) => " preflight="@ + dec(ms as nat) + "ms ("@ + underscores_to_spaces(p.preflight@) + ")"@,
        None => " preflight=— ("@ + underscores_to_spaces(p.preflight@) + ")"@,
    };
    "  "@ + p.provider@ + (if p.selected { " [selected]"@ } else { Seq::empty() }) + ": api_key="@ + (if p.api_key_present {
        "configured"@
    } else {
        "missing"@
    }) + " ("@ + p.api_key_env@ + ") model="@ + p.model@ + " base_url="@ + p.base_url@ + pre
}

/// The lines of the first `n` providers: each one's line and, when it has one, a note.
pub open spec fn providers_lines(ps: Seq<DoctorProvider>, n: nat) -> Seq<Seq<char>>
    decreases n,
{
    if n == 0 || n > ps.len() {
        seq![]
    } else {
        let p = ps[n - 1];
        providers_lines(ps, (n - 1) as nat) + seq![provider_line(p)] + match p.preflight_detail {
            Some(d) => seq!["      note: "@ + d@],
            None => seq![],
        }
    }
}

/// The doctor's report: provider, default model, each provider's readiness, counts of
/// skills and MCP servers, and the memory path.
pub open spec fn doctor_lines(r: DoctorReport) -> Seq<Seq<char>> {
    seq![
        "Provider: "@ + r.provider@,
        "Default model: "@ + r.default_model@,
        "Provider readiness (preflight uses a lightweight API probe when a key is set):"@,
    ] + providers_lines(r.providers@, r.providers@.len()) + seq![
        "Skills discovered: "@ + dec(r.skill_count as nat),
        "MCP servers enabled: "@ + dec(r.mcp_server_count as nat),
        "Memory path: "@ + r.memory_path@,
        "MiniMax remains the default recommended path for this workspace."@,
    ]
}

fn underscores_as_spaces(s: &str) -> (r: String)
    ensures
        r@ == underscores_to_spaces(s@),
{
    let v = chars_of(s);
    let mut out: Vec<char> = Vec::new();
    let mut i: usize = 0;
    while i < v.len()
        invariant
            i <= v@.len(),
            v@ == s@,
            out@ == underscores_to_spaces(v@.take(i as int)),
        decreases v@.len() - i,
    {
        out.push(if v[i] == '_' { ' ' } else { v[i] });
        assert(underscores_to_spaces(v@.take(i + 1)) =~= underscores_to_spaces(v@.take(i as int)).push(
            if v@[i as int] == '_' { ' ' } else { v@[i as int] },
        ));
        i += 1;
    }
    assert(v@.take(v@.len() as int) =~= v@);
    string_of(&out)
}

fn provider_text(p: &DoctorProvider) -> (r: String)
    ensures
        r@ == provider_line(*p),
{
    let mut s = "  ".to_owned();
    s.append(p.provider.as_str());
    if p.selected {
        s.append(" [selected]");
    }
    s.append(": api_key=");
    s.append(if p.api_key_present { "configured" } else { "missing" });
    s.append(" (");
    s.append(p.api_key_env.as_str());
    s.append(") model=");
    s.append(p.model.as_str());
    s.append(" base_url=");
    s.append(p.base_url.as_str());
    match p.preflight_ms {
        Some(ms) => {
            s.append(" preflight=");
            push_decimal(&mut s, ms);
            s.append("ms (");
        },
        None => {
            s.append(" preflight=— (");
        },
    }
    s.append(underscores_as_spaces(p.preflight.as_str()).as_str());
    s.append(")");
    proof {
        reveal_strlit("");
    }
    assert(s@ =~= provider_line(*p));
    s
}

fn labelled(label: &str, value: &str) -> (r: String)
    ensures
        r@ == label@ + value@,
{
    let mut s = label.to_owned();
    s.append(value);
    s
}

fn labelled_count(label: &str, n: usize) -> (r: String)
    ensures
        r@ == label@ + dec(n as nat),
{
    let mut s = label.to_owned();
    push_decimal(&mut s, n as u64);
    s
}

/// The doctor's report lines (see [`doctor_lines`]).
pub fn doctor_report_lines(report: &DoctorReport) -> (r: Vec<String>)
    ensures
        crate::wrap::views(r@) == doctor_lines(*report),
{
    let mut out: Vec<String> = Vec::new();
    out.push(labelled("Provider: ", report.provider.as_str()));
    out.push(labelled("Default model: ", report.default_model.as_str()));
    out.push("Provider readiness (preflight uses a lightweight API probe when a key is set):".to_owned());
    let ghost head = crate::wrap::views(out@);
    assert(head =~= seq![
        "Provider: "@ + report.provider@,
        "Default model: "@ + report.default_model@,
        "Provider readiness (preflight uses a lightweight API probe when a key is set):"@,
    ]);
    let mut i: usize = 0;
    while i < report.providers.len()
        invariant
            i <= report.providers@.len(),
            crate::wrap::views(out@) == head + providers_lines(report.providers@, i as nat),
        decreases report.providers@.len() - i,
    {
        let p = &report.providers[i];
        let ghost o = crate::wrap::views(out@);
        out.push(provider_text(p));
        assert(crate::wrap::views(out@) =~= o.push(provider_line(*p)));
        let ghost o2 = crate::wrap::views(out@);
        if let Some(d) = &p.preflight_detail {
            out.push(labelled("      note: ", d.as_str()));
            assert(crate::wrap::views(out@) =~= o2.push("      note: "@ + d@));
        }
        assert(crate::wrap::views(out@) =~= head + providers_lines(report.providers@, (i + 1) as nat));
        i += 1;
    }
    let ghost mid = crate::wrap::views(out@);
    let a = labelled_count("Skills discovered: ", report.skill_count);
    let b = labelled_count("MCP servers enabled: ", report.mcp_server_count);
    let c = labelled("Memory path: ", report.memory_path.as_str());
    let d = "MiniMax remains the default recommended path for this workspace.".to_owned();
    let ghost tail = seq![a@, b@, c@, d@];
    out.push(a);
    out.push(b);
    out.push(c);
    out.push(d);
    assert(crate::wrap::views(out@) =~= mid + tail);
    assert(crate::wrap::views(out@) =~= doctor_lines(*report));
    out
}

/// What `--fix` prints after applying fixes: the fixes as bullets, or that none were needed.
pub open spec fn fix_lines(applied: Seq<Seq<char>>) -> Seq<Seq<char>> {
    if applied.len() == 0 {
        seq!["\nNo fixes needed — workspace already set up."@]
    } else {
        seq!["\nApplied fixes:"@] + applied.map_values(|m: Seq<char>| "  • "@ + m)
    }
}

/// The lines printed after applying fixes (see [`fix_lines`]).
pub fn doctor_fix_lines(applied: &[String]) -> (r: Vec<String>)
    ensures
        crate::wrap::views(r@) == fix_lines(crate::wrap::views(applied@)),
{
    let mut out: Vec<String> = Vec::new();
    if applied.len() == 0 {
        out.push("\nNo fixes needed — workspace already set up.".to_owned());
        assert(crate::wrap::views(out@) =~= fix_lines(crate::wrap::views(applied@)));
        return out;
    }
    out.push("\nApplied fixes:".to_owned());
    let ghost av = crate::wrap::views(applied@);
    let mut i: usize = 0;
    while i < applied.len()
        invariant
            i <= applied@.len(),
            av == crate::wrap::views(applied@),
            crate::wrap::views(out@) == seq!["\nApplied fixes:"@] + av.take(i as int).map_values(
                |m: Seq<char>| "  • "@ + m,
            ),
        decreases applied@.len() - i,
    {
        let ghost o = crate::wrap::views(out@);
        out.push(labelled("  • ", applied[i].as_str()));
        assert(av.take(i + 1).map_values(|m: Seq<char>| "  • "@ + m) =~= av.take(i as int).map_values(
            |m: Seq<char>| "  • "@ + m,
        ).push("  • "@ + av[i as int]));
        assert(crate::wrap::views(out@) =~= o.push("  • "@ + av[i as int]));
        i += 1;
    }
    assert(av.take(applied@.len() as int) =~= av);
    out
}

} // verus!
