//! Decisions of the interactive session: agent profiles, what an input line asks for,
//! slash commands and their arguments, and the rows of the model picker.

use crate::approval::{to_lowercase, unicode_lower};
use crate::model_picker::{ModelPickerAction, ModelPickerEntry};
use crate::session::{dec, one_line, push_decimal, SessionSnapshot};
use crate::provider::{all_providers, provider_display_name, PermissionMode, ProviderKind, PROVIDER_COUNT};
use crate::text::{chars_of, is_whitespace, is_ws, lower, lower_vec, slice_vec, string_of, trim, trim_vec};
use vstd::prelude::*;

verus! {

/// Agent profiles: each shapes the system prompt and the default permission mode.
#[derive(Clone, Copy, PartialEq, Eq, Debug)]
pub enum AgentProfile {
    /// Default full-access agent for development work.
    Build,
    /// Read-only agent for analysis and planning.
    Plan,
    /// Focused code review agent.
    Review,
    /// Bug diagnosis and fix agent.
    Fix,
    /// Testing and validation agent.
    Test,
}

/// The profiles in cycle order.
pub open spec fn all_profiles() -> Seq<AgentProfile> {
    seq![
        AgentProfile::Build,
        AgentProfile::Plan,
        AgentProfile::Review,
        AgentProfile::Fix,
        AgentProfile::Test,
    ]
}

/// The prompt label of a profile.
pub open spec fn profile_label(p: AgentProfile) -> Seq<char> {
    match p {
        AgentProfile::Build => "build"@,
        AgentProfile::Plan => "plan"@,
        AgentProfile::Review => "review"@,
        AgentProfile::Fix => "fix"@,
        AgentProfile::Test => "test"@,
    }
}

/// The position of a profile in cycle order.
pub open spec fn profile_index(p: AgentProfile) -> int {
    match p {
        AgentProfile::Build => 0,
        AgentProfile::Plan => 1,
        AgentProfile::Review => 2,
        AgentProfile::Fix => 3,
        AgentProfile::Test => 4,
    }
}

/// The system prompt addition of a profile (none for `build`).
pub open spec fn modifier_text(p: AgentProfile) -> Seq<char> {
    match p {
        AgentProfile::Build => ""@,
        AgentProfile::Plan => "Profile: PLAN MODE (read-only)\n- You must not modify files or run shell commands.\n- Inspect, search, read, research the web, and propose the next steps only.\n- If asked to change code, explain what would change instead of claiming it was done."@,
        AgentProfile::Review => "Profile: REVIEW MODE\n- Focus on identifying bugs, regressions, security issues, and code quality problems.\n- Check for missing tests, edge cases, and error handling.\n- Be specific about severity: critical, major, minor, or suggestion."@,
        AgentProfile::Fix => "Profile: FIX MODE\n- Diagnose the issue thoroughly before making changes.\n- Prefer minimal, verified fixes over broad rewrites.\n- Always explain the root cause and the fix."@,
        AgentProfile::Test => "Profile: TEST MODE\n- Focus on validating code correctness and edge cases.\n- Run tests, checks, or lints when tools allow.\n- Report clearly what passed, what failed, and any issues found."@,
    }
}

impl AgentProfile {
    /// All profiles in cycle order.
    pub const ALL: [AgentProfile; 5] = [
        AgentProfile::Build,
        AgentProfile::Plan,
        AgentProfile::Review,
        AgentProfile::Fix,
        AgentProfile::Test,
    ];

    /// The default profile, `build`.
    pub fn default_profile() -> (r: AgentProfile)
        ensures
            r == AgentProfile::Build,
    {
        AgentProfile::Build
    }

    /// The display name shown in the prompt.
    pub fn label(&self) -> (r: &'static str)
        ensures
            r@ == profile_label(*self),
    {
        match self {
            AgentProfile::Build => "build",
            AgentProfile::Plan => "plan",
            AgentProfile::Review => "review",
            AgentProfile::Fix => "fix",
            AgentProfile::Test => "test",
        }
    }

    /// The system prompt addition of the profile (none for `build`).
    pub fn system_modifier(&self) -> (r: &'static str)
        ensures
            r@ == modifier_text(*self),
    {
        match self {
            AgentProfile::Build => "",
            AgentProfile::Plan => {
                "Profile: PLAN MODE (read-only)\n- You must not modify files or run shell commands.\n- Inspect, search, read, research the web, and propose the next steps only.\n- If asked to change code, explain what would change instead of claiming it was done."
            },
            AgentProfile::Review => {
                "Profile: REVIEW MODE\n- Focus on identifying bugs, regressions, security issues, and code quality problems.\n- Check for missing tests, edge cases, and error handling.\n- Be specific about severity: critical, major, minor, or suggestion."
            },
            AgentProfile::Fix => {
                "Profile: FIX MODE\n- Diagnose the issue thoroughly before making changes.\n- Prefer minimal, verified fixes over broad rewrites.\n- Always explain the root cause and the fix."
            },
            AgentProfile::Test => {
                "Profile: TEST MODE\n- Focus on validating code correctness and edge cases.\n- Run tests, checks, or lints when tools allow.\n- Report clearly what passed, what failed, and any issues found."
            },
        }
    }

    /// The suggestion colour of the profile.
    pub fn style(&self) -> (r: &'static str)
        ensures
            r@ == match *self {
                AgentProfile::Build => ""@,
                AgentProfile::Plan => "cyan"@,
                AgentProfile::Review => "yellow"@,
                AgentProfile::Fix => "red"@,
                AgentProfile::Test => "green"@,
            },
    {
        match self {
            AgentProfile::Build => "",
            AgentProfile::Plan => "cyan",
            AgentProfile::Review => "yellow",
            AgentProfile::Fix => "red",
            AgentProfile::Test => "green",
        }
    }

    /// The next profile in cycle order, wrapping from `test` to `build`.
    pub fn next(self) -> (r: Self)
        ensures
            r == all_profiles()[(profile_index(self) + 1) % 5],
    {
        match self {
            AgentProfile::Build => AgentProfile::Plan,
            AgentProfile::Plan => AgentProfile::Review,
            AgentProfile::Review => AgentProfile::Fix,
            AgentProfile::Fix => AgentProfile::Test,
            AgentProfile::Test => AgentProfile::Build,
        }
    }
}

/// Going `next` five times comes back to the start, visiting every profile once.
pub proof fn law_profile_cycle(p: AgentProfile)
    ensures
        all_profiles()[profile_index(p)] == p,
        forall|k: int| 0 <= k < 5 ==> #[trigger] all_profiles()[(profile_index(p) + k) % 5]
            != all_profiles()[(profile_index(p) + k + 1) % 5],
{
}

/// The profile whose label is `t` without leading `@` and lower-cased.
pub open spec fn profile_named(t: Seq<char>) -> Option<AgentProfile> {
    let clean = unicode_lower(strip_ats(t));
    if clean == "build"@ {
        Some(AgentProfile::Build)
    } else if clean == "plan"@ {
        Some(AgentProfile::Plan)
    } else if clean == "review"@ {
        Some(AgentProfile::Review)
    } else if clean == "fix"@ {
        Some(AgentProfile::Fix)
    } else if clean == "test"@ {
        Some(AgentProfile::Test)
    } else {
        None
    }
}

/// `t` without its leading `@` characters.
pub open spec fn strip_ats(t: Seq<char>) -> Seq<char>
    decreases t.len(),
{
    if t.len() > 0 && t[0] == '@' {
        strip_ats(t.drop_first())
    } else {
        t
    }
}

/// The characters of `t` after its leading copies of `c`.
fn skip_leading(t: &[char], c: char) -> (r: usize)
    ensures
        r <= t@.len(),
        forall|i: int| 0 <= i < r ==> t@[i] == c,
        r == t@.len() || t@[r as int] != c,
{
    let mut i: usize = 0;
    while i < t.len() && t[i] == c
        invariant
            i <= t@.len(),
            forall|k: int| 0 <= k < i ==> t@[k] == c,
        decreases t@.len() - i,
    {
        i += 1;
    }
    i
}

proof fn lemma_strip_ats(t: Seq<char>, i: int)
    requires
        0 <= i <= t.len(),
        forall|k: int| 0 <= k < i ==> t[k] == '@',
        i == t.len() || t[i] != '@',
    ensures
        strip_ats(t) == t.skip(i),
    decreases i,
{
    if i > 0 {
        assert(t.drop_first().skip(i - 1) =~= t.skip(i));
        lemma_strip_ats(t.drop_first(), i - 1);
    } else {
        assert(t.skip(0) =~= t);
    }
}

/// The profile that `/agent <target>` names (see [`profile_named`]).
pub fn profile_for_target(target: &str) -> (r: Option<AgentProfile>)
    ensures
        r == profile_named(target@),
{
    let t = chars_of(target);
    let i = skip_leading(&t, '@');
    proof {
        lemma_strip_ats(t@, i as int);
    }
    let rest = slice_vec(&t, i, t.len());
    assert(rest@ =~= t@.skip(i as int));
    let low = to_lowercase(string_of(&rest).as_str());
    let low = chars_of(low.as_str());
    if crate::text::eq_vec(&low, &chars_of("build")) {
        Some(AgentProfile::Build)
    } else if crate::text::eq_vec(&low, &chars_of("plan")) {
        Some(AgentProfile::Plan)
    } else if crate::text::eq_vec(&low, &chars_of("review")) {
        Some(AgentProfile::Review)
    } else if crate::text::eq_vec(&low, &chars_of("fix")) {
        Some(AgentProfile::Fix)
    } else if crate::text::eq_vec(&low, &chars_of("test")) {
        Some(AgentProfile::Test)
    } else {
        None
    }
}

/// The permission mode a profile switches to: `plan` plans, every other profile gets the
/// default mode.
pub open spec fn profile_permission(p: AgentProfile) -> PermissionMode {
    if p == AgentProfile::Plan {
        PermissionMode::Plan
    } else {
        PermissionMode::Default
    }
}

/// The permission mode a profile switches to.
pub fn permission_for_profile(p: AgentProfile) -> (r: PermissionMode)
    ensures
        r == profile_permission(p),
{
    match p {
        AgentProfile::Plan => PermissionMode::Plan,
        _ => PermissionMode::Default,
    }
}

/// What an input line of the line-oriented session asks for.
#[derive(Clone, PartialEq, Eq, Debug)]
pub enum ReplInput {
    /// Nothing typed.
    Empty,
    /// A lone tab: switch to the next agent profile.
    SwitchAgent,
    /// `!cmd`: run the shell command (the `!`s removed).
    Bash(String),
    /// `/...`: a slash command.
    Command,
    /// Anything else: a prompt for the agent.
    Prompt,
}

/// `s` without its leading `!` characters.
pub open spec fn strip_bangs(s: Seq<char>) -> Seq<char>
    decreases s.len(),
{
    if s.len() > 0 && s[0] == '!' {
        strip_bangs(s.drop_first())
    } else {
        s
    }
}

proof fn lemma_strip_leading(t: Seq<char>, c: char, i: int)
    requires
        c == '!',
        0 <= i <= t.len(),
        forall|k: int| 0 <= k < i ==> t[k] == c,
        i == t.len() || t[i] != c,
    ensures
        strip_bangs(t) == t.skip(i),
    decreases i,
{
    if i > 0 {
        assert(t.drop_first().skip(i - 1) =~= t.skip(i));
        lemma_strip_leading(t.drop_first(), c, i - 1);
    } else {
        assert(t.skip(0) =~= t);
    }
}

/// Classify an input line: empty, a lone tab, `!` shell command (the line after its `!`s),
/// `/` slash command, or a prompt.
pub fn classify_input(input: &str) -> (r: ReplInput)
    ensures
        match r {
            ReplInput::Empty => input@.len() == 0,
            ReplInput::SwitchAgent => input@ == seq!['\t'],
            ReplInput::Bash(cmd) => input@.len() > 0 && input@ != seq!['\t'] && input@[0] == '!'
                && cmd@ == strip_bangs(input@),
            ReplInput::Command => input@.len() > 0 && input@ != seq!['\t'] && input@[0] == '/',
            ReplInput::Prompt => input@.len() > 0 && input@ != seq!['\t'] && input@[0] != '!'
                && input@[0] != '/',
        },
{
    let t = chars_of(input);
    if t.len() == 0 {
        return ReplInput::Empty;
    }
    if t.len() == 1 && t[0] == '\t' {
        assert(t@ =~= seq!['\t']);
        return ReplInput::SwitchAgent;
    }
    assert(t@ != seq!['\t']) by {
        if t@ == seq!['\t'] {
            assert(t@.len() == 1);
        }
    }
    if t[0] == '!' {
        let i = skip_leading(&t, '!');
        proof {
            lemma_strip_leading(t@, '!', i as int);
        }
        let rest = slice_vec(&t, i, t.len());
        assert(rest@ =~= t@.skip(i as int));
        return ReplInput::Bash(string_of(&rest));
    }
    if t[0] == '/' {
        return ReplInput::Command;
    }
    ReplInput::Prompt
}

/// The first white-space-separated word of `s`, or nothing.
pub open spec fn first_word(s: Seq<char>) -> Seq<char> {
    let a = s.len() - trim_start_len(s);
    s.subrange(a, a + word_len(s.skip(a)))
}

/// Number of leading white-space characters.
pub open spec fn trim_start_len(s: Seq<char>) -> int
    decreases s.len(),
{
    if s.len() > 0 && is_ws(s[0]) {
        trim_start_len(s.drop_first())
    } else {
        s.len() as int
    }
}

/// Length of the leading run of non-white-space characters.
pub open spec fn word_len(s: Seq<char>) -> int
    decreases s.len(),
{
    if s.len() > 0 && !is_ws(s[0]) {
        1 + word_len(s.drop_first())
    } else {
        0
    }
}

/// The command word and the rest of a slash-command line: the rest is the line after the
/// command word, trimmed, when the line starts with that word, and empty otherwise.
pub open spec fn command_parts(s: Seq<char>) -> (Seq<char>, Seq<char>) {
    let w = first_word(s);
    (w, if s.take(w.len() as int) == w {
        trim(s.skip(w.len() as int))
    } else {
        Seq::empty()
    })
}

proof fn lemma_trim_start_len(s: Seq<char>, i: int)
    requires
        0 <= i <= s.len(),
        forall|k: int| 0 <= k < i ==> is_ws(s[k]),
        i == s.len() || !is_ws(s[i]),
    ensures
        s.len() - trim_start_len(s) == i,
    decreases i,
{
    if i > 0 {
        lemma_trim_start_len(s.drop_first(), i - 1);
    }
}

proof fn lemma_word_len(s: Seq<char>, j: int)
    requires
        0 <= j <= s.len(),
        forall|k: int| 0 <= k < j ==> !is_ws(s[k]),
        j == s.len() || is_ws(s[j]),
    ensures
        word_len(s) == j,
    decreases j,
{
    if j > 0 {
        lemma_word_len(s.drop_first(), j - 1);
    }
}

/// Split a slash-command line into its command word and the rest (see [`command_parts`]).
pub fn split_command(input: &str) -> (r: (String, String))
    ensures
        (r.0@, r.1@) == command_parts(input@),
{
    let t = chars_of(input);
    let n = t.len();
    let mut a: usize = 0;
    while a < n && is_whitespace(t[a])
        invariant
            a <= n == t@.len(),
            forall|k: int| 0 <= k < a ==> is_ws(t@[k]),
        decreases n - a,
    {
        a += 1;
    }
    let mut b = a;
    while b < n && !is_whitespace(t[b])
        invariant
            a <= b <= n == t@.len(),
            forall|k: int| a <= k < b ==> !is_ws(t@[k]),
        decreases n - b,
    {
        b += 1;
    }
    proof {
        lemma_trim_start_len(t@, a as int);
        assert forall|k: int| 0 <= k < b - a implies !is_ws(t@.skip(a as int)[k]) by {
            assert(t@.skip(a as int)[k] == t@[a + k]);
        }
        if b < n {
            assert(t@.skip(a as int)[b - a] == t@[b as int]);
        }
        lemma_word_len(t@.skip(a as int), (b - a) as int);
    }
    let word = slice_vec(&t, a, b);
    let wl = b - a;
    let starts = if wl <= n {
        crate::text::eq_vec(&slice_vec(&t, 0, wl), &word)
    } else {
        false
    };
    assert(t@.subrange(0, wl as int) =~= t@.take(wl as int));
    let rest = if starts {
        let r = trim_vec(&slice_vec(&t, wl, n));
        assert(t@.subrange(wl as int, n as int) =~= t@.skip(wl as int));
        r
    } else {
        Vec::new()
    };
    assert(starts ==> rest@ == trim(t@.skip(wl as int)));
    assert(!starts ==> rest@ =~= Seq::<char>::empty());
    (string_of(&word), string_of(&rest))
}

/// The slash commands of the interactive session.
#[derive(Clone, Copy, PartialEq, Eq, Debug)]
pub enum SlashCommand {
    Quit,
    Stop,
    Help,
    Status,
    Agent,
    Plan,
    Review,
    Fix,
    Test,
    Model,
    Clear,
    Undo,
    Redo,
    Diff,
    Cost,
    Stats,
    Permissions,
    Skills,
    Memory,
    Compact,
    Models,
    Mcp,
    Agents,
    Logs,
    Attach,
    Image,
    Config,
    Connect,
    Settings,
    Provider,
    ApiKey,
    Editor,
    SetEditor,
    Doctor,
    AutoAnswer,
    Sessions,
    New,
    Export,
    Thinking,
    /// Any other word: a skill when one is named so, else unknown.
    Other,
}

/// The names of the slash commands with the command each names, `/q`, `/quit` and
/// `/exit` all quitting.
pub open spec fn command_table() -> Seq<(Seq<char>, SlashCommand)> {
    seq![
        ("/q"@, SlashCommand::Quit),
        ("/quit"@, SlashCommand::Quit),
        ("/exit"@, SlashCommand::Quit),
        ("/stop"@, SlashCommand::Stop),
        ("/help"@, SlashCommand::Help),
        ("/status"@, SlashCommand::Status),
        ("/agent"@, SlashCommand::Agent),
        ("/plan"@, SlashCommand::Plan),
        ("/review"@, SlashCommand::Review),
        ("/fix"@, SlashCommand::Fix),
        ("/test"@, SlashCommand::Test),
        ("/model"@, SlashCommand::Model),
        ("/clear"@, SlashCommand::Clear),
        ("/undo"@, SlashCommand::Undo),
        ("/redo"@, SlashCommand::Redo),
        ("/diff"@, SlashCommand::Diff),
        ("/cost"@, SlashCommand::Cost),
        ("/stats"@, SlashCommand::Stats),
        ("/permissions"@, SlashCommand::Permissions),
        ("/skills"@, SlashCommand::Skills),
        ("/memory"@, SlashCommand::Memory),
        ("/compact"@, SlashCommand::Compact),
        ("/models"@, SlashCommand::Models),
        ("/mcp"@, SlashCommand::Mcp),
        ("/agents"@, SlashCommand::Agents),
        ("/logs"@, SlashCommand::Logs),
        ("/attach"@, SlashCommand::Attach),
        ("/image"@, SlashCommand::Image),
        ("/config"@, SlashCommand::Config),
        ("/connect"@, SlashCommand::Connect),
        ("/settings"@, SlashCommand::Settings),
        ("/provider"@, SlashCommand::Provider),
        ("/apikey"@, SlashCommand::ApiKey),
        ("/editor"@, SlashCommand::Editor),
        ("/set-editor"@, SlashCommand::SetEditor),
        ("/doctor"@, SlashCommand::Doctor),
        ("/auto-answer"@, SlashCommand::AutoAnswer),
        ("/sessions"@, SlashCommand::Sessions),
        ("/new"@, SlashCommand::New),
        ("/export"@, SlashCommand::Export),
        ("/thinking"@, SlashCommand::Thinking),
    ]
}

/// The command of the first table entry at or after `k` named `w`, else `Other`.
pub open spec fn command_from(table: Seq<(Seq<char>, SlashCommand)>, w: Seq<char>, k: nat) -> SlashCommand
    decreases table.len() - k,
{
    if k >= table.len() {
        SlashCommand::Other
    } else if table[k as int].0 == w {
        table[k as int].1
    } else {
        command_from(table, w, k + 1)
    }
}

/// The command a command word names.
pub open spec fn command_named(w: Seq<char>) -> SlashCommand {
    command_from(command_table(), w, 0)
}

/// The table of [`command_table`].
fn command_entries() -> (r: Vec<(&'static str, SlashCommand)>)
    ensures
        r@.map_values(|e: (&'static str, SlashCommand)| (e.0@, e.1)) == command_table(),
{
    let r = vec![
        ("/q", SlashCommand::Quit),
        ("/quit", SlashCommand::Quit),
        ("/exit", SlashCommand::Quit),
        ("/stop", SlashCommand::Stop),
        ("/help", SlashCommand::Help),
        ("/status", SlashCommand::Status),
        ("/agent", SlashCommand::Agent),
        ("/plan", SlashCommand::Plan),
        ("/review", SlashCommand::Review),
        ("/fix", SlashCommand::Fix),
        ("/test", SlashCommand::Test),
        ("/model", SlashCommand::Model),
        ("/clear", SlashCommand::Clear),
        ("/undo", SlashCommand::Undo),
        ("/redo", SlashCommand::Redo),
        ("/diff", SlashCommand::Diff),
        ("/cost", SlashCommand::Cost),
        ("/stats", SlashCommand::Stats),
        ("/permissions", SlashCommand::Permissions),
        ("/skills", SlashCommand::Skills),
        ("/memory", SlashCommand::Memory),
        ("/compact", SlashCommand::Compact),
        ("/models", SlashCommand::Models),
        ("/mcp", SlashCommand::Mcp),
        ("/agents", SlashCommand::Agents),
        ("/logs", SlashCommand::Logs),
        ("/attach", SlashCommand::Attach),
        ("/image", SlashCommand::Image),
        ("/config", SlashCommand::Config),
        ("/connect", SlashCommand::Connect),
        ("/settings", SlashCommand::Settings),
        ("/provider", SlashCommand::Provider),
        ("/apikey", SlashCommand::ApiKey),
        ("/editor", SlashCommand::Editor),
        ("/set-editor", SlashCommand::SetEditor),
        ("/doctor", SlashCommand::Doctor),
        ("/auto-answer", SlashCommand::AutoAnswer),
        ("/sessions", SlashCommand::Sessions),
        ("/new", SlashCommand::New),
        ("/export", SlashCommand::Export),
        ("/thinking", SlashCommand::Thinking),
    ];
    assert(r@.map_values(|e: (&'static str, SlashCommand)| (e.0@, e.1)) =~= command_table());
    r
}

/// The command a command word names (see [`command_named`]).
pub fn classify_command(word: &str) -> (r: SlashCommand)
    ensures
        r == command_named(word@),
{
    let table = command_entries();
    let w = chars_of(word);
    let ghost tv = table@.map_values(|e: (&'static str, SlashCommand)| (e.0@, e.1));
    let mut k: usize = 0;
    while k < table.len()
        invariant
            k <= table@.len(),
            tv == table@.map_values(|e: (&'static str, SlashCommand)| (e.0@, e.1)),
            tv == command_table(),
            w@ == word@,
            command_named(word@) == command_from(tv, w@, k as nat),
        decreases table@.len() - k,
    {
        let (name, cmd) = table[k];
        assert(tv[k as int] == (name@, cmd));
        if crate::text::eq_vec(&chars_of(name), &w) {
            return cmd;
        }
        k += 1;
    }
    SlashCommand::Other
}

/// The text that a preset command (`/plan`, `/review`, `/fix`, `/test`) puts before the
/// task.
pub open spec fn preset_prefix_text(c: SlashCommand) -> Seq<char> {
    match c {
        SlashCommand::Plan => "Create a short implementation plan before coding. Focus on steps, risks, and validation.\n\nTask:\n"@,
        SlashCommand::Review => "Review the requested code or changes. Prioritize bugs, regressions, risks, and missing tests.\n\nReview target:\n"@,
        SlashCommand::Fix => "Diagnose and fix the issue below. Prefer a minimal verified change.\n\nIssue:\n"@,
        SlashCommand::Test => "Validate the requested area. Run tests or checks if tools allow, and report what passed or failed.\n\nTarget:\n"@,
        _ => Seq::empty(),
    }
}

/// The prompt of a preset command for `task`: its prefix and the trimmed task, or nothing
/// when the task is blank (the caller then shows the usage line).
pub open spec fn preset_prompt_text(c: SlashCommand, task: Seq<char>) -> Option<Seq<char>> {
    if trim(task).len() == 0 {
        None
    } else {
        Some(preset_prefix_text(c) + trim(task))
    }
}

/// The prompt of a preset command (see [`preset_prompt_text`]).
pub fn preset_prompt(c: SlashCommand, task: &str) -> (r: Option<String>)
    requires
        c == SlashCommand::Plan || c == SlashCommand::Review || c == SlashCommand::Fix || c
            == SlashCommand::Test,
    ensures
        match (r, preset_prompt_text(c, task@)) {
            (Some(p), Some(q)) => p@ == q,
            (None, None) => true,
            _ => false,
        },
{
    let t = trim_vec(&chars_of(task));
    if t.len() == 0 {
        return None;
    }
    let mut s = match c {
        SlashCommand::Plan => "Create a short implementation plan before coding. Focus on steps, risks, and validation.\n\nTask:\n".to_owned(),
        SlashCommand::Review => "Review the requested code or changes. Prioritize bugs, regressions, risks, and missing tests.\n\nReview target:\n".to_owned(),
        SlashCommand::Fix => "Diagnose and fix the issue below. Prefer a minimal verified change.\n\nIssue:\n".to_owned(),
        _ => "Validate the requested area. Run tests or checks if tools allow, and report what passed or failed.\n\nTarget:\n".to_owned(),
    };
    s.append(string_of(&t).as_str());
    Some(s)
}

/// What `/permissions bypass <arg>` switches to from `current`: no argument or `toggle`
/// flips between bypass and default; `on enable yes 1` bypass; `off disable no 0` default;
/// anything else is refused (`None`), the argument trimmed and ASCII-lower-cased first.
pub open spec fn bypass_target(arg: Seq<char>, current: PermissionMode) -> Option<PermissionMode> {
    let a = lower(trim(arg));
    if a.len() == 0 || a == "toggle"@ {
        Some(
            if current == PermissionMode::BypassPermissions {
                PermissionMode::Default
            } else {
                PermissionMode::BypassPermissions
            },
        )
    } else if a == "on"@ || a == "enable"@ || a == "yes"@ || a == "1"@ {
        Some(PermissionMode::BypassPermissions)
    } else if a == "off"@ || a == "disable"@ || a == "no"@ || a == "0"@ {
        Some(PermissionMode::Default)
    } else {
        None
    }
}

/// What `/permissions bypass <arg>` switches to (see [`bypass_target`]).
pub fn bypass_mode(arg: &str, current: PermissionMode) -> (r: Option<PermissionMode>)
    ensures
        r == bypass_target(arg@, current),
{
    let a = lower_vec(&trim_vec(&chars_of(arg)));
    let is = |lit: &str| -> (b: bool)
        ensures
            b == (a@ == lit@),
        { crate::text::eq_vec(&a, &chars_of(lit)) };
    if a.len() == 0 || is("toggle") {
        Some(
            match current {
                PermissionMode::BypassPermissions => PermissionMode::Default,
                _ => PermissionMode::BypassPermissions,
            },
        )
    } else if is("on") || is("enable") || is("yes") || is("1") {
        Some(PermissionMode::BypassPermissions)
    } else if is("off") || is("disable") || is("no") || is("0") {
        Some(PermissionMode::Default)
    } else {
        None
    }
}

/// Plain values of one provider for the model picker: the model it would use and whether
/// an API key is configured for it.
pub struct ProviderStatus {
    pub model: String,
    pub api_key_present: bool,
}

/// An action as plain values: the provider it switches to, or the model it applies.
pub open spec fn action_view(a: ModelPickerAction) -> (Option<ProviderKind>, Seq<char>) {
    match a {
        ModelPickerAction::SwitchProvider(p) => (Some(p), Seq::empty()),
        ModelPickerAction::ApplyModel(m) => (None, m@),
    }
}

/// An entry as plain values: label, detail, action and whether it is a header.
pub open spec fn entry_view(e: ModelPickerEntry) -> (Seq<char>, Seq<char>, (Option<ProviderKind>, Seq<char>), bool) {
    (e.label@, e.detail@, action_view(e.action), e.is_header)
}

/// A header row.
pub open spec fn header_row(label: Seq<char>) -> (Seq<char>, Seq<char>, (Option<ProviderKind>, Seq<char>), bool) {
    (label, Seq::empty(), (None, Seq::empty()), true)
}

/// The row of the `i`-th provider: its name (marked ` [active]` when it is the default),
/// its model and whether it has a key.
pub open spec fn provider_row(providers: Seq<ProviderStatus>, default: ProviderKind, i: int) -> (
    Seq<char>,
    Seq<char>,
    (Option<ProviderKind>, Seq<char>),
    bool,
) {
    let p = all_providers()[i];
    (
        provider_display_name(p) + if p == default {
            " [active]"@
        } else {
            Seq::empty()
        },
        providers[i].model@ + " ("@ + (if providers[i].api_key_present {
            "key \u{2713}"@
        } else {
            "no key"@
        }) + ")"@,
        (Some(p), Seq::empty()),
        false,
    )
}

/// The rows of the model picker: the providers under a `Providers` header; the default
/// provider's models under a `<provider> models` header when there are any; the aliases
/// (`→ target`) under an `Aliases` header.
pub open spec fn model_picker_rows(
    providers: Seq<ProviderStatus>,
    default: ProviderKind,
    models: Seq<Seq<char>>,
    aliases: Seq<(Seq<char>, Seq<char>)>,
) -> Seq<(Seq<char>, Seq<char>, (Option<ProviderKind>, Seq<char>), bool)> {
    seq![header_row("Providers"@)] + Seq::new(
        PROVIDER_COUNT as nat,
        |i: int| provider_row(providers, default, i),
    ) + (if models.len() > 0 {
        seq![header_row(provider_display_name(default) + " models"@)] + models.map_values(
            |m: Seq<char>| (m, Seq::<char>::empty(), (None::<ProviderKind>, m), false),
        )
    } else {
        seq![]
    }) + seq![header_row("Aliases"@)] + aliases.map_values(
        |a: (Seq<char>, Seq<char>)| (a.0, "\u{2192} "@ + a.1, (None::<ProviderKind>, a.0), false),
    )
}

/// A header entry.
fn header_entry(label: String) -> (r: ModelPickerEntry)
    ensures
        entry_view(r) == header_row(label@),
{
    ModelPickerEntry {
        label,
        detail: String::new(),
        action: ModelPickerAction::ApplyModel(String::new()),
        is_header: true,
    }
}

/// The entries of the model picker (see [`model_picker_rows`]); `providers` holds one
/// status per provider, in picker order.
pub fn build_model_picker_entries(
    providers: &[ProviderStatus],
    default: ProviderKind,
    provider_models: &[String],
    aliases: &[(String, String)],
) -> (r: Vec<ModelPickerEntry>)
    requires
        providers@.len() == PROVIDER_COUNT,
    ensures
        r@.map_values(|e: ModelPickerEntry| entry_view(e)) == model_picker_rows(
            providers@,
            default,
            crate::wrap::views(provider_models@),
            aliases@.map_values(|a: (String, String)| (a.0@, a.1@)),
        ),
{
    let ghost mv = crate::wrap::views(provider_models@);
    let ghost av = aliases@.map_values(|a: (String, String)| (a.0@, a.1@));
    let mut entries: Vec<ModelPickerEntry> = Vec::new();
    entries.push(header_entry("Providers".to_owned()));
    let all = ProviderKind::all();
    let mut i: usize = 0;
    while i < PROVIDER_COUNT
        invariant
            i <= PROVIDER_COUNT,
            providers@.len() == PROVIDER_COUNT,
            all@ == all_providers(),
            entries@.map_values(|e: ModelPickerEntry| entry_view(e)) =~= seq![header_row("Providers"@)]
                + Seq::new(i as nat, |k: int| provider_row(providers@, default, k)),
        decreases PROVIDER_COUNT - i,
    {
        let p = all[i];
        let mut label = p.display_name().to_owned();
        if p == default {
            label.append(" [active]");
        }
        let mut detail = providers[i].model.clone();
        detail.append(" (");
        if providers[i].api_key_present {
            detail.append("key \u{2713}");
        } else {
            detail.append("no key");
        }
        detail.append(")");
        let e = ModelPickerEntry {
            label,
            detail,
            action: ModelPickerAction::SwitchProvider(p),
            is_header: false,
        };
        assert(entry_view(e) == provider_row(providers@, default, i as int));
        let ghost before = entries@;
        entries.push(e);
        assert(entries@.map_values(|e: ModelPickerEntry| entry_view(e)) =~= before.map_values(
            |e: ModelPickerEntry| entry_view(e),
        ).push(entry_view(e)));
        i += 1;
    }
    let ghost after_providers = entries@.map_values(|e: ModelPickerEntry| entry_view(e));
    let ghost models_part: Seq<(Seq<char>, Seq<char>, (Option<ProviderKind>, Seq<char>), bool)> = if mv.len() > 0 {
        seq![header_row(provider_display_name(default) + " models"@)] + mv.map_values(
            |m: Seq<char>| (m, Seq::<char>::empty(), (None::<ProviderKind>, m), false),
        )
    } else {
        seq![]
    };
    if provider_models.len() > 0 {
        let mut label = default.display_name().to_owned();
        label.append(" models");
        entries.push(header_entry(label));
        let ghost base = entries@.map_values(|e: ModelPickerEntry| entry_view(e));
        let mut j: usize = 0;
        while j < provider_models.len()
            invariant
                j <= provider_models@.len(),
                mv == crate::wrap::views(provider_models@),
                entries@.map_values(|e: ModelPickerEntry| entry_view(e)) =~= base + mv.take(
                    j as int,
                ).map_values(|m: Seq<char>| (m, Seq::<char>::empty(), (None::<ProviderKind>, m), false)),
            decreases provider_models@.len() - j,
        {
            let m = &provider_models[j];
            let e = ModelPickerEntry {
                label: m.clone(),
                detail: String::new(),
                action: ModelPickerAction::ApplyModel(m.clone()),
                is_header: false,
            };
            let ghost before = entries@;
            entries.push(e);
            assert(mv.take(j + 1) =~= mv.take(j as int).push(mv[j as int]));
            assert(entries@.map_values(|e: ModelPickerEntry| entry_view(e)) =~= before.map_values(
                |e: ModelPickerEntry| entry_view(e),
            ).push(entry_view(e)));
            j += 1;
        }
        assert(mv.take(provider_models@.len() as int) =~= mv);
        assert(base =~= after_providers.push(header_row(provider_display_name(default) + " models"@)));
    }
    let ghost after_models = entries@.map_values(|e: ModelPickerEntry| entry_view(e));
    assert(after_models =~= after_providers + models_part);
    entries.push(header_entry("Aliases".to_owned()));
    let ghost base = entries@.map_values(|e: ModelPickerEntry| entry_view(e));
    let mut k: usize = 0;
    while k < aliases.len()
        invariant
            k <= aliases@.len(),
            av == aliases@.map_values(|a: (String, String)| (a.0@, a.1@)),
            entries@.map_values(|e: ModelPickerEntry| entry_view(e)) =~= base + av.take(k as int).map_values(
                |a: (Seq<char>, Seq<char>)| (a.0, "\u{2192} "@ + a.1, (None::<ProviderKind>, a.0), false),
            ),
        decreases aliases@.len() - k,
    {
        let (alias, target) = &aliases[k];
        let mut detail = "\u{2192} ".to_owned();
        detail.append(target.as_str());
        let e = ModelPickerEntry {
            label: alias.clone(),
            detail,
            action: ModelPickerAction::ApplyModel(alias.clone()),
            is_header: false,
        };
        let ghost before = entries@;
        entries.push(e);
        assert(av.take(k + 1) =~= av.take(k as int).push(av[k as int]));
        assert(entries@.map_values(|e: ModelPickerEntry| entry_view(e)) =~= before.map_values(
            |e: ModelPickerEntry| entry_view(e),
        ).push(entry_view(e)));
        k += 1;
    }
    assert(av.take(aliases@.len() as int) =~= av);
    assert(base =~= after_models.push(header_row("Aliases"@)));
    assert(entries@.map_values(|e: ModelPickerEntry| entry_view(e)) =~= model_picker_rows(
        providers@,
        default,
        mv,
        av,
    ));
    entries
}

/// The first position of `m` in `recent`, or 0 when it is not there.
pub open spec fn position_or_first(recent: Seq<Seq<char>>, m: Seq<char>, i: nat) -> nat
    decreases recent.len() - i,
{
    if i >= recent.len() {
        0
    } else if recent[i as int] == m {
        i
    } else {
        position_or_first(recent, m, i + 1)
    }
}

/// The recent model F2 switches to: the next one after the current model (Shift+F2: the
/// one before), wrapping around, counting from the first when the current model is not
/// recent; nothing with fewer than two recent models.
pub open spec fn cycled_model(recent: Seq<Seq<char>>, current: Seq<char>, forward: bool) -> Option<Seq<char>> {
    let n = recent.len();
    if n < 2 {
        None
    } else {
        let pos = position_or_first(recent, current, 0) as int;
        let next: int = if forward {
            (pos + 1) % (n as int)
        } else if pos >= 1 {
            pos - 1
        } else {
            n - 1
        };
        Some(recent[next])
    }
}

proof fn lemma_position_bound(recent: Seq<Seq<char>>, m: Seq<char>, i: nat)
    ensures
        recent.len() > 0 ==> position_or_first(recent, m, i) < recent.len(),
        (exists|k: int| i <= k < recent.len() && recent[k] == m) ==> recent[position_or_first(recent, m, i) as int] == m,
    decreases recent.len() - i,
{
    if i < recent.len() && recent[i as int] != m {
        lemma_position_bound(recent, m, i + 1);
    }
}

/// The recent model F2 switches to (see [`cycled_model`]).
pub fn cycle_recent_model(recent: &[String], current: &str, forward: bool) -> (r: Option<String>)
    ensures
        match (r, cycled_model(crate::wrap::views(recent@), current@, forward)) {
            (Some(m), Some(sm)) => m@ == sm,
            (None, None) => true,
            _ => false,
        },
{
    let n = recent.len();
    if n < 2 {
        return None;
    }
    let ghost rv = crate::wrap::views(recent@);
    let cur = chars_of(current);
    let mut i: usize = 0;
    while i < n && !crate::text::eq_vec(&chars_of(recent[i].as_str()), &cur)
        invariant
            i <= n,
            n == recent@.len(),
            rv == crate::wrap::views(recent@),
            cur@ == current@,
            position_or_first(rv, current@, 0) == position_or_first(rv, current@, i as nat),
        decreases n - i,
    {
        i += 1;
    }
    let pos = if i < n {
        i
    } else {
        0
    };
    proof {
        lemma_position_bound(rv, current@, 0);
    }
    let next = if forward {
        (pos + 1) % n
    } else if pos >= 1 {
        pos - 1
    } else {
        n - 1
    };
    Some(recent[next].clone())
}

/// With distinct recent models that include the current one, F2 and then Shift+F2 come
/// back to the current model.
pub proof fn law_cycle_model_round_trip(recent: Seq<Seq<char>>, current: Seq<char>)
    requires
        recent.len() >= 2,
        recent.contains(current),
        forall|a: int, b: int| 0 <= a < b < recent.len() ==> recent[a] != recent[b],
    ensures
        cycled_model(recent, cycled_model(recent, current, true)->0, false) == Some(current),
{
    let n = recent.len();
    let k = choose|k: int| 0 <= k < n && recent[k] == current;
    lemma_position_bound(recent, current, 0);
    let pos = position_or_first(recent, current, 0) as int;
    assert(recent[pos] == current);
    let next = (pos + 1) % (n as int);
    if pos + 1 < n {
        vstd::arithmetic::div_mod::lemma_small_mod((pos + 1) as nat, n as nat);
    } else {
        vstd::arithmetic::div_mod::lemma_mod_self_0(n as int);
    }
    let m = recent[next];
    lemma_position_bound(recent, m, 0);
    assert(recent.contains(m)) by {
        assert(recent[next] == m);
    }
    let p2 = position_or_first(recent, m, 0) as int;
    assert(recent[p2] == m);
    assert(p2 == next);
    if pos + 1 < n {
        vstd::arithmetic::div_mod::lemma_small_mod((pos + 1) as nat, n as nat);
        assert(next == pos + 1);
    } else {
        vstd::arithmetic::div_mod::lemma_mod_self_0(n as int);
        assert(next == 0);
    }
}


/// The lines of `/help`: input modes, slash commands and keyboard shortcuts.
pub open spec fn help_text() -> Seq<&'static str> {
    seq![
        "nca Interactive Mode",
        "",
        "INPUT MODES:",
        "  ! <cmd>     Run shell command (output feeds into context)",
        "  @path       Inline file mentions",
        "  / <cmd>     Slash commands",
        "  \\           Multiline input (end line with \\ to continue)",
        "",
        "SLASH COMMANDS:",
        "  /help              Show this help",
        "  /status            Session status",
        "  /agent [profile]   Show or switch agent profile",
        "  /plan <task>       Planning-oriented turn",
        "  /review <task>     Code review turn",
        "  /fix <task>        Bug-fix turn",
        "  /test <task>       Validation turn",
        "  /clear             Clear the screen",
        "  /compact           Compact session summary",
        "  /new               Start a new session",
        "  /export            Export session to markdown",
        "  /thinking          Toggle thinking/reasoning visibility",
        "  /skills            List discovered skills",
        "  /memory [text]     Show or store memory notes",
        "  /models            Browse and select models",
        "  /connect           Connect LLM provider",
        "  /provider [name]   Default provider",
        "  /apikey <p> <key>  Store provider API key",
        "  /model [name]      Set active model",
        "  /editor [seed]     Open external editor",
        "  /set-editor <cmd>  Persist editor command",
        "  /mcp               List MCP servers",
        "  /sessions          List/switch sessions",
        "  /permissions [m]   Show or set permission mode",
        "  /config            Show runtime config",
        "  /doctor            Run config checks",
        "  /diff              Show recent file changes",
        "  /cost              Show token usage",
        "  /stats             Session statistics",
        "  /exit              Exit repl",
        "",
        "KEYBOARD SHORTCUTS:",
        "  Tab          Cycle agent profile",
        "  Ctrl+P       Command palette",
        "  Ctrl+X M     Switch model",
        "  Ctrl+X E     Open editor",
        "  Ctrl+X L     Switch session",
        "  Ctrl+X N     New session",
        "  Ctrl+X C     Compact",
        "  Ctrl+X S     View status",
        "  Ctrl+X A     Agent picker",
        "  Ctrl+X H     Help",
        "  Ctrl+X Q     Exit",
        "  Ctrl+C       Cancel request",
        "  Ctrl+L       Clear screen",
        "  Ctrl+V       Paste image (TUI)",
        "  F2           Cycle recent models",
    ]
}

/// The lines `/help` shows (see [`help_text`]).
pub fn help_lines() -> (r: Vec<&'static str>)
    ensures
        r@ == help_text(),
{
    let r = vec![
        "nca Interactive Mode",
        "",
        "INPUT MODES:",
        "  ! <cmd>     Run shell command (output feeds into context)",
        "  @path       Inline file mentions",
        "  / <cmd>     Slash commands",
        "  \\           Multiline input (end line with \\ to continue)",
        "",
        "SLASH COMMANDS:",
        "  /help              Show this help",
        "  /status            Session status",
        "  /agent [profile]   Show or switch agent profile",
        "  /plan <task>       Planning-oriented turn",
        "  /review <task>     Code review turn",
        "  /fix <task>        Bug-fix turn",
        "  /test <task>       Validation turn",
        "  /clear             Clear the screen",
        "  /compact           Compact session summary",
        "  /new               Start a new session",
        "  /export            Export session to markdown",
        "  /thinking          Toggle thinking/reasoning visibility",
        "  /skills            List discovered skills",
        "  /memory [text]     Show or store memory notes",
        "  /models            Browse and select models",
        "  /connect           Connect LLM provider",
        "  /provider [name]   Default provider",
        "  /apikey <p> <key>  Store provider API key",
        "  /model [name]      Set active model",
        "  /editor [seed]     Open external editor",
        "  /set-editor <cmd>  Persist editor command",
        "  /mcp               List MCP servers",
        "  /sessions          List/switch sessions",
        "  /permissions [m]   Show or set permission mode",
        "  /config            Show runtime config",
        "  /doctor            Run config checks",
        "  /diff              Show recent file changes",
        "  /cost              Show token usage",
        "  /stats             Session statistics",
        "  /exit              Exit repl",
        "",
        "KEYBOARD SHORTCUTS:",
        "  Tab          Cycle agent profile",
        "  Ctrl+P       Command palette",
        "  Ctrl+X M     Switch model",
        "  Ctrl+X E     Open editor",
        "  Ctrl+X L     Switch session",
        "  Ctrl+X N     New session",
        "  Ctrl+X C     Compact",
        "  Ctrl+X S     View status",
        "  Ctrl+X A     Agent picker",
        "  Ctrl+X H     Help",
        "  Ctrl+X Q     Exit",
        "  Ctrl+C       Cancel request",
        "  Ctrl+L       Clear screen",
        "  Ctrl+V       Paste image (TUI)",
        "  F2           Cycle recent models",
    ];
    assert(r@ =~= help_text());
    r
}

/// The name a permission mode is printed by.
pub open spec fn permission_mode_name(m: PermissionMode) -> Seq<char> {
    match m {
        PermissionMode::Default => "Default"@,
        PermissionMode::Plan => "Plan"@,
        PermissionMode::AcceptEdits => "AcceptEdits"@,
        PermissionMode::DontAsk => "DontAsk"@,
        PermissionMode::BypassPermissions => "BypassPermissions"@,
    }
}

fn permission_mode_text(m: PermissionMode) -> (r: &'static str)
    ensures
        r@ == permission_mode_name(m),
{
    match m {
        PermissionMode::Default => "Default",
        PermissionMode::Plan => "Plan",
        PermissionMode::AcceptEdits => "AcceptEdits",
        PermissionMode::DontAsk => "DontAsk",
        PermissionMode::BypassPermissions => "BypassPermissions",
    }
}

/// The lines of `/status`: session id, model, agent profile, permission mode, number of
/// child sessions and memory store path, then, when the session has a summary, an empty
/// line and the summary on one line.
pub open spec fn status_text(
    snap: SessionSnapshot,
    model: Seq<char>,
    agent: AgentProfile,
    mode: PermissionMode,
    memory_path: Seq<char>,
) -> Seq<Seq<char>> {
    seq![
        "Session:     "@ + snap.id@,
        "Model:       "@ + model,
        "Agent:       @"@ + profile_label(agent),
        "Permission:  "@ + permission_mode_name(mode),
        "Children:    "@ + dec(snap.child_session_ids@.len()),
        "Memory:      "@ + memory_path,
    ] + match snap.session_summary {
        Some(s) => seq![""@, "Summary: "@ + one_line(s@)],
        None => seq![],
    }
}

fn labelled_text(label: &str, value: &str) -> (r: String)
    ensures
        r@ == label@ + value@,
{
    let mut s = String::new();
    s.append(label);
    s.append(value);
    s
}

/// `s` on one line: each line break becomes a space.
fn flattened(s: &str) -> (r: String)
    ensures
        r@ == one_line(s@),
{
    let v = chars_of(s);
    let mut flat: Vec<char> = Vec::new();
    let mut i: usize = 0;
    while i < v.len()
        invariant
            i <= v@.len(),
            flat@ =~= one_line(v@.take(i as int)),
        decreases v@.len() - i,
    {
        flat.push(if v[i] == '\n' {
            ' '
        } else {
            v[i]
        });
        i += 1;
        assert(v@.take(i as int).drop_last() =~= v@.take(i - 1));
    }
    assert(v@.take(v@.len() as int) =~= v@);
    string_of(&flat)
}

/// The lines `/status` shows (see [`status_text`]).
pub fn status_lines(
    snapshot: &SessionSnapshot,
    model: &str,
    agent: AgentProfile,
    mode: PermissionMode,
    memory_path: &str,
) -> (r: Vec<String>)
    ensures
        crate::wrap::views(r@) == status_text(*snapshot, model@, agent, mode, memory_path@),
{
    let mut children = String::new();
    children.append("Children:    ");
    push_decimal(&mut children, snapshot.child_session_ids.len() as u64);
    let mut lines = vec![
        labelled_text("Session:     ", snapshot.id.as_str()),
        labelled_text("Model:       ", model),
        labelled_text("Agent:       @", agent.label()),
        labelled_text("Permission:  ", permission_mode_text(mode)),
        children,
        labelled_text("Memory:      ", memory_path),
    ];
    let ghost head = crate::wrap::views(lines@);
    if let Some(summary) = &snapshot.session_summary {
        let text = flattened(summary.as_str());
        let blank = String::new();
        let last = labelled_text("Summary: ", text.as_str());
        let ghost before = lines@;
        lines.push(blank);
        lines.push(last);
        proof { reveal_strlit(""); }
        assert(lines@.len() == 8);
        assert(lines@[6]@ == ""@);
        assert(lines@[7]@ == "Summary: "@ + one_line(summary@));
        assert(forall|i: int| 0 <= i < 6 ==> lines@[i] == before[i]);
        assert(crate::wrap::views(lines@) =~= head + seq![""@, "Summary: "@ + one_line(summary@)]);
    } else {
        assert(crate::wrap::views(lines@) =~= head);
    }
    assert(crate::wrap::views(lines@) =~= status_text(*snapshot, model@, agent, mode, memory_path@));
    lines
}

} // verus!
