//! Typed values of command-line options: the value enums, unsigned numbers, and reading
//! an option's or positional argument's value out of a scanned level.

use crate::cli_scan::{cli_error, CliError, CliErrorKind, ScanOut, ScanView};
use crate::provider::PermissionMode;
use crate::text::{chars_of, eq_vec, string_of};
use crate::wrap::views;
use vstd::prelude::*;

verus! {

/// A plain-value error: kind and argument.
pub type ErrV = (CliErrorKind, Seq<char>);

/// Streaming output format.
#[derive(Clone, Copy, PartialEq, Eq, Debug)]
pub enum StreamMode {
    Off,
    Human,
    Ndjson,
}

/// How stdin is merged with `--prompt` in one-shot mode.
#[derive(Clone, Copy, PartialEq, Eq, Debug)]
pub enum StdinMerge {
    Append,
    Prefix,
    Only,
}

/// Permission mode as written on the command line.
#[derive(Clone, Copy, PartialEq, Eq, Debug)]
pub enum CliPermissionMode {
    Default,
    Plan,
    AcceptEdits,
    DontAsk,
    BypassPermissions,
}

/// Session status filter of `sessions --status`.
#[derive(Clone, Copy, PartialEq, Eq, Debug)]
pub enum SessionStatusFilter {
    Running,
    Completed,
    Cancelled,
    Failed,
}

/// Output format of `export`.
#[derive(Clone, Copy, PartialEq, Eq, Debug)]
pub enum ExportFormat {
    Markdown,
    Json,
    Html,
}

/// Whether `export` embeds images: `auto` does for HTML only.
#[derive(Clone, Copy, PartialEq, Eq, Debug)]
pub enum InlineImages {
    Auto,
    On,
    Off,
}

/// Shells that completion scripts are made for.
#[derive(Clone, Copy, PartialEq, Eq, Debug)]
pub enum ClapShell {
    Bash,
    Zsh,
    Fish,
    PowerShell,
    Elvish,
}

/// The stream mode named `s`.
pub open spec fn stream_mode_named(s: Seq<char>) -> Option<StreamMode> {
    if s == "off"@ {
        Some(StreamMode::Off)
    } else if s == "human"@ {
        Some(StreamMode::Human)
    } else if s == "ndjson"@ {
        Some(StreamMode::Ndjson)
    } else {
        None
    }
}

/// The stdin merge named `s`.
pub open spec fn stdin_merge_named(s: Seq<char>) -> Option<StdinMerge> {
    if s == "append"@ {
        Some(StdinMerge::Append)
    } else if s == "prefix"@ {
        Some(StdinMerge::Prefix)
    } else if s == "only"@ {
        Some(StdinMerge::Only)
    } else {
        None
    }
}

/// The permission mode with command-line name `s`.
pub open spec fn cli_permission_named(s: Seq<char>) -> Option<CliPermissionMode> {
    if s == "default"@ {
        Some(CliPermissionMode::Default)
    } else if s == "plan"@ {
        Some(CliPermissionMode::Plan)
    } else if s == "accept-edits"@ {
        Some(CliPermissionMode::AcceptEdits)
    } else if s == "dont-ask"@ {
        Some(CliPermissionMode::DontAsk)
    } else if s == "bypass-permissions"@ {
        Some(CliPermissionMode::BypassPermissions)
    } else {
        None
    }
}

/// The status filter named `s`.
pub open spec fn status_filter_named(s: Seq<char>) -> Option<SessionStatusFilter> {
    if s == "running"@ {
        Some(SessionStatusFilter::Running)
    } else if s == "completed"@ {
        Some(SessionStatusFilter::Completed)
    } else if s == "cancelled"@ {
        Some(SessionStatusFilter::Cancelled)
    } else if s == "failed"@ {
        Some(SessionStatusFilter::Failed)
    } else {
        None
    }
}

/// The export format named `s`.
pub open spec fn export_format_named(s: Seq<char>) -> Option<ExportFormat> {
    if s == "markdown"@ {
        Some(ExportFormat::Markdown)
    } else if s == "json"@ {
        Some(ExportFormat::Json)
    } else if s == "html"@ {
        Some(ExportFormat::Html)
    } else {
        None
    }
}

/// The image mode named `s`.
pub open spec fn inline_images_named(s: Seq<char>) -> Option<InlineImages> {
    if s == "auto"@ {
        Some(InlineImages::Auto)
    } else if s == "on"@ {
        Some(InlineImages::On)
    } else if s == "off"@ {
        Some(InlineImages::Off)
    } else {
        None
    }
}

/// The shell named `s`.
pub open spec fn shell_named(s: Seq<char>) -> Option<ClapShell> {
    if s == "bash"@ {
        Some(ClapShell::Bash)
    } else if s == "zsh"@ {
        Some(ClapShell::Zsh)
    } else if s == "fish"@ {
        Some(ClapShell::Fish)
    } else if s == "power-shell"@ {
        Some(ClapShell::PowerShell)
    } else if s == "elvish"@ {
        Some(ClapShell::Elvish)
    } else {
        None
    }
}

/// Whether `v` spells the literal `lit`.
fn is_word(v: &[char], lit: &str) -> (b: bool)
    ensures
        b == (v@ == lit@),
{
    let w = chars_of(lit);
    eq_vec(v, &w)
}

/// The stream mode named `v`.
pub fn stream_mode_from(v: &[char]) -> (r: Option<StreamMode>)
    ensures
        r == stream_mode_named(v@),
{
    if is_word(v, "off") {
        Some(StreamMode::Off)
    } else if is_word(v, "human") {
        Some(StreamMode::Human)
    } else if is_word(v, "ndjson") {
        Some(StreamMode::Ndjson)
    } else {
        None
    }
}

/// The stdin merge named `v`.
pub fn stdin_merge_from(v: &[char]) -> (r: Option<StdinMerge>)
    ensures
        r == stdin_merge_named(v@),
{
    if is_word(v, "append") {
        Some(StdinMerge::Append)
    } else if is_word(v, "prefix") {
        Some(StdinMerge::Prefix)
    } else if is_word(v, "only") {
        Some(StdinMerge::Only)
    } else {
        None
    }
}

/// The permission mode with command-line name `v`.
pub fn cli_permission_from(v: &[char]) -> (r: Option<CliPermissionMode>)
    ensures
        r == cli_permission_named(v@),
{
    if is_word(v, "default") {
        Some(CliPermissionMode::Default)
    } else if is_word(v, "plan") {
        Some(CliPermissionMode::Plan)
    } else if is_word(v, "accept-edits") {
        Some(CliPermissionMode::AcceptEdits)
    } else if is_word(v, "dont-ask") {
        Some(CliPermissionMode::DontAsk)
    } else if is_word(v, "bypass-permissions") {
        Some(CliPermissionMode::BypassPermissions)
    } else {
        None
    }
}

/// The status filter named `v`.
pub fn status_filter_from(v: &[char]) -> (r: Option<SessionStatusFilter>)
    ensures
        r == status_filter_named(v@),
{
    if is_word(v, "running") {
        Some(SessionStatusFilter::Running)
    } else if is_word(v, "completed") {
        Some(SessionStatusFilter::Completed)
    } else if is_word(v, "cancelled") {
        Some(SessionStatusFilter::Cancelled)
    } else if is_word(v, "failed") {
        Some(SessionStatusFilter::Failed)
    } else {
        None
    }
}

/// The export format named `v`.
pub fn export_format_from(v: &[char]) -> (r: Option<ExportFormat>)
    ensures
        r == export_format_named(v@),
{
    if is_word(v, "markdown") {
        Some(ExportFormat::Markdown)
    } else if is_word(v, "json") {
        Some(ExportFormat::Json)
    } else if is_word(v, "html") {
        Some(ExportFormat::Html)
    } else {
        None
    }
}

/// The image mode named `v`.
pub fn inline_images_from(v: &[char]) -> (r: Option<InlineImages>)
    ensures
        r == inline_images_named(v@),
{
    if is_word(v, "auto") {
        Some(InlineImages::Auto)
    } else if is_word(v, "on") {
        Some(InlineImages::On)
    } else if is_word(v, "off") {
        Some(InlineImages::Off)
    } else {
        None
    }
}

/// The shell named `v`.
pub fn shell_from(v: &[char]) -> (r: Option<ClapShell>)
    ensures
        r == shell_named(v@),
{
    if is_word(v, "bash") {
        Some(ClapShell::Bash)
    } else if is_word(v, "zsh") {
        Some(ClapShell::Zsh)
    } else if is_word(v, "fish") {
        Some(ClapShell::Fish)
    } else if is_word(v, "power-shell") {
        Some(ClapShell::PowerShell)
    } else if is_word(v, "elvish") {
        Some(ClapShell::Elvish)
    } else {
        None
    }
}

impl CliPermissionMode {
    /// The command-line spelling of the mode.
    pub open spec fn arg_name(self) -> Seq<char> {
        match self {
            CliPermissionMode::Default => "default"@,
            CliPermissionMode::Plan => "plan"@,
            CliPermissionMode::AcceptEdits => "accept-edits"@,
            CliPermissionMode::DontAsk => "dont-ask"@,
            CliPermissionMode::BypassPermissions => "bypass-permissions"@,
        }
    }

    /// The command-line spelling of the mode.
    pub fn as_arg(self) -> (r: &'static str)
        ensures
            r@ == self.arg_name(),
    {
        match self {
            CliPermissionMode::Default => "default",
            CliPermissionMode::Plan => "plan",
            CliPermissionMode::AcceptEdits => "accept-edits",
            CliPermissionMode::DontAsk => "dont-ask",
            CliPermissionMode::BypassPermissions => "bypass-permissions",
        }
    }
}

/// A mode's command-line spelling reads back as the same mode: what `as_arg` writes for a
/// spawned run, the parser of `--permission-mode` accepts.
pub proof fn law_permission_spelling_round_trip(m: CliPermissionMode)
    ensures
        cli_permission_named(m.arg_name()) == Some(m),
{
    reveal_strlit("default");
    reveal_strlit("plan");
    reveal_strlit("accept-edits");
    reveal_strlit("dont-ask");
    reveal_strlit("bypass-permissions");
    assert("default"@.len() == 7);
    assert("plan"@.len() == 4);
    assert("accept-edits"@.len() == 12);
    assert("dont-ask"@.len() == 8);
    assert("bypass-permissions"@.len() == 18);
}

/// The configuration permission mode of a command-line mode.
pub open spec fn permission_of(m: CliPermissionMode) -> PermissionMode {
    match m {
        CliPermissionMode::Default => PermissionMode::Default,
        CliPermissionMode::Plan => PermissionMode::Plan,
        CliPermissionMode::AcceptEdits => PermissionMode::AcceptEdits,
        CliPermissionMode::DontAsk => PermissionMode::DontAsk,
        CliPermissionMode::BypassPermissions => PermissionMode::BypassPermissions,
    }
}

impl From<CliPermissionMode> for PermissionMode {
    fn from(value: CliPermissionMode) -> (r: Self)
        ensures
            r == permission_of(value),
    {
        match value {
            CliPermissionMode::Default => PermissionMode::Default,
            CliPermissionMode::Plan => PermissionMode::Plan,
            CliPermissionMode::AcceptEdits => PermissionMode::AcceptEdits,
            CliPermissionMode::DontAsk => PermissionMode::DontAsk,
            CliPermissionMode::BypassPermissions => PermissionMode::BypassPermissions,
        }
    }
}

impl vstd::std_specs::convert::FromSpecImpl<CliPermissionMode> for PermissionMode {
    open spec fn obeys_from_spec() -> bool {
        true
    }

    open spec fn from_spec(v: CliPermissionMode) -> PermissionMode {
        permission_of(v)
    }
}

/// The number that a run of ASCII digits spells.
pub open spec fn digits_value(d: Seq<char>) -> int
    decreases d.len(),
{
    if d.len() == 0 {
        0
    } else {
        digits_value(d.drop_last()) * 10 + ((d.last() as u32) - ('0' as u32))
    }
}

/// Every character is an ASCII digit.
pub open spec fn all_digits(d: Seq<char>) -> bool {
    forall|i: int| 0 <= i < d.len() ==> '0' <= #[trigger] d[i] && d[i] <= '9'
}

/// The number `str::parse` reads from `s` for an unsigned type whose largest value is
/// `max`: an optional `+` and at least one digit, with a value at most `max`.
pub open spec fn parse_unsigned(s: Seq<char>, max: int) -> Option<int> {
    let d = if s.len() > 0 && s[0] == '+' {
        s.drop_first()
    } else {
        s
    };
    if d.len() > 0 && all_digits(d) && digits_value(d) <= max {
        Some(digits_value(d))
    } else {
        None
    }
}

/// Digits only add to the value: a prefix of a run of digits spells at most as much.
proof fn lemma_digits_prefix(s: Seq<char>, j: int)
    requires
        all_digits(s),
        0 <= j <= s.len(),
    ensures
        0 <= digits_value(s.take(j)) <= digits_value(s),
    decreases s.len(),
{
    if s.len() > 0 {
        let t = s.drop_last();
        assert(all_digits(t)) by {
            assert forall|i: int| 0 <= i < t.len() implies '0' <= #[trigger] t[i] && t[i] <= '9' by {
                assert(t[i] == s[i]);
            }
        }
        assert('0' <= s[s.len() - 1] && s[s.len() - 1] <= '9');
        if j == s.len() {
            assert(s.take(j) =~= s);
            lemma_digits_prefix(t, t.len() as int);
            assert(t.take(t.len() as int) =~= t);
        } else {
            assert(t.take(j) =~= s.take(j));
            lemma_digits_prefix(t, j);
            lemma_digits_prefix(t, t.len() as int);
            assert(t.take(t.len() as int) =~= t);
        }
    } else {
        assert(s.take(j) =~= s);
    }
}

/// Parse an unsigned number no larger than `max`.
pub fn parse_unsigned_exec(v: &[char], max: u64) -> (r: Option<u64>)
    ensures
        match r {
            Some(n) => parse_unsigned(v@, max as int) == Some(n as int),
            None => parse_unsigned(v@, max as int) is None,
        },
{
    let start: usize = if v.len() > 0 && v[0] == '+' {
        1
    } else {
        0
    };
    let ghost d = if v@.len() > 0 && v@[0] == '+' {
        v@.drop_first()
    } else {
        v@
    };
    assert(d =~= v@.skip(start as int));
    if start >= v.len() {
        return None;
    }
    let mut acc: u64 = 0;
    let mut i: usize = start;
    while i < v.len()
        invariant
            start <= i <= v@.len(),
            d =~= v@.skip(start as int),
            d == (if v@.len() > 0 && v@[0] == '+' {
                v@.drop_first()
            } else {
                v@
            }),
            acc <= max,
            all_digits(d.take(i - start)),
            acc as int == digits_value(d.take(i - start)),
        decreases v@.len() - i,
    {
        let c = v[i];
        if c < '0' || c > '9' {
            assert(!all_digits(d)) by {
                assert(d[i - start] == c);
            }
            return None;
        }
        let dig: u64 = (c as u32 - '0' as u32) as u64;
        let ghost prev = d.take(i - start);
        assert(d.take(i + 1 - start).drop_last() =~= prev);
        assert(d.take(i + 1 - start).last() == c);
        let over = if acc > max / 10 {
            true
        } else {
            assert(acc * 10 <= max) by (nonlinear_arith)
                requires
                    acc <= max / 10,
            ;
            dig > max - acc * 10
        };
        if over {
            assert(acc * 10 + dig > max) by (nonlinear_arith)
                requires
                    acc > max / 10 || dig > max - acc * 10,
                    dig >= 0,
            ;
            assert(digits_value(d.take(i + 1 - start)) > max) by (nonlinear_arith)
                requires
                    digits_value(d.take(i + 1 - start)) == digits_value(prev) * 10 + dig,
                    digits_value(prev) >= acc,
                    acc * 10 + dig > max,
            ;
            proof {
                if all_digits(d) {
                    lemma_digits_prefix(d, i + 1 - start);
                }
            }
            return None;
        }
        acc = acc * 10 + dig;
        assert(all_digits(d.take(i + 1 - start))) by {
            assert forall|k: int| 0 <= k < d.take(i + 1 - start).len() implies '0' <= #[trigger] d.take(
                i + 1 - start,
            )[k] && d.take(i + 1 - start)[k] <= '9' by {
                if k < i - start {
                    assert(d.take(i + 1 - start)[k] == prev[k]);
                }
            }
        }
        i += 1;
    }
    assert(d.take(v@.len() - start) =~= d);
    Some(acc)
}

/// Option `k` was given.
pub open spec fn given(sc: ScanView, k: int) -> bool {
    sc.values[k].len() > 0
}

/// The (first) value of option `k`, if given.
pub open spec fn value_of(sc: ScanView, k: int) -> Option<Seq<char>> {
    if given(sc, k) {
        Some(sc.values[k][0])
    } else {
        None
    }
}

/// `o` holds the characters `v` holds.
pub open spec fn same_text(o: Option<String>, v: Option<Seq<char>>) -> bool {
    match (o, v) {
        (Some(a), Some(b)) => a@ == b,
        (None, None) => true,
        _ => false,
    }
}

/// The error of a required option or positional argument `shown` whose value is `v`.
pub open spec fn required_error(v: Option<Seq<char>>, shown: Seq<char>) -> Option<ErrV> {
    if v is None {
        Some((CliErrorKind::MissingRequiredArgument, shown))
    } else {
        None
    }
}

/// The error of a value that a parser refuses.
pub open spec fn invalid_error(v: Option<Seq<char>>, ok: bool) -> Option<ErrV> {
    match v {
        Some(s) => if ok {
            None
        } else {
            Some((CliErrorKind::InvalidValue, s))
        },
        None => None,
    }
}

/// The first error of a list of checks.
pub open spec fn first_error(s: Seq<Option<ErrV>>) -> Option<ErrV>
    decreases s.len(),
{
    if s.len() == 0 {
        None
    } else if s[0] is Some {
        s[0]
    } else {
        first_error(s.drop_first())
    }
}

/// The `i`-th positional argument, if given.
pub open spec fn positional_of(sc: ScanView, i: int) -> Option<Seq<char>> {
    if 0 <= i < sc.positionals.len() {
        Some(sc.positionals[i])
    } else {
        None
    }
}

/// The characters of `sc.values[k][0]`.
proof fn lemma_value_view(sc: &ScanOut, k: int)
    requires
        0 <= k < sc.values@.len(),
        sc.values@[k]@.len() > 0,
    ensures
        sc.view().values[k][0] == sc.values@[k]@[0]@,
        given(sc.view(), k),
{
    assert(sc.view().values[k] == views(sc.values@[k]@));
}

/// Whether option `k` was given.
pub fn get_flag(sc: &ScanOut, k: usize) -> (b: bool)
    requires
        k < sc.values@.len(),
    ensures
        b == given(sc.view(), k as int),
{
    proof {
        assert(sc.view().values[k as int] == views(sc.values@[k as int]@));
    }
    sc.values[k].len() > 0
}

/// The value of option `k`, if given.
pub fn get_opt(sc: &ScanOut, k: usize) -> (r: Option<String>)
    requires
        k < sc.values@.len(),
    ensures
        same_text(r, value_of(sc.view(), k as int)),
{
    proof {
        assert(sc.view().values[k as int] == views(sc.values@[k as int]@));
    }
    if sc.values[k].len() > 0 {
        proof {
            lemma_value_view(sc, k as int);
        }
        Some(sc.values[k][0].clone())
    } else {
        None
    }
}

/// The characters of the value of option `k`, if given.
pub fn opt_chars(sc: &ScanOut, k: usize) -> (r: Option<Vec<char>>)
    requires
        k < sc.values@.len(),
    ensures
        match r {
            Some(v) => value_of(sc.view(), k as int) == Some(v@),
            None => value_of(sc.view(), k as int) is None,
        },
{
    proof {
        assert(sc.view().values[k as int] == views(sc.values@[k as int]@));
    }
    if sc.values[k].len() > 0 {
        proof {
            lemma_value_view(sc, k as int);
        }
        Some(chars_of(sc.values[k][0].as_str()))
    } else {
        None
    }
}

/// The value of required option `k`, shown as `shown` when absent.
pub fn get_required(sc: &ScanOut, k: usize, shown: &str) -> (r: Result<String, CliError>)
    requires
        k < sc.values@.len(),
    ensures
        match r {
            Ok(s) => value_of(sc.view(), k as int) == Some(s@),
            Err(e) => required_error(value_of(sc.view(), k as int), shown@) == Some(e.view()),
        },
{
    match get_opt(sc, k) {
        Some(s) => Ok(s),
        None => Err(cli_error(CliErrorKind::MissingRequiredArgument, &chars_of(shown))),
    }
}

/// The `i`-th positional argument, if given.
pub fn get_positional(sc: &ScanOut, i: usize) -> (r: Option<String>)
    ensures
        same_text(r, positional_of(sc.view(), i as int)),
{
    if i < sc.positionals.len() {
        Some(sc.positionals[i].clone())
    } else {
        None
    }
}

/// The required `i`-th positional argument, shown as `shown` when absent.
pub fn get_positional_required(sc: &ScanOut, i: usize, shown: &str) -> (r: Result<String, CliError>)
    ensures
        match r {
            Ok(s) => positional_of(sc.view(), i as int) == Some(s@),
            Err(e) => required_error(positional_of(sc.view(), i as int), shown@) == Some(
                e.view(),
            ),
        },
{
    match get_positional(sc, i) {
        Some(s) => Ok(s),
        None => Err(cli_error(CliErrorKind::MissingRequiredArgument, &chars_of(shown))),
    }
}

/// All values of a repeatable option `k`.
pub fn get_all(sc: &ScanOut, k: usize) -> (r: Vec<String>)
    requires
        k < sc.values@.len(),
    ensures
        views(r@) == sc.view().values[k as int],
{
    proof {
        assert(sc.view().values[k as int] == views(sc.values@[k as int]@));
    }
    let src = &sc.values[k];
    let mut r: Vec<String> = Vec::new();
    let mut i: usize = 0;
    while i < src.len()
        invariant
            i <= src@.len(),
            views(r@) == views(src@).take(i as int),
        decreases src@.len() - i,
    {
        let ghost r0 = r@;
        let item = src[i].clone();
        assert(item@ == views(src@)[i as int]);
        r.push(item);
        assert(views(r@) =~= views(r0).push(item@));
        assert(views(src@).take(i + 1) =~= views(src@).take(i as int).push(views(src@)[i as int]));
        assert(views(r@) =~= views(src@).take(i + 1));
        i += 1;
    }
    assert(views(src@).take(src@.len() as int) =~= views(src@));
    r
}

/// The characters a value holds, if any.
pub open spec fn chars_view(v: Option<Vec<char>>) -> Option<Seq<char>> {
    match v {
        Some(c) => Some(c@),
        None => None,
    }
}

/// The characters of the `i`-th positional argument, if given.
pub fn positional_chars(sc: &ScanOut, i: usize) -> (r: Option<Vec<char>>)
    ensures
        chars_view(r) == positional_of(sc.view(), i as int),
{
    if i < sc.positionals.len() {
        proof {
            assert(sc.view().positionals[i as int] == sc.positionals@[i as int]@);
        }
        Some(chars_of(sc.positionals[i].as_str()))
    } else {
        None
    }
}

/// The number a value spells when it fits an unsigned type with largest value `max`.
pub open spec fn number_opt(v: Option<Seq<char>>, max: int) -> Option<int> {
    match v {
        Some(s) => parse_unsigned(s, max),
        None => None,
    }
}

/// The error of a value that is not a number up to `max`.
pub open spec fn number_error(v: Option<Seq<char>>, max: int) -> Option<ErrV> {
    invalid_error(v, number_opt(v, max) is Some)
}

/// The `u32` a value spells, if a value is given.
pub fn u32_arg(v: Option<Vec<char>>) -> (r: Result<Option<u32>, CliError>)
    ensures
        match r {
            Ok(Some(n)) => number_opt(chars_view(v), u32::MAX as int) == Some(n as int),
            Ok(None) => v is None,
            Err(e) => number_error(chars_view(v), u32::MAX as int) == Some(e.view()),
        },
{
    match v {
        None => Ok(None),
        Some(c) => match parse_unsigned_exec(&c, 0xffff_ffff) {
            Some(n) => Ok(Some(n as u32)),
            None => Err(cli_error(CliErrorKind::InvalidValue, &c)),
        },
    }
}

/// The `usize` a value spells, if a value is given.
pub fn usize_arg(v: Option<Vec<char>>) -> (r: Result<Option<usize>, CliError>)
    ensures
        match r {
            Ok(Some(n)) => number_opt(chars_view(v), usize::MAX as int) == Some(n as int),
            Ok(None) => v is None,
            Err(e) => number_error(chars_view(v), usize::MAX as int) == Some(e.view()),
        },
{
    match v {
        None => Ok(None),
        Some(c) => match parse_unsigned_exec(&c, usize::MAX as u64) {
            Some(n) => Ok(Some(n as usize)),
            None => Err(cli_error(CliErrorKind::InvalidValue, &c)),
        },
    }
}

/// The StreamMode a value names, if a value is given (`None` also for an unknown name).
pub open spec fn stream_opt(v: Option<Seq<char>>) -> Option<StreamMode> {
    match v {
        Some(s) => stream_mode_named(s),
        None => None,
    }
}

/// The error of a value that names no StreamMode.
pub open spec fn stream_error(v: Option<Seq<char>>) -> Option<ErrV> {
    invalid_error(v, stream_opt(v) is Some)
}

/// The StreamMode a value names, or `d` when no value is given.
pub open spec fn stream_or(v: Option<Seq<char>>, d: StreamMode) -> StreamMode {
    match stream_opt(v) {
        Some(m) => m,
        None => d,
    }
}

/// The StreamMode a value names, if a value is given.
pub fn stream_arg(v: Option<Vec<char>>) -> (r: Result<Option<StreamMode>, CliError>)
    ensures
        match r {
            Ok(m) => stream_error(chars_view(v)) is None && m == stream_opt(chars_view(v)),
            Err(e) => stream_error(chars_view(v)) == Some(e.view()),
        },
{
    match v {
        None => Ok(None),
        Some(c) => match stream_mode_from(&c) {
            Some(m) => Ok(Some(m)),
            None => Err(cli_error(CliErrorKind::InvalidValue, &c)),
        },
    }
}

/// The CliPermissionMode a value names, if a value is given (`None` also for an unknown name).
pub open spec fn permission_opt(v: Option<Seq<char>>) -> Option<CliPermissionMode> {
    match v {
        Some(s) => cli_permission_named(s),
        None => None,
    }
}

/// The error of a value that names no CliPermissionMode.
pub open spec fn permission_error(v: Option<Seq<char>>) -> Option<ErrV> {
    invalid_error(v, permission_opt(v) is Some)
}

/// The CliPermissionMode a value names, or `d` when no value is given.
pub open spec fn permission_or(v: Option<Seq<char>>, d: CliPermissionMode) -> CliPermissionMode {
    match permission_opt(v) {
        Some(m) => m,
        None => d,
    }
}

/// The CliPermissionMode a value names, if a value is given.
pub fn permission_arg(v: Option<Vec<char>>) -> (r: Result<Option<CliPermissionMode>, CliError>)
    ensures
        match r {
            Ok(m) => permission_error(chars_view(v)) is None && m == permission_opt(chars_view(v)),
            Err(e) => permission_error(chars_view(v)) == Some(e.view()),
        },
{
    match v {
        None => Ok(None),
        Some(c) => match cli_permission_from(&c) {
            Some(m) => Ok(Some(m)),
            None => Err(cli_error(CliErrorKind::InvalidValue, &c)),
        },
    }
}

/// The StdinMerge a value names, if a value is given (`None` also for an unknown name).
pub open spec fn stdin_merge_opt(v: Option<Seq<char>>) -> Option<StdinMerge> {
    match v {
        Some(s) => stdin_merge_named(s),
        None => None,
    }
}

/// The error of a value that names no StdinMerge.
pub open spec fn stdin_merge_error(v: Option<Seq<char>>) -> Option<ErrV> {
    invalid_error(v, stdin_merge_opt(v) is Some)
}

/// The StdinMerge a value names, or `d` when no value is given.
pub open spec fn stdin_merge_or(v: Option<Seq<char>>, d: StdinMerge) -> StdinMerge {
    match stdin_merge_opt(v) {
        Some(m) => m,
        None => d,
    }
}

/// The StdinMerge a value names, if a value is given.
pub fn stdin_merge_arg(v: Option<Vec<char>>) -> (r: Result<Option<StdinMerge>, CliError>)
    ensures
        match r {
            Ok(m) => stdin_merge_error(chars_view(v)) is None && m == stdin_merge_opt(chars_view(v)),
            Err(e) => stdin_merge_error(chars_view(v)) == Some(e.view()),
        },
{
    match v {
        None => Ok(None),
        Some(c) => match stdin_merge_from(&c) {
            Some(m) => Ok(Some(m)),
            None => Err(cli_error(CliErrorKind::InvalidValue, &c)),
        },
    }
}

/// The SessionStatusFilter a value names, if a value is given (`None` also for an unknown name).
pub open spec fn status_filter_opt(v: Option<Seq<char>>) -> Option<SessionStatusFilter> {
    match v {
        Some(s) => status_filter_named(s),
        None => None,
    }
}

/// The error of a value that names no SessionStatusFilter.
pub open spec fn status_filter_error(v: Option<Seq<char>>) -> Option<ErrV> {
    invalid_error(v, status_filter_opt(v) is Some)
}

/// The SessionStatusFilter a value names, or `d` when no value is given.
pub open spec fn status_filter_or(v: Option<Seq<char>>, d: SessionStatusFilter) -> SessionStatusFilter {
    match status_filter_opt(v) {
        Some(m) => m,
        None => d,
    }
}

/// The SessionStatusFilter a value names, if a value is given.
pub fn status_filter_arg(v: Option<Vec<char>>) -> (r: Result<Option<SessionStatusFilter>, CliError>)
    ensures
        match r {
            Ok(m) => status_filter_error(chars_view(v)) is None && m == status_filter_opt(chars_view(v)),
            Err(e) => status_filter_error(chars_view(v)) == Some(e.view()),
        },
{
    match v {
        None => Ok(None),
        Some(c) => match status_filter_from(&c) {
            Some(m) => Ok(Some(m)),
            None => Err(cli_error(CliErrorKind::InvalidValue, &c)),
        },
    }
}

/// The ExportFormat a value names, if a value is given (`None` also for an unknown name).
pub open spec fn export_format_opt(v: Option<Seq<char>>) -> Option<ExportFormat> {
    match v {
        Some(s) => export_format_named(s),
        None => None,
    }
}

/// The error of a value that names no ExportFormat.
pub open spec fn export_format_error(v: Option<Seq<char>>) -> Option<ErrV> {
    invalid_error(v, export_format_opt(v) is Some)
}

/// The ExportFormat a value names, or `d` when no value is given.
pub open spec fn export_format_or(v: Option<Seq<char>>, d: ExportFormat) -> ExportFormat {
    match export_format_opt(v) {
        Some(m) => m,
        None => d,
    }
}

/// The ExportFormat a value names, if a value is given.
pub fn export_format_arg(v: Option<Vec<char>>) -> (r: Result<Option<ExportFormat>, CliError>)
    ensures
        match r {
            Ok(m) => export_format_error(chars_view(v)) is None && m == export_format_opt(chars_view(v)),
            Err(e) => export_format_error(chars_view(v)) == Some(e.view()),
        },
{
    match v {
        None => Ok(None),
        Some(c) => match export_format_from(&c) {
            Some(m) => Ok(Some(m)),
            None => Err(cli_error(CliErrorKind::InvalidValue, &c)),
        },
    }
}

/// The InlineImages a value names, if a value is given (`None` also for an unknown name).
pub open spec fn inline_images_opt(v: Option<Seq<char>>) -> Option<InlineImages> {
    match v {
        Some(s) => inline_images_named(s),
        None => None,
    }
}

/// The error of a value that names no InlineImages.
pub open spec fn inline_images_error(v: Option<Seq<char>>) -> Option<ErrV> {
    invalid_error(v, inline_images_opt(v) is Some)
}

/// The InlineImages a value names, or `d` when no value is given.
pub open spec fn inline_images_or(v: Option<Seq<char>>, d: InlineImages) -> InlineImages {
    match inline_images_opt(v) {
        Some(m) => m,
        None => d,
    }
}

/// The InlineImages a value names, if a value is given.
pub fn inline_images_arg(v: Option<Vec<char>>) -> (r: Result<Option<InlineImages>, CliError>)
    ensures
        match r {
            Ok(m) => inline_images_error(chars_view(v)) is None && m == inline_images_opt(chars_view(v)),
            Err(e) => inline_images_error(chars_view(v)) == Some(e.view()),
        },
{
    match v {
        None => Ok(None),
        Some(c) => match inline_images_from(&c) {
            Some(m) => Ok(Some(m)),
            None => Err(cli_error(CliErrorKind::InvalidValue, &c)),
        },
    }
}

/// The ClapShell a value names, if a value is given (`None` also for an unknown name).
pub open spec fn shell_opt(v: Option<Seq<char>>) -> Option<ClapShell> {
    match v {
        Some(s) => shell_named(s),
        None => None,
    }
}

/// The error of a value that names no ClapShell.
pub open spec fn shell_error(v: Option<Seq<char>>) -> Option<ErrV> {
    invalid_error(v, shell_opt(v) is Some)
}

/// The ClapShell a value names, or `d` when no value is given.
pub open spec fn shell_or(v: Option<Seq<char>>, d: ClapShell) -> ClapShell {
    match shell_opt(v) {
        Some(m) => m,
        None => d,
    }
}

/// The ClapShell a value names, if a value is given.
pub fn shell_arg(v: Option<Vec<char>>) -> (r: Result<Option<ClapShell>, CliError>)
    ensures
        match r {
            Ok(m) => shell_error(chars_view(v)) is None && m == shell_opt(chars_view(v)),
            Err(e) => shell_error(chars_view(v)) == Some(e.view()),
        },
{
    match v {
        None => Ok(None),
        Some(c) => match shell_from(&c) {
            Some(m) => Ok(Some(m)),
            None => Err(cli_error(CliErrorKind::InvalidValue, &c)),
        },
    }
}


/// The value by which `--format` names each export format.
pub open spec fn export_format_value(f: ExportFormat) -> Seq<char> {
    match f {
        ExportFormat::Markdown => "markdown"@,
        ExportFormat::Json => "json"@,
        ExportFormat::Html => "html"@,
    }
}

/// Each `--format` value selects the format of the same name (`html` an HTML export, `json`
/// a JSON one, `markdown` a Markdown one), and a name selects a format only when it is that
/// format's value, so no two formats share a name and none is taken for another.
pub proof fn law_export_format_round_trip(f: ExportFormat, s: Seq<char>, d: ExportFormat)
    ensures
        export_format_named(export_format_value(f)) == Some(f),
        export_format_named(s) == Some(f) ==> s == export_format_value(f),
        export_format_or(Some(export_format_value(f)), d) == f,
{
    reveal_strlit("markdown");
    reveal_strlit("json");
    reveal_strlit("html");
    assert("json"@.len() != "markdown"@.len());
    assert("html"@.len() != "markdown"@.len());
    assert("html"@[0] != "json"@[0]);
}

} // verus!
