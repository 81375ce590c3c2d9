//! Scanning one level of a command line: long and short options, their values,
//! positional arguments and the choice of a subcommand.
//!
//! A level is described by a table of options (long name, optional short letter, and
//! whether it is a flag, takes one value, or may repeat), a number of positional slots and
//! a list of subcommand names. Scanning stops at the first subcommand name, which the
//! caller then scans with that subcommand's own table.

use crate::text::{chars_of, eq_vec, slice_vec, string_of};
use crate::wrap::views;
use vstd::prelude::*;

verus! {

/// How an option takes values.
#[derive(Clone, Copy, PartialEq, Eq, Debug, Structural)]
pub enum ArgKind {
    /// Present or absent, at most once.
    Flag,
    /// Takes one value, at most once.
    Value,
    /// Takes one value per occurrence, any number of times.
    Multi,
}

/// What went wrong while reading the command line.
#[derive(Clone, Copy, PartialEq, Eq, Debug, Structural)]
pub enum CliErrorKind {
    /// `-h`, `--help` or the `help` subcommand: the caller shows the help text.
    DisplayHelp,
    /// An option that the level does not define.
    UnknownArgument,
    /// A value given with `=` to a flag.
    UnexpectedValue,
    /// An option that needs a value came last or before another option.
    MissingValue,
    /// A flag or a single-value option given twice.
    ArgumentConflict,
    /// A value outside the option's allowed values, or not a number where one is needed.
    InvalidValue,
    /// A required option or positional argument is absent.
    MissingRequiredArgument,
    /// A required subcommand is absent.
    MissingSubcommand,
    /// A word where a subcommand was expected that names none.
    InvalidSubcommand,
    /// More positional arguments than the level takes.
    UnexpectedPositional,
}

/// A command-line error: its kind and the argument it is about.
#[derive(Clone, Debug)]
pub struct CliError {
    pub kind: CliErrorKind,
    pub arg: String,
}

impl CliError {
    /// The error as a kind and the characters of its argument.
    pub open spec fn view(&self) -> (CliErrorKind, Seq<char>) {
        (self.kind, self.arg@)
    }
}

/// One option of a level.
pub struct ArgDef {
    pub long: String,
    pub short: Option<char>,
    pub kind: ArgKind,
}

/// The options, positional slots and subcommand names of one level.
pub struct LevelDef {
    pub args: Vec<ArgDef>,
    pub positionals: usize,
    pub subcommands: Vec<String>,
}

/// A level as plain values.
pub struct LevelView {
    pub args: Seq<(Seq<char>, Option<char>, ArgKind)>,
    pub positionals: nat,
    pub subs: Seq<Seq<char>>,
}

/// An option as plain values.
pub open spec fn arg_view(a: ArgDef) -> (Seq<char>, Option<char>, ArgKind) {
    (a.long@, a.short, a.kind)
}

impl LevelDef {
    /// The level as plain values.
    pub open spec fn view(&self) -> LevelView {
        LevelView {
            args: self.args@.map_values(|a: ArgDef| arg_view(a)),
            positionals: self.positionals as nat,
            subs: views(self.subcommands@),
        }
    }
}

/// What has been read of a level so far: the values given to each option (an empty value
/// for each use of a flag), the positional arguments, and whether `--` was seen.
pub struct ScanView {
    pub values: Seq<Seq<Seq<char>>>,
    pub positionals: Seq<Seq<char>>,
    pub raw: bool,
}

/// How scanning a level ended: at the end of the line, or at the subcommand with the given
/// index, whose arguments start at the given token.
pub enum ScanEnd {
    Done(ScanView),
    Sub(ScanView, int, int),
}

/// Nothing read yet.
pub open spec fn init_scan(lv: LevelView) -> ScanView {
    ScanView {
        values: Seq::new(lv.args.len(), |k: int| Seq::<Seq<char>>::empty()),
        positionals: seq![],
        raw: false,
    }
}

/// The characters of each token.
pub open spec fn tok_views(toks: Seq<&str>) -> Seq<Seq<char>> {
    toks.map_values(|s: &str| s@)
}

/// `--name` or `--name=value`.
pub open spec fn is_long_tok(t: Seq<char>) -> bool {
    t.len() > 2 && t[0] == '-' && t[1] == '-'
}

/// `-x`, possibly followed by more letters or a value.
pub open spec fn is_short_tok(t: Seq<char>) -> bool {
    t.len() >= 2 && t[0] == '-' && t[1] != '-'
}

/// A token that can be an option's value: it does not look like an option.
pub open spec fn is_value_tok(t: Seq<char>) -> bool {
    t.len() <= 1 || t[0] != '-'
}

/// The first `=` of `t` at or after `j`.
pub open spec fn eq_pos(t: Seq<char>, j: nat) -> Option<nat>
    decreases t.len() - j,
{
    if j >= t.len() {
        None
    } else if t[j as int] == '=' {
        Some(j)
    } else {
        eq_pos(t, j + 1)
    }
}

/// The option name of a long token.
pub open spec fn long_name(t: Seq<char>) -> Seq<char> {
    match eq_pos(t, 2) {
        Some(p) => t.subrange(2, p as int),
        None => t.skip(2),
    }
}

/// The value written after `=` in a long token.
pub open spec fn long_attached(t: Seq<char>) -> Option<Seq<char>> {
    match eq_pos(t, 2) {
        Some(p) => Some(t.skip(p + 1 as int)),
        None => None,
    }
}

/// The first option at or after `k` with this long name.
pub open spec fn find_long(args: Seq<(Seq<char>, Option<char>, ArgKind)>, name: Seq<char>, k: nat) -> Option<nat>
    decreases args.len() - k,
{
    if k >= args.len() {
        None
    } else if args[k as int].0 == name {
        Some(k)
    } else {
        find_long(args, name, k + 1)
    }
}

/// The first option at or after `k` with this short letter.
pub open spec fn find_short(args: Seq<(Seq<char>, Option<char>, ArgKind)>, c: char, k: nat) -> Option<nat>
    decreases args.len() - k,
{
    if k >= args.len() {
        None
    } else if args[k as int].1 == Some(c) {
        Some(k)
    } else {
        find_short(args, c, k + 1)
    }
}

/// The first name at or after `k` equal to `t`.
pub open spec fn find_name(names: Seq<Seq<char>>, t: Seq<char>, k: nat) -> Option<nat>
    decreases names.len() - k,
{
    if k >= names.len() {
        None
    } else if names[k as int] == t {
        Some(k)
    } else {
        find_name(names, t, k + 1)
    }
}

/// Add a value for option `k`.
pub open spec fn record(st: ScanView, k: nat, v: Seq<char>) -> ScanView {
    ScanView { values: st.values.update(k as int, st.values[k as int].push(v)), ..st }
}

/// Give option `k` its value: the attached one, or else the next token when it can be a
/// value. The flag says whether the next token was used.
pub open spec fn take_value(
    lv: LevelView,
    toks: Seq<Seq<char>>,
    i: nat,
    st: ScanView,
    k: nat,
    attached: Option<Seq<char>>,
    shown: Seq<char>,
) -> Result<(ScanView, bool), (CliErrorKind, Seq<char>)> {
    if lv.args[k as int].2 == ArgKind::Value && st.values[k as int].len() > 0 {
        Err((CliErrorKind::ArgumentConflict, shown))
    } else {
        match attached {
            Some(v) => Ok((record(st, k, v), false)),
            None => if i + 1 < toks.len() && is_value_tok(toks[i + 1 as int]) {
                Ok((record(st, k, toks[i + 1 as int]), true))
            } else {
                Err((CliErrorKind::MissingValue, shown))
            },
        }
    }
}

/// Read the long option at token `i`.
pub open spec fn long_step(lv: LevelView, toks: Seq<Seq<char>>, i: nat, st: ScanView) -> Result<
    (ScanView, bool),
    (CliErrorKind, Seq<char>),
> {
    let t = toks[i as int];
    let name = long_name(t);
    if name == "help"@ {
        Err((CliErrorKind::DisplayHelp, t))
    } else {
        match find_long(lv.args, name, 0) {
            None => Err((CliErrorKind::UnknownArgument, t)),
            Some(k) => if lv.args[k as int].2 == ArgKind::Flag {
                if long_attached(t) is Some {
                    Err((CliErrorKind::UnexpectedValue, t))
                } else if st.values[k as int].len() > 0 {
                    Err((CliErrorKind::ArgumentConflict, t))
                } else {
                    Ok((record(st, k, seq![]), false))
                }
            } else {
                take_value(lv, toks, i, st, k, long_attached(t), t)
            },
        }
    }
}

/// Read the letters of the short token at `i` from position `j`: flags may be grouped, and
/// an option that takes a value takes the rest of the token (after an optional `=`), or the
/// next token when nothing is left.
pub open spec fn short_step(lv: LevelView, toks: Seq<Seq<char>>, i: nat, j: nat, st: ScanView) -> Result<
    (ScanView, bool),
    (CliErrorKind, Seq<char>),
>
    decreases toks[i as int].len() - j,
{
    let t = toks[i as int];
    if j >= t.len() {
        Ok((st, false))
    } else {
        let c = t[j as int];
        let shown = seq!['-', c];
        if c == 'h' {
            Err((CliErrorKind::DisplayHelp, shown))
        } else {
            match find_short(lv.args, c, 0) {
                None => Err((CliErrorKind::UnknownArgument, shown)),
                Some(k) => if lv.args[k as int].2 == ArgKind::Flag {
                    if st.values[k as int].len() > 0 {
                        Err((CliErrorKind::ArgumentConflict, shown))
                    } else {
                        short_step(lv, toks, i, j + 1, record(st, k, seq![]))
                    }
                } else {
                    let rest = t.skip(j + 1 as int);
                    if rest.len() > 0 {
                        take_value(
                            lv,
                            toks,
                            i,
                            st,
                            k,
                            Some(
                                if rest[0] == '=' {
                                    rest.drop_first()
                                } else {
                                    rest
                                },
                            ),
                            shown,
                        )
                    } else {
                        take_value(lv, toks, i, st, k, None, shown)
                    }
                },
            }
        }
    }
}

/// The token after an option at `i`: one further when its value was the next token.
pub open spec fn next_index(toks: Seq<Seq<char>>, i: nat, took: bool) -> nat {
    if took && i + 1 < toks.len() {
        i + 2
    } else {
        i + 1
    }
}

/// Scan the tokens of a level from `i`: `--` makes every later token positional; options
/// are read as above; at a level with subcommands, the first other word must name one
/// (`help` asks for help); at other levels it fills the next positional slot.
pub open spec fn scan(lv: LevelView, toks: Seq<Seq<char>>, i: nat, st: ScanView) -> Result<
    ScanEnd,
    (CliErrorKind, Seq<char>),
>
    decreases toks.len() - i,
{
    if i >= toks.len() {
        Ok(ScanEnd::Done(st))
    } else {
        let t = toks[i as int];
        if !st.raw && t == seq!['-', '-'] {
            scan(lv, toks, i + 1, ScanView { raw: true, ..st })
        } else if !st.raw && is_long_tok(t) {
            match long_step(lv, toks, i, st) {
                Err(e) => Err(e),
                Ok((s2, took)) => scan(lv, toks, next_index(toks, i, took), s2),
            }
        } else if !st.raw && is_short_tok(t) {
            match short_step(lv, toks, i, 1, st) {
                Err(e) => Err(e),
                Ok((s2, took)) => scan(lv, toks, next_index(toks, i, took), s2),
            }
        } else if lv.subs.len() > 0 {
            if st.raw {
                Err((CliErrorKind::InvalidSubcommand, t))
            } else if t == "help"@ {
                Err((CliErrorKind::DisplayHelp, t))
            } else {
                match find_name(lv.subs, t, 0) {
                    Some(k) => Ok(ScanEnd::Sub(st, k as int, i + 1 as int)),
                    None => Err((CliErrorKind::InvalidSubcommand, t)),
                }
            }
        } else if st.positionals.len() < lv.positionals {
            scan(lv, toks, i + 1, ScanView { positionals: st.positionals.push(t), ..st })
        } else {
            Err((CliErrorKind::UnexpectedPositional, t))
        }
    }
}

/// What has been read of a level.
pub struct ScanOut {
    pub values: Vec<Vec<String>>,
    pub positionals: Vec<String>,
    pub raw: bool,
}

impl ScanOut {
    /// As plain values.
    pub open spec fn view(&self) -> ScanView {
        ScanView {
            values: self.values@.map_values(|v: Vec<String>| views(v@)),
            positionals: views(self.positionals@),
            raw: self.raw,
        }
    }
}

/// How scanning ended.
pub enum ScanResult {
    Done(ScanOut),
    Sub(ScanOut, usize, usize),
}

/// A scan result matches its plain-value statement.
pub open spec fn scan_agrees(
    r: Result<ScanResult, CliError>,
    s: Result<ScanEnd, (CliErrorKind, Seq<char>)>,
) -> bool {
    match (r, s) {
        (Ok(ScanResult::Done(o)), Ok(ScanEnd::Done(v))) => o.view() == v,
        (Ok(ScanResult::Sub(o, k, n)), Ok(ScanEnd::Sub(v, k2, n2))) => o.view() == v && k == k2
            && n == n2,
        (Err(e), Err(ev)) => e.view() == ev,
        _ => false,
    }
}

/// An error with the given kind and argument.
pub fn cli_error(kind: CliErrorKind, arg: &[char]) -> (e: CliError)
    ensures
        e.view() == (kind, arg@),
{
    CliError { kind, arg: string_of(arg) }
}

/// The index of the first option with long name `name`.
fn find_long_exec(lv: &LevelDef, name: &[char]) -> (r: Option<usize>)
    ensures
        match r {
            Some(k) => find_long(lv.view().args, name@, 0) == Some(k as nat) && k < lv.args@.len(),
            None => find_long(lv.view().args, name@, 0) is None,
        },
{
    let ghost args = lv.view().args;
    let mut k: usize = 0;
    while k < lv.args.len()
        invariant
            k <= lv.args@.len(),
            args == lv.view().args,
            find_long(args, name@, 0) == find_long(args, name@, k as nat),
        decreases lv.args@.len() - k,
    {
        let l = chars_of(lv.args[k].long.as_str());
        if eq_vec(&l, name) {
            return Some(k);
        }
        k += 1;
    }
    None
}

/// The index of the first option with short letter `c`.
fn find_short_exec(lv: &LevelDef, c: char) -> (r: Option<usize>)
    ensures
        match r {
            Some(k) => find_short(lv.view().args, c, 0) == Some(k as nat) && k < lv.args@.len(),
            None => find_short(lv.view().args, c, 0) is None,
        },
{
    let ghost args = lv.view().args;
    let mut k: usize = 0;
    while k < lv.args.len()
        invariant
            k <= lv.args@.len(),
            args == lv.view().args,
            find_short(args, c, 0) == find_short(args, c, k as nat),
        decreases lv.args@.len() - k,
    {
        if lv.args[k].short == Some(c) {
            return Some(k);
        }
        k += 1;
    }
    None
}

/// The index of the first subcommand named `t`.
fn find_sub_exec(lv: &LevelDef, t: &[char]) -> (r: Option<usize>)
    ensures
        match r {
            Some(k) => find_name(lv.view().subs, t@, 0) == Some(k as nat),
            None => find_name(lv.view().subs, t@, 0) is None,
        },
{
    let ghost subs = lv.view().subs;
    let mut k: usize = 0;
    while k < lv.subcommands.len()
        invariant
            k <= lv.subcommands@.len(),
            subs == lv.view().subs,
            find_name(subs, t@, 0) == find_name(subs, t@, k as nat),
        decreases lv.subcommands@.len() - k,
    {
        let n = chars_of(lv.subcommands[k].as_str());
        if eq_vec(&n, t) {
            return Some(k);
        }
        k += 1;
    }
    None
}

/// The first `=` of `t` at or after `j`.
fn eq_pos_exec(t: &[char], j: usize) -> (r: Option<usize>)
    ensures
        match r {
            Some(p) => eq_pos(t@, j as nat) == Some(p as nat) && j <= p < t@.len(),
            None => eq_pos(t@, j as nat) is None,
        },
{
    let mut p = j;
    while p < t.len()
        invariant
            j <= p,
            eq_pos(t@, j as nat) == eq_pos(t@, p as nat),
        decreases t@.len() - p,
    {
        if t[p] == '=' {
            return Some(p);
        }
        p += 1;
    }
    None
}

/// Add value `v` for option `k`.
fn record_exec(st: &mut ScanOut, k: usize, v: String)
    requires
        k < old(st).values@.len(),
    ensures
        final(st).view() == record(old(st).view(), k as nat, v@),
        final(st).values@.len() == old(st).values@.len(),
{
    let ghost old_view = st.view();
    let ghost inner0 = st.values@[k as int];
    st.values[k].push(v);
    proof {
        assert(views(st.values@[k as int]@) =~= views(inner0@).push(v@));
        assert(st.view().values =~= old_view.values.update(k as int, old_view.values[k as int].push(v@)));
    }
}

/// Whether token characters `t` can be an option's value.
fn is_value_exec(t: &[char]) -> (b: bool)
    ensures
        b == is_value_tok(t@),
{
    t.len() <= 1 || t[0] != '-'
}

/// Exec form of [`take_value`].
fn take_value_exec(
    lv: &LevelDef,
    toks: &[&str],
    i: usize,
    st: &mut ScanOut,
    k: usize,
    attached: Option<Vec<char>>,
    shown: &[char],
) -> (r: Result<bool, CliError>)
    requires
        i < toks@.len(),
        k < lv.args@.len(),
        old(st).values@.len() == lv.args@.len(),
    ensures
        final(st).values@.len() == old(st).values@.len(),
        match r {
            Ok(took) => take_value(
                lv.view(),
                tok_views(toks@),
                i as nat,
                old(st).view(),
                k as nat,
                match attached {
                    Some(a) => Some(a@),
                    None => None,
                },
                shown@,
            ) == Ok::<(ScanView, bool), (CliErrorKind, Seq<char>)>((final(st).view(), took)),
            Err(e) => take_value(
                lv.view(),
                tok_views(toks@),
                i as nat,
                old(st).view(),
                k as nat,
                match attached {
                    Some(a) => Some(a@),
                    None => None,
                },
                shown@,
            ) == Err::<(ScanView, bool), (CliErrorKind, Seq<char>)>(e.view()),
        },
{
    proof {
        assert(lv.view().args[k as int] == arg_view(lv.args@[k as int]));
        assert(st.view().values[k as int] == views(st.values@[k as int]@));
    }
    if lv.args[k].kind == ArgKind::Value && st.values[k].len() > 0 {
        return Err(cli_error(CliErrorKind::ArgumentConflict, shown));
    }
    match attached {
        Some(a) => {
            record_exec(st, k, string_of(&a));
            Ok(false)
        },
        None => {
            if i < toks.len() - 1 {
                let next = chars_of(toks[i + 1]);
                if is_value_exec(&next) {
                    record_exec(st, k, string_of(&next));
                    return Ok(true);
                }
            }
            Err(cli_error(CliErrorKind::MissingValue, shown))
        },
    }
}

/// Exec form of [`long_step`].
fn long_step_exec(lv: &LevelDef, toks: &[&str], i: usize, st: &mut ScanOut) -> (r: Result<
    bool,
    CliError,
>)
    requires
        i < toks@.len(),
        old(st).values@.len() == lv.args@.len(),
        is_long_tok(toks@[i as int]@),
    ensures
        final(st).values@.len() == old(st).values@.len(),
        match r {
            Ok(took) => long_step(lv.view(), tok_views(toks@), i as nat, old(st).view()) == Ok::<
                (ScanView, bool),
                (CliErrorKind, Seq<char>),
            >((final(st).view(), took)),
            Err(e) => long_step(lv.view(), tok_views(toks@), i as nat, old(st).view()) == Err::<
                (ScanView, bool),
                (CliErrorKind, Seq<char>),
            >(e.view()),
        },
{
    let t = chars_of(toks[i]);
    let ghost tv = tok_views(toks@);
    assert(tv[i as int] == t@);
    let eq = eq_pos_exec(&t, 2);
    let (name, attached) = match eq {
        Some(p) => {
            let n = t.len();
            assert(p < n);
            (slice_vec(&t, 2, p), Some(slice_vec(&t, p + 1, n)))
        },
        None => (slice_vec(&t, 2, t.len()), None),
    };
    proof {
        assert(name@ == long_name(t@)) by {
            match eq {
                Some(p) => {},
                None => {
                    assert(t@.subrange(2, t@.len() as int) =~= t@.skip(2));
                },
            }
        }
        match eq {
            Some(p) => {
                assert(t@.subrange(p + 1, t@.len() as int) =~= t@.skip(p + 1));
            },
            None => {},
        }
    }
    let help = chars_of("help");
    if eq_vec(&name, &help) {
        return Err(cli_error(CliErrorKind::DisplayHelp, &t));
    }
    match find_long_exec(lv, &name) {
        None => Err(cli_error(CliErrorKind::UnknownArgument, &t)),
        Some(k) => {
            proof {
                assert(lv.view().args[k as int] == arg_view(lv.args@[k as int]));
                assert(st.view().values[k as int] == views(st.values@[k as int]@));
            }
            if lv.args[k].kind == ArgKind::Flag {
                if attached.is_some() {
                    Err(cli_error(CliErrorKind::UnexpectedValue, &t))
                } else if st.values[k].len() > 0 {
                    Err(cli_error(CliErrorKind::ArgumentConflict, &t))
                } else {
                    record_exec(st, k, String::new());
                    Ok(false)
                }
            } else {
                take_value_exec(lv, toks, i, st, k, attached, &t)
            }
        },
    }
}

/// Exec form of [`short_step`] from position 1.
fn short_step_exec(lv: &LevelDef, toks: &[&str], i: usize, st: &mut ScanOut) -> (r: Result<
    bool,
    CliError,
>)
    requires
        i < toks@.len(),
        old(st).values@.len() == lv.args@.len(),
    ensures
        final(st).values@.len() == old(st).values@.len(),
        match r {
            Ok(took) => short_step(lv.view(), tok_views(toks@), i as nat, 1, old(st).view())
                == Ok::<(ScanView, bool), (CliErrorKind, Seq<char>)>((final(st).view(), took)),
            Err(e) => short_step(lv.view(), tok_views(toks@), i as nat, 1, old(st).view())
                == Err::<(ScanView, bool), (CliErrorKind, Seq<char>)>(e.view()),
        },
{
    let t = chars_of(toks[i]);
    let ghost tv = tok_views(toks@);
    assert(tv[i as int] == t@);
    let ghost st0 = st.view();
    let mut j: usize = 1;
    loop
        invariant
            tv == tok_views(toks@),
            tv[i as int] == t@,
            i < toks@.len(),
            st.values@.len() == lv.args@.len(),
            old(st).values@.len() == lv.args@.len(),
            st0 == old(st).view(),
            1 <= j,
            short_step(lv.view(), tv, i as nat, 1, st0) == short_step(
                lv.view(),
                tv,
                i as nat,
                j as nat,
                st.view(),
            ),
        decreases t@.len() - j,
    {
        if j >= t.len() {
            return Ok(false);
        }
        let c = t[j];
        let shown = vec!['-', c];
        assert(shown@ =~= seq!['-', c]);
        if c == 'h' {
            return Err(cli_error(CliErrorKind::DisplayHelp, &shown));
        }
        match find_short_exec(lv, c) {
            None => {
                return Err(cli_error(CliErrorKind::UnknownArgument, &shown));
            },
            Some(k) => {
                proof {
                    assert(lv.view().args[k as int] == arg_view(lv.args@[k as int]));
                    assert(st.view().values[k as int] == views(st.values@[k as int]@));
                }
                if lv.args[k].kind == ArgKind::Flag {
                    if st.values[k].len() > 0 {
                        return Err(cli_error(CliErrorKind::ArgumentConflict, &shown));
                    }
                    record_exec(st, k, String::new());
                    j += 1;
                } else {
                    let rest = slice_vec(&t, j + 1, t.len());
                    assert(rest@ =~= t@.skip(j + 1));
                    if rest.len() > 0 {
                        let v = if rest[0] == '=' {
                            let d = slice_vec(&rest, 1, rest.len());
                            assert(d@ =~= rest@.drop_first());
                            d
                        } else {
                            rest
                        };
                        return take_value_exec(lv, toks, i, st, k, Some(v), &shown);
                    } else {
                        return take_value_exec(lv, toks, i, st, k, None, &shown);
                    }
                }
            },
        }
    }
}

/// Scan the tokens of level `lv` from `start` (see [`scan`]).
pub fn scan_level(lv: &LevelDef, toks: &[&str], start: usize) -> (r: Result<ScanResult, CliError>)
    ensures
        scan_agrees(r, scan(lv.view(), tok_views(toks@), start as nat, init_scan(lv.view()))),
        match r {
            Ok(ScanResult::Done(o)) => o.values@.len() == lv.args@.len(),
            Ok(ScanResult::Sub(o, _, _)) => o.values@.len() == lv.args@.len(),
            Err(_) => true,
        },
{
    let ghost tv = tok_views(toks@);
    let ghost lview = lv.view();
    let mut values: Vec<Vec<String>> = Vec::new();
    let mut k: usize = 0;
    while k < lv.args.len()
        invariant
            k <= lv.args@.len(),
            values@.len() == k,
            forall|m: int| 0 <= m < k ==> values@[m]@.len() == 0,
        decreases lv.args@.len() - k,
    {
        values.push(Vec::new());
        k += 1;
    }
    let mut st = ScanOut { values, positionals: Vec::new(), raw: false };
    assert forall|m: int| 0 <= m < lv.args@.len() implies st.view().values[m] == init_scan(
        lview,
    ).values[m] by {
        assert(st.view().values[m] =~= views(st.values@[m]@));
        assert(views(st.values@[m]@) =~= Seq::<Seq<char>>::empty());
    }
    assert(st.view().values =~= init_scan(lview).values);
    assert(st.view().positionals =~= init_scan(lview).positionals);
    let mut i = start;
    loop
        invariant
            tv == tok_views(toks@),
            lview == lv.view(),
            st.values@.len() == lv.args@.len(),
            scan(lview, tv, start as nat, init_scan(lview)) == scan(lview, tv, i as nat, st.view()),
        decreases tv.len() - i,
    {
        if i >= toks.len() {
            return Ok(ScanResult::Done(st));
        }
        let t = chars_of(toks[i]);
        assert(tv[i as int] == t@);
        let dd = vec!['-', '-'];
        assert(dd@ =~= seq!['-', '-']);
        if !st.raw && eq_vec(&t, &dd) {
            st.raw = true;
            i += 1;
        } else if !st.raw && t.len() > 2 && t[0] == '-' && t[1] == '-' {
            match long_step_exec(lv, toks, i, &mut st) {
                Err(e) => {
                    return Err(e);
                },
                Ok(took) => {
                    i = if took && i + 1 < toks.len() {
                        i + 2
                    } else {
                        i + 1
                    };
                },
            }
        } else if !st.raw && t.len() >= 2 && t[0] == '-' && t[1] != '-' {
            match short_step_exec(lv, toks, i, &mut st) {
                Err(e) => {
                    return Err(e);
                },
                Ok(took) => {
                    i = if took && i + 1 < toks.len() {
                        i + 2
                    } else {
                        i + 1
                    };
                },
            }
        } else if lv.subcommands.len() > 0 {
            if st.raw {
                return Err(cli_error(CliErrorKind::InvalidSubcommand, &t));
            }
            let help = chars_of("help");
            if eq_vec(&t, &help) {
                return Err(cli_error(CliErrorKind::DisplayHelp, &t));
            }
            match find_sub_exec(lv, &t) {
                Some(k) => {
                    return Ok(ScanResult::Sub(st, k, i + 1));
                },
                None => {
                    return Err(cli_error(CliErrorKind::InvalidSubcommand, &t));
                },
            }
        } else if st.positionals.len() < lv.positionals {
            let ghost p0 = st.view();
            st.positionals.push(string_of(&t));
            assert(st.view().positionals =~= p0.positionals.push(t@));
            i += 1;
        } else {
            return Err(cli_error(CliErrorKind::UnexpectedPositional, &t));
        }
    }
}

} // verus!
