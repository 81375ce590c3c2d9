//! The process exit code of a failed run, from the messages of its error chain.

use crate::text::{chars_of, contains_seq, contains_vec, lower, lower_vec};
use vstd::prelude::*;

verus! {

/// Configuration problems (missing key, unreadable config, bad workspace).
pub const EXIT_CONFIGURATION: u8 = 10;

/// Provider and tool failures during a run.
pub const EXIT_RUNTIME: u8 = 11;

/// A tool call that needed approval was refused.
pub const EXIT_APPROVAL: u8 = 13;

/// The run was cancelled.
pub const EXIT_CANCELLED: u8 = 130;

/// The error chain's messages, ASCII-lower-cased and joined with ` | `.
pub open spec fn joined_lower(msgs: Seq<Seq<char>>) -> Seq<char>
    decreases msgs.len(),
{
    if msgs.len() == 0 {
        Seq::empty()
    } else if msgs.len() == 1 {
        lower(msgs[0])
    } else {
        joined_lower(msgs.drop_last()) + " | "@ + lower(msgs.last())
    }
}

/// The exit code for the combined message `c`: approval refusals 13, cancellation 130,
/// configuration problems 10, provider and tool failures 11, anything else 1 (the first
/// matching group wins).
pub open spec fn exit_code_for(c: Seq<char>) -> u8 {
    if contains_seq(c, "requires approval in headless mode"@) || contains_seq(
        c,
        "requires approval; request was denied"@,
    ) || contains_seq(c, "denied by policy"@) {
        EXIT_APPROVAL
    } else if contains_seq(c, "run cancelled"@) {
        EXIT_CANCELLED
    } else if contains_seq(c, "missing minimax api key"@) || contains_seq(
        c,
        "failed to parse config file"@,
    ) || contains_seq(c, "unable to determine the home directory"@) || contains_seq(
        c,
        "invalid workspace root"@,
    ) {
        EXIT_CONFIGURATION
    } else if contains_seq(c, "provider"@) || contains_seq(c, "tool `"@) || contains_seq(
        c,
        "empty response"@,
    ) || contains_seq(c, "turn budget exceeded"@) {
        EXIT_RUNTIME
    } else {
        1
    }
}

/// Whether `c` contains the literal `lit`.
fn has(c: &[char], lit: &str) -> (b: bool)
    ensures
        b == contains_seq(c@, lit@),
{
    contains_vec(c, &chars_of(lit))
}

/// The exit code of an error whose chain of messages is `messages`, outermost first (see
/// [`exit_code_for`]).
pub fn classify_exit_code(messages: &[String]) -> (r: u8)
    ensures
        r == exit_code_for(joined_lower(crate::wrap::views(messages@))),
{
    let ghost mv = crate::wrap::views(messages@);
    let mut combined: Vec<char> = Vec::new();
    let mut i: usize = 0;
    while i < messages.len()
        invariant
            i <= messages@.len(),
            mv == crate::wrap::views(messages@),
            combined@ == joined_lower(mv.take(i as int)),
        decreases messages@.len() - i,
    {
        let ghost before = combined@;
        if i > 0 {
            combined.push(' ');
            combined.push('|');
            combined.push(' ');
        }
        let low = lower_vec(&chars_of(messages[i].as_str()));
        let mut k: usize = 0;
        let ghost mid = combined@;
        while k < low.len()
            invariant
                k <= low@.len(),
                combined@ == mid + low@.take(k as int),
            decreases low@.len() - k,
        {
            combined.push(low[k]);
            assert(mid + low@.take(k + 1) =~= (mid + low@.take(k as int)).push(low@[k as int]));
            k += 1;
        }
        assert(low@.take(low@.len() as int) =~= low@);
        proof {
            reveal_strlit(" | ");
            assert(mv.take(i + 1).drop_last() =~= mv.take(i as int));
            assert(mv.take(i + 1).last() == messages@[i as int]@);
            if i == 0 {
                assert(mv.take(1) =~= seq![mv[0]]);
                assert(combined@ =~= lower(mv.take(1)[0]));
            } else {
                assert(combined@ =~= before + " | "@ + lower(mv.take(i + 1).last()));
            }
        }
        i += 1;
    }
    assert(mv.take(messages@.len() as int) =~= mv);
    let c = combined;
    if has(&c, "requires approval in headless mode") || has(&c, "requires approval; request was denied")
        || has(&c, "denied by policy") {
        EXIT_APPROVAL
    } else if has(&c, "run cancelled") {
        EXIT_CANCELLED
    } else if has(&c, "missing minimax api key") || has(&c, "failed to parse config file") || has(
        &c,
        "unable to determine the home directory",
    ) || has(&c, "invalid workspace root") {
        EXIT_CONFIGURATION
    } else if has(&c, "provider") || has(&c, "tool `") || has(&c, "empty response") || has(
        &c,
        "turn budget exceeded",
    ) {
        EXIT_RUNTIME
    } else {
        1
    }
}

} // verus!
