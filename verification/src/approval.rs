//! Tool-call approval: parsing the user's verdict and composing approval prompts.

use crate::text::{chars_of, eq_vec, is_ws, lower, lower_char, lower_vec, string_of, trim, trim_end, trim_start, trim_vec};
use crate::wrap::{vviews, words, words_of};
use std::sync::Arc;
use vstd::prelude::*;
use vstd::string::StringSliceAdditionalSpecFns;

verus! {

/// Message from the TUI to the approval dispatch task.
pub enum ApprovalAnswer {
    Verdict { call_id: String, approved: bool },
    AllowPattern { call_id: String, pattern: String },
}

/// A pending tool-call approval shown in the transcript.
#[derive(Clone, Debug)]
pub struct ApprovalRequest {
    pub call_id: String,
    pub tool: String,
    pub description: String,
    pub input: String,
}

/// Approval handler that denies every tool call.
pub struct AutoDenyApprovalHandler;

impl AutoDenyApprovalHandler {
    /// A shared handle to the handler.
    pub fn new() -> (r: Arc<Self>) {
        Arc::new(AutoDenyApprovalHandler)
    }
}

/// What `str::to_lowercase` makes of a character sequence (full Unicode lower-casing).
pub uninterp spec fn unicode_lower(s: Seq<char>) -> Seq<char>;

/// Every character is ASCII.
pub open spec fn is_ascii_text(s: Seq<char>) -> bool {
    forall|i: int| 0 <= i < s.len() ==> (#[trigger] s[i] as u32) < 128
}

/// Calls `str::to_lowercase`. Claimed of it: the result is its Unicode lower-casing of
/// `s`, a function of `s` alone; on ASCII text that is the ASCII lower-casing (`A`-`Z` to
/// `a`-`z`, everything else unchanged), as Unicode's case mappings of ASCII letters are.
/// What it does to other characters is not stated here.
#[verifier::external_body]
pub(crate) fn to_lowercase(s: &str) -> (r: String)
    ensures
        r@ == unicode_lower(s@),
        is_ascii_text(s@) ==> r@ == lower(s@),
{
    s.to_lowercase()
}

/// Punctuation stripped from the end of an approval reply.
pub open spec fn is_reply_punct(c: char) -> bool {
    c == '.' || c == '!' || c == '?' || c == ',' || c == ';' || c == ':' || c == '"' || c == '\''
}

/// `s` without its trailing punctuation.
pub open spec fn strip_reply_punct(s: Seq<char>) -> Seq<char>
    decreases s.len(),
{
    if s.len() > 0 && is_reply_punct(s.last()) {
        strip_reply_punct(s.drop_last())
    } else {
        s
    }
}

/// Words that approve a tool call.
pub open spec fn is_yes_word(w: Seq<char>) -> bool {
    w == "y"@ || w == "yes"@ || w == "ok"@ || w == "okay"@ || w == "approve"@ || w == "approved"@
        || w == "allow"@ || w == "1"@ || w == "true"@
}

/// Words that deny a tool call.
pub open spec fn is_no_word(w: Seq<char>) -> bool {
    w == "n"@ || w == "no"@ || w == "deny"@ || w == "denied"@ || w == "reject"@ || w == "rejected"@
        || w == "decline"@ || w == "declined"@ || w == "0"@ || w == "false"@
}

/// The verdict of a reply already trimmed, lower-cased and stripped of trailing
/// punctuation: the slash forms `/approve /y /yes /ok` and `/deny /n /no` decide as a
/// whole, otherwise the first word decides; anything else is no verdict.
pub open spec fn verdict_of(s: Seq<char>) -> Option<bool> {
    if s.len() == 0 {
        None
    } else if s == "/approve"@ || s == "/y"@ || s == "/yes"@ || s == "/ok"@ {
        Some(true)
    } else if s == "/deny"@ || s == "/n"@ || s == "/no"@ {
        Some(false)
    } else if words(s).len() == 0 {
        None
    } else if is_yes_word(words(s)[0]) {
        Some(true)
    } else if is_no_word(words(s)[0]) {
        Some(false)
    } else {
        None
    }
}

/// The verdict in a free-form approval reply: trimmed, lower-cased, trailing punctuation
/// dropped, then read by [`verdict_of`].
pub open spec fn approval_verdict(line: Seq<char>) -> Option<bool> {
    verdict_of(trim(strip_reply_punct(unicode_lower(trim(line)))))
}

/// [`approval_verdict`] with ASCII lower-casing, which is what lower-casing does to a reply
/// whose trimmed text is ASCII.
pub open spec fn ascii_verdict(line: Seq<char>) -> Option<bool> {
    verdict_of(trim(strip_reply_punct(lower(trim(line)))))
}

fn is_one_of(w: &[char], options: &[&str]) -> (b: bool)
    ensures
        b == exists|k: int| 0 <= k < options@.len() && w@ == options@[k]@,
{
    let mut k: usize = 0;
    while k < options.len()
        invariant
            k <= options@.len(),
            forall|j: int| 0 <= j < k ==> w@ != options@[j]@,
        decreases options@.len() - k,
    {
        let o = chars_of(options[k]);
        if eq_vec(w, &o) {
            return true;
        }
        k += 1;
    }
    false
}

/// Parse a user's approval reply (punctuation, synonyms and `/approve` forms accepted).
pub fn parse_approval_verdict(line: &str) -> (r: Option<bool>)
    ensures
        r == approval_verdict(line@),
        is_ascii_text(trim(line@)) ==> r == ascii_verdict(line@),
{
    let t = string_of(&trim_vec(&chars_of(line)));
    let low = chars_of(to_lowercase(t.as_str()).as_str());
    let mut n = low.len();
    assert(low@.take(low@.len() as int) =~= low@);
    while n > 0 && (low[n - 1] == '.' || low[n - 1] == '!' || low[n - 1] == '?' || low[n - 1] == ','
        || low[n - 1] == ';' || low[n - 1] == ':' || low[n - 1] == '"' || low[n - 1] == '\'')
        invariant
            n <= low@.len(),
            strip_reply_punct(low@.take(n as int)) == strip_reply_punct(low@),
        decreases n,
    {
        assert(low@.take(n as int).drop_last() =~= low@.take(n - 1));
        n -= 1;
    }
    let stripped = crate::text::slice_vec(&low, 0, n);
    assert(stripped@ =~= low@.take(n as int));
    let s = trim_vec(&stripped);
    if s.len() == 0 {
        return None;
    }
    let approve_forms: [&str; 4] = ["/approve", "/y", "/yes", "/ok"];
    let deny_forms: [&str; 3] = ["/deny", "/n", "/no"];
    assert(approve_forms@[0] == "/approve" && approve_forms@[1] == "/y" && approve_forms@[2] == "/yes" && approve_forms@[3] == "/ok");
    assert(deny_forms@[0] == "/deny" && deny_forms@[1] == "/n" && deny_forms@[2] == "/no");
    if is_one_of(&s, &approve_forms) {
        return Some(true);
    }
    if is_one_of(&s, &deny_forms) {
        return Some(false);
    }
    let ws = words_of(&s);
    if ws.len() == 0 {
        return None;
    }
    assert(vviews(ws@)[0] == ws@[0]@);
    let yes_words: [&str; 9] = ["y", "yes", "ok", "okay", "approve", "approved", "allow", "1", "true"];
    let no_words: [&str; 10] = ["n", "no", "deny", "denied", "reject", "rejected", "decline", "declined", "0", "false"];
    assert(yes_words@[0] == "y" && yes_words@[1] == "yes" && yes_words@[2] == "ok" && yes_words@[3] == "okay" && yes_words@[4] == "approve" && yes_words@[5] == "approved" && yes_words@[6] == "allow" && yes_words@[7] == "1" && yes_words@[8] == "true");
    assert(no_words@[0] == "n" && no_words@[1] == "no" && no_words@[2] == "deny" && no_words@[3] == "denied" && no_words@[4] == "reject" && no_words@[5] == "rejected" && no_words@[6] == "decline" && no_words@[7] == "declined" && no_words@[8] == "0" && no_words@[9] == "false");
    if is_one_of(&ws[0], &yes_words) {
        Some(true)
    } else if is_one_of(&ws[0], &no_words) {
        Some(false)
    } else {
        None
    }
}

/// Truncate a long string by bytes: the first `max_len - 3` bytes followed by `...` when `s`
/// is longer than `max_len` bytes.
pub fn truncate(s: &str, max_len: usize) -> (r: String)
    requires
        s.spec_bytes().len() <= max_len || vstd::utf8::is_char_boundary(
            s.spec_bytes(),
            if max_len >= 3 { max_len - 3 } else { 0 } as int,
        ),
    ensures
        s.spec_bytes().len() <= max_len ==> r@ == s@,
        s.spec_bytes().len() > max_len ==> {
            &&& r@.len() >= 3
            &&& r@.skip(r@.len() - 3) == seq!['.', '.', '.']
            &&& vstd::utf8::encode_utf8(r@.take(r@.len() - 3)) == s.spec_bytes().subrange(
                0,
                if max_len >= 3 { max_len - 3 } else { 0 } as int,
            )
        },
{
    if s.as_bytes().len() <= max_len {
        return s.to_owned();
    }
    let k = if max_len >= 3 {
        max_len - 3
    } else {
        0
    };
    let (head, _) = s.split_at(k);
    let mut r = head.to_owned();
    r.append("...");
    proof {
        reveal_strlit("...");
        assert(r@.take(r@.len() - 3) =~= head@);
        assert(r@.skip(r@.len() - 3) =~= seq!['.', '.', '.']);
    }
    r
}

/// The stdio prompt accepts exactly `y` or `yes`, ignoring surrounding white space and
/// ASCII case.
pub open spec fn affirmative(answer: Seq<char>) -> bool {
    lower(trim(answer)) == "y"@ || lower(trim(answer)) == "yes"@
}

/// Whether a line typed at the stdio approval prompt approves the call.
pub fn is_affirmative_answer(answer: &str) -> (b: bool)
    ensures
        b == affirmative(answer@),
{
    let a = lower_vec(&trim_vec(&chars_of(answer)));
    eq_vec(&a, &chars_of("y")) || eq_vec(&a, &chars_of("yes"))
}

/// The question the stdio approval prompt writes before reading a reply.
pub fn stdio_prompt_text(description: &str, tool: &str, input: &str) -> (r: String)
    ensures
        r@ == "\n[approval] "@ + description@ + "\nTool: "@ + tool@ + "\nInput: "@ + input@
            + "\nApprove? [y/N]: "@,
{
    let mut r = String::from_str("\n[approval] ");
    r.append(description);
    r.append("\nTool: ");
    r.append(tool);
    r.append("\nInput: ");
    r.append(input);
    r.append("\nApprove? [y/N]: ");
    r
}

/// The confirmation text of the interactive approval prompt; `input_preview` is the
/// already shortened JSON of the call's input.
pub fn interactive_prompt_text(description: &str, tool_name: &str, input_preview: &str) -> (r:
    String)
    ensures
        description@.len() == 0 ==> r@ == "Tool '"@ + tool_name@ + "' wants to execute:\n\nInput preview:\n"@
            + input_preview@,
        description@.len() > 0 ==> r@ == description@ + "\n\nTool: "@ + tool_name@
            + "\nInput preview:\n"@ + input_preview@,
{
    if description.is_empty() {
        let mut r = String::from_str("Tool '");
        r.append(tool_name);
        r.append("' wants to execute:\n\nInput preview:\n");
        r.append(input_preview);
        r
    } else {
        let mut r = String::from_str(description);
        r.append("\n\nTool: ");
        r.append(tool_name);
        r.append("\nInput preview:\n");
        r.append(input_preview);
        r
    }
}

/// ASCII upper-casing of one character; other characters are unchanged.
pub open spec fn upper_char(c: char) -> char {
    if 'a' <= c && c <= 'z' {
        ((c as u32) - 32) as char
    } else {
        c
    }
}

/// ASCII upper-casing of a sequence (`str::to_ascii_uppercase`).
pub open spec fn upper(s: Seq<char>) -> Seq<char> {
    s.map_values(|c: char| upper_char(c))
}

proof fn lemma_trim_start_skip(s: Seq<char>) -> (k: int)
    ensures
        0 <= k <= s.len(),
        trim_start(s) == s.skip(k),
        forall|i: int| 0 <= i < k ==> is_ws(#[trigger] s[i]),
    decreases s.len(),
{
    if s.len() > 0 && is_ws(s[0]) {
        let k1 = lemma_trim_start_skip(s.drop_first());
        assert(s.drop_first().skip(k1) =~= s.skip(k1 + 1));
        assert forall|i: int| 0 <= i < k1 + 1 implies is_ws(#[trigger] s[i]) by {
            if i > 0 {
                assert(s[i] == s.drop_first()[i - 1]);
            }
        }
        k1 + 1
    } else {
        assert(s.skip(0) =~= s);
        0
    }
}

/// Leading white space of `t + u`: that of `t`, or, when `t` is all white space, that of `u`.
proof fn lemma_trim_start_concat(t: Seq<char>, u: Seq<char>)
    ensures
        trim_start(t + u) == (if trim_start(t).len() > 0 {
            trim_start(t) + u
        } else {
            trim_start(u)
        }),
    decreases t.len(),
{
    if t.len() == 0 {
        assert(t + u =~= u);
    } else if is_ws(t[0]) {
        lemma_trim_start_concat(t.drop_first(), u);
        assert((t + u).drop_first() =~= t.drop_first() + u);
        assert((t + u)[0] == t[0]);
    } else {
        assert((t + u)[0] == t[0]);
    }
}

/// Trailing white space `w` is dropped by `trim_end`.
proof fn lemma_trim_end_ws_tail(t: Seq<char>, w: Seq<char>)
    requires
        forall|i: int| 0 <= i < w.len() ==> is_ws(#[trigger] w[i]),
    ensures
        trim_end(t + w) == trim_end(t),
    decreases w.len(),
{
    if w.len() == 0 {
        assert(t + w =~= t);
    } else {
        assert((t + w).drop_last() =~= t + w.drop_last());
        assert((t + w).last() == w.last());
        assert(is_ws(w[w.len() - 1]));
        lemma_trim_end_ws_tail(t, w.drop_last());
    }
}

/// Leading white space `w` is dropped by `trim_start`.
proof fn lemma_trim_start_ws_head(w: Seq<char>, t: Seq<char>)
    requires
        forall|i: int| 0 <= i < w.len() ==> is_ws(#[trigger] w[i]),
    ensures
        trim_start(w + t) == trim_start(t),
    decreases w.len(),
{
    if w.len() == 0 {
        assert(w + t =~= t);
    } else {
        assert((w + t).drop_first() =~= w.drop_first() + t);
        assert((w + t)[0] == w[0]);
        assert(is_ws(w[0]));
        lemma_trim_start_ws_head(w.drop_first(), t);
    }
}

/// A map that keeps white space as it is commutes with `trim_start`.
proof fn lemma_trim_start_map(s: Seq<char>, f: spec_fn(char) -> char)
    requires
        forall|c: char| is_ws(#[trigger] f(c)) == is_ws(c),
    ensures
        trim_start(s.map_values(f)) == trim_start(s).map_values(f),
    decreases s.len(),
{
    if s.len() > 0 {
        assert(s.map_values(f).drop_first() =~= s.drop_first().map_values(f));
        assert(s.map_values(f)[0] == f(s[0]));
        lemma_trim_start_map(s.drop_first(), f);
    }
}

/// A map that keeps white space as it is commutes with `trim_end`.
proof fn lemma_trim_end_map(s: Seq<char>, f: spec_fn(char) -> char)
    requires
        forall|c: char| is_ws(#[trigger] f(c)) == is_ws(c),
    ensures
        trim_end(s.map_values(f)) == trim_end(s).map_values(f),
    decreases s.len(),
{
    if s.len() > 0 {
        assert(s.map_values(f).drop_last() =~= s.drop_last().map_values(f));
        assert(s.map_values(f).last() == f(s.last()));
        lemma_trim_end_map(s.drop_last(), f);
    }
}

/// Trailing punctuation `p` is dropped with the rest.
proof fn lemma_strip_punct_tail(a: Seq<char>, p: Seq<char>)
    requires
        forall|i: int| 0 <= i < p.len() ==> is_reply_punct(#[trigger] p[i]),
    ensures
        strip_reply_punct(a + p) == strip_reply_punct(a),
    decreases p.len(),
{
    if p.len() == 0 {
        assert(a + p =~= a);
    } else {
        assert((a + p).drop_last() =~= a + p.drop_last());
        assert((a + p).last() == p.last());
        assert(is_reply_punct(p[p.len() - 1]));
        lemma_strip_punct_tail(a, p.drop_last());
    }
}

proof fn lemma_lower_keeps_ws_and_punct(t: Seq<char>)
    requires
        forall|i: int| 0 <= i < t.len() ==> is_ws(#[trigger] t[i]) || is_reply_punct(t[i]),
    ensures
        lower(t) == t,
{
    assert forall|i: int| 0 <= i < t.len() implies lower(t)[i] == t[i] by {
        assert(is_ws(t[i]) || is_reply_punct(t[i]));
    }
    assert(lower(t) =~= t);
}

proof fn lemma_lower_concat(a: Seq<char>, b: Seq<char>)
    ensures
        lower(a + b) == lower(a) + lower(b),
{
    assert(lower(a + b) =~= lower(a) + lower(b));
}

proof fn lemma_ascii_sub(s: Seq<char>, t: Seq<char>, k: int)
    requires
        is_ascii_text(s),
        0 <= k,
        k + t.len() <= s.len(),
        forall|i: int| 0 <= i < t.len() ==> t[i] == s[i + k],
    ensures
        is_ascii_text(t),
{
    assert forall|i: int| 0 <= i < t.len() implies (#[trigger] t[i] as u32) < 128 by {
        assert(t[i] == s[i + k]);
    }
}

/// The approval reply's verdict survives surrounding white space and trailing punctuation,
/// and does not depend on the case of an ASCII reply: `"  yes?! "` and `"YES"` read as
/// `"yes"`. It fails only for a reply that ends in white space after punctuation when more
/// punctuation follows (`"yes! "` then `"."` reads as `"yes!"`, no verdict). The trimmed
/// texts of these replies are ASCII, so [`parse_approval_verdict`] gives their
/// [`ascii_verdict`].
pub proof fn law_verdict_ignores_case_space_and_punctuation(
    s: Seq<char>,
    ws1: Seq<char>,
    p: Seq<char>,
    ws2: Seq<char>,
)
    requires
        is_ascii_text(s),
        forall|i: int| 0 <= i < ws1.len() ==> is_ws(#[trigger] ws1[i]),
        forall|i: int| 0 <= i < ws2.len() ==> is_ws(#[trigger] ws2[i]),
        forall|i: int| 0 <= i < p.len() ==> is_reply_punct(#[trigger] p[i]),
        !(p.len() > 0 && s.len() > 0 && is_ws(s.last()) && trim(s).len() > 0 && is_reply_punct(
            trim(s).last(),
        )),
    ensures
        is_ascii_text(trim(s)),
        is_ascii_text(trim(ws1 + s + p + ws2)),
        is_ascii_text(trim(upper(s))),
        ascii_verdict(ws1 + s + p + ws2) == ascii_verdict(s),
        ascii_verdict(upper(s)) == ascii_verdict(s),
{
    let uf = |c: char| upper_char(c);
    assert forall|c: char| is_ws(#[trigger] uf(c)) == is_ws(c) by {}
    let k = lemma_trim_start_skip(s);
    let t0 = trim_start(s);
    lemma_ascii_sub(s, t0, k);
    let n = trim_end_prefix(t0);
    let ts = trim(s);
    lemma_ascii_sub(t0, ts, 0);
    // The upper-cased reply.
    lemma_trim_start_map(s, uf);
    lemma_trim_end_map(trim_start(s), uf);
    assert(trim(upper(s)) == upper(ts));
    assert(is_ascii_text(upper(ts))) by {
        assert forall|i: int| 0 <= i < upper(ts).len() implies (#[trigger] upper(ts)[i] as u32) < 128 by {
            assert(upper(ts)[i] == upper_char(ts[i]));
        }
    }
    assert(lower(upper(ts)) =~= lower(ts)) by {
        assert forall|i: int| 0 <= i < ts.len() implies lower(upper(ts))[i] == lower(ts)[i] by {
            assert(lower(upper(ts))[i] == lower_char(upper_char(ts[i])));
        }
    }
    // White space and punctuation around the reply.
    let x = ws1 + s + p + ws2;
    assert(x =~= ws1 + (s + p + ws2));
    lemma_trim_start_ws_head(ws1, s + p + ws2);
    assert(s + p + ws2 =~= s + (p + ws2));
    lemma_trim_start_concat(s, p + ws2);
    if p.len() == 0 {
        assert(p + ws2 =~= ws2);
        if t0.len() > 0 {
            lemma_trim_end_ws_tail(t0, ws2);
        } else {
            lemma_trim_start_ws_head(ws2, Seq::<char>::empty());
            assert(ws2 + Seq::<char>::empty() =~= ws2);
        }
        assert(trim(x) == ts);
    } else {
        assert(!is_ws(p[0])) by {
            assert(is_reply_punct(p[0]));
        }
        assert((p + ws2)[0] == p[0]);
        assert(trim_start(p + ws2) == p + ws2);
        assert(trim_start(s + p + ws2) == t0 + p + ws2) by {
            if t0.len() > 0 {
                assert(t0 + (p + ws2) =~= t0 + p + ws2);
            } else {
                assert(t0 + p + ws2 =~= p + ws2);
            }
        }
        assert(t0 + p + ws2 =~= (t0 + p) + ws2);
        lemma_trim_end_ws_tail(t0 + p, ws2);
        assert((t0 + p).last() == p.last());
        assert(!is_ws(p[p.len() - 1])) by {
            assert(is_reply_punct(p[p.len() - 1]));
        }
        assert(trim_end(t0 + p) == t0 + p);
        assert(trim(x) == t0 + p);
        assert(is_ascii_text(t0 + p)) by {
            assert forall|i: int| 0 <= i < (t0 + p).len() implies (#[trigger] (t0 + p)[i] as u32) < 128 by {
                if i < t0.len() {
                    assert((t0 + p)[i] == t0[i]);
                } else {
                    assert((t0 + p)[i] == p[i - t0.len()]);
                    assert(is_reply_punct(p[i - t0.len()]));
                }
            }
        }
        // `t0` is `ts` followed by white space `w`.
        let w = t0.skip(n);
        assert(t0 =~= ts + w);
        assert forall|i: int| 0 <= i < w.len() implies is_ws(#[trigger] w[i]) by {
            assert(w[i] == t0[i + n]);
        }
        lemma_lower_keeps_ws_and_punct(w);
        lemma_lower_keeps_ws_and_punct(p);
        lemma_lower_concat(ts + w, p);
        lemma_lower_concat(ts, w);
        assert(lower(trim(x)) == lower(ts) + w + p);
        lemma_strip_punct_tail(lower(ts) + w, p);
        assert(strip_reply_punct(lower(ts)) == lower(ts) || w.len() == 0) by {
            if w.len() > 0 && ts.len() > 0 {
                assert(w[w.len() - 1] == t0.last());
                assert(t0.last() == s.last()) by {
                    assert(t0[t0.len() - 1] == s[t0.len() - 1 + k]);
                }
                assert(lower(ts).last() == lower_char(ts.last()));
            }
        }
        if w.len() == 0 {
            assert(ts + w =~= ts);
        } else {
            assert(is_ws(w[w.len() - 1]));
            assert((lower(ts) + w).last() == w[w.len() - 1]);
            assert(strip_reply_punct(lower(ts) + w) == lower(ts) + w);
            lemma_trim_start_concat(lower(ts), w);
            if trim_start(lower(ts)).len() > 0 {
                lemma_trim_end_ws_tail(trim_start(lower(ts)), w);
            } else {
                lemma_trim_start_ws_head(w, Seq::<char>::empty());
                assert(w + Seq::<char>::empty() =~= w);
            }
            assert(trim(lower(ts) + w) == trim(lower(ts)));
        }
    }
}

/// `trim_end(s)` is a prefix of `s`; returns its length.
proof fn trim_end_prefix(s: Seq<char>) -> (n: int)
    ensures
        0 <= n <= s.len(),
        trim_end(s) == s.take(n),
        forall|i: int| n <= i < s.len() ==> is_ws(#[trigger] s[i]),
    decreases s.len(),
{
    if s.len() > 0 && is_ws(s.last()) {
        let n = trim_end_prefix(s.drop_last());
        assert(s.drop_last().take(n) =~= s.take(n));
        assert forall|i: int| n <= i < s.len() implies is_ws(#[trigger] s[i]) by {
            if i < s.len() - 1 {
                assert(s[i] == s.drop_last()[i]);
            }
        }
        n
    } else {
        assert(s.take(s.len() as int) =~= s);
        s.len() as int
    }
}

} // verus!
