//! HTML escaping of transcript text for session exports.

use crate::text::{chars_of, push_char};
use vstd::prelude::*;

verus! {

/// The HTML text of one character: `& < > " '` as entities, others as themselves.
pub open spec fn escape_char(c: char) -> Seq<char> {
    if c == '&' {
        "&amp;"@
    } else if c == '<' {
        "&lt;"@
    } else if c == '>' {
        "&gt;"@
    } else if c == '"' {
        "&quot;"@
    } else if c == '\'' {
        "&#39;"@
    } else {
        seq![c]
    }
}

/// `s` with every character escaped.
pub open spec fn escaped(s: Seq<char>) -> Seq<char>
    decreases s.len(),
{
    if s.len() == 0 {
        Seq::empty()
    } else {
        escaped(s.drop_last()) + escape_char(s.last())
    }
}

/// Escape `&`, `<`, `>`, `"` and `'` for HTML.
pub fn html_escape(s: &str) -> (r: String)
    ensures
        r@ == escaped(s@),
{
    let v = chars_of(s);
    let mut out = String::new();
    let mut i: usize = 0;
    while i < v.len()
        invariant
            i <= v@.len(),
            v@ == s@,
            out@ == escaped(v@.take(i as int)),
        decreases v@.len() - i,
    {
        let ch = v[i];
        let ghost before = out@;
        if ch == '&' {
            out.append("&amp;");
        } else if ch == '<' {
            out.append("&lt;");
        } else if ch == '>' {
            out.append("&gt;");
        } else if ch == '"' {
            out.append("&quot;");
        } else if ch == '\'' {
            out.append("&#39;");
        } else {
            push_char(&mut out, ch);
        }
        assert(v@.take(i + 1).drop_last() =~= v@.take(i as int));
        assert(out@ =~= before + escape_char(ch));
        i += 1;
    }
    assert(v@.take(v@.len() as int) =~= v@);
    out
}

/// `s` with each line break `\n` written as `<br/>` followed by the line break.
pub open spec fn breaks_to_br(s: Seq<char>) -> Seq<char>
    decreases s.len(),
{
    if s.len() == 0 {
        Seq::empty()
    } else {
        breaks_to_br(s.drop_last()) + if s.last() == '\n' {
            "<br/>\n"@
        } else {
            seq![s.last()]
        }
    }
}

/// Plain text as HTML: escaped, with `<br/>` before each line break.
pub fn text_to_html(s: &str) -> (r: String)
    ensures
        r@ == breaks_to_br(escaped(s@)),
{
    let e = html_escape(s);
    let v = chars_of(e.as_str());
    let mut out = String::new();
    let mut i: usize = 0;
    while i < v.len()
        invariant
            i <= v@.len(),
            v@ == escaped(s@),
            out@ == breaks_to_br(v@.take(i as int)),
        decreases v@.len() - i,
    {
        let ch = v[i];
        let ghost before = out@;
        if ch == '\n' {
            out.append("<br/>\n");
        } else {
            push_char(&mut out, ch);
        }
        assert(v@.take(i + 1).drop_last() =~= v@.take(i as int));
        assert(out@ =~= before + if ch == '\n' {
            "<br/>\n"@
        } else {
            seq![ch]
        });
        i += 1;
    }
    assert(v@.take(v@.len() as int) =~= v@);
    out
}

} // verus!
