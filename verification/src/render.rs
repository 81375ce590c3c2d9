//! Terminal renderers for diffs and Markdown.

use crate::branch::{text_lines, text_lines_of};
use crate::text::push_char;
use crate::transcript::{md_line_runs, md_view, parse_md_line, MdStyle};
use crate::wrap::views;
use vstd::prelude::*;

verus! {

/// What `similar` writes as the unified line diff of `old` and `new` with `radius` lines of
/// context and the file names `old_name` and `new_name` in its header.
pub uninterp spec fn unified_line_diff(
    old: Seq<char>,
    new: Seq<char>,
    radius: nat,
    old_name: Seq<char>,
    new_name: Seq<char>,
) -> Seq<char>;

/// Diffs `old` and `new` line by line with `similar::TextDiff::from_lines` and writes the
/// unified diff with the given context radius and header; claimed: the result is the
/// named diff text of these arguments.
#[verifier::external_body]
fn unified_diff_text(old: &str, new: &str, radius: usize, old_name: &str, new_name: &str) -> (r: String)
    ensures
        r@ == unified_line_diff(old@, new@, radius as nat, old_name@, new_name@),
{
    similar::TextDiff::from_lines(old, new).unified_diff().context_radius(radius).header(
        old_name,
        new_name,
    ).to_string()
}

/// Lines of context around each change of a rendered diff.
pub const DIFF_CONTEXT_LINES: usize = 3;

/// Renders diffs between two versions of a text.
pub struct DiffRenderer;

impl DiffRenderer {
    /// A renderer.
    pub fn new() -> (r: Self) {
        DiffRenderer
    }

    /// The unified diff of `old` and `new`, three lines of context, headed `before` and
    /// `after`.
    pub fn render(&self, old: &str, new: &str) -> (r: String)
        ensures
            r@ == unified_line_diff(old@, new@, DIFF_CONTEXT_LINES as nat, "before"@, "after"@),
    {
        unified_diff_text(old, new, DIFF_CONTEXT_LINES, "before", "after")
    }
}

/// The escape sequence that starts bold or dim text (`ESC [ n m`).
pub open spec fn sgr(n: char) -> Seq<char> {
    seq!['\u{1b}', '[', n, 'm']
}

/// The escape sequence that ends bold and dim text.
pub open spec fn sgr_normal() -> Seq<char> {
    seq!['\u{1b}', '[', '2', '2', 'm']
}

/// A run on the terminal: bold runs in bold, code fence lines dim, the rest as it is.
pub open spec fn styled_run(x: (MdStyle, Seq<char>)) -> Seq<char> {
    match x.0 {
        MdStyle::Bold => sgr('1') + x.1 + sgr_normal(),
        MdStyle::Fence => sgr('2') + x.1 + sgr_normal(),
        _ => x.1,
    }
}

/// The runs of a line on the terminal, one after the other.
pub open spec fn styled_runs(rs: Seq<(MdStyle, Seq<char>)>) -> Seq<char>
    decreases rs.len(),
{
    if rs.len() == 0 {
        seq![]
    } else {
        styled_runs(rs.drop_last()) + styled_run(rs.last())
    }
}

/// Lines of Markdown as terminal text, separated by newlines.
pub open spec fn styled_lines(ls: Seq<Seq<char>>) -> Seq<char>
    decreases ls.len(),
{
    if ls.len() == 0 {
        seq![]
    } else if ls.len() == 1 {
        styled_runs(md_line_runs(ls[0]))
    } else {
        styled_lines(ls.drop_last()) + seq!['\n'] + styled_runs(md_line_runs(ls.last()))
    }
}

/// Renders Markdown for the terminal.
pub struct MarkdownRenderer;

fn push_seq(out: &mut String, v: &[char])
    ensures
        final(out)@ == old(out)@ + v@,
{
    let mut i: usize = 0;
    while i < v.len()
        invariant
            i <= v@.len(),
            out@ == old(out)@ + v@.take(i as int),
        decreases v@.len() - i,
    {
        push_char(out, v[i]);
        assert(v@.take(i + 1) =~= v@.take(i as int).push(v@[i as int]));
        i = i + 1;
    }
    assert(v@.take(v@.len() as int) =~= v@);
}

fn push_run(out: &mut String, style: MdStyle, t: &str)
    ensures
        final(out)@ == old(out)@ + styled_run((style, t@)),
{
    let ghost o = out@;
    match style {
        MdStyle::Bold => {
            let open = ['\u{1b}', '[', '1', 'm'];
            let close = ['\u{1b}', '[', '2', '2', 'm'];
            push_seq(out, &open);
            out.append(t);
            push_seq(out, &close);
            assert(open@ =~= sgr('1'));
            assert(close@ =~= sgr_normal());
            assert(out@ =~= o + (sgr('1') + t@ + sgr_normal()));
        },
        MdStyle::Fence => {
            let open = ['\u{1b}', '[', '2', 'm'];
            let close = ['\u{1b}', '[', '2', '2', 'm'];
            push_seq(out, &open);
            out.append(t);
            push_seq(out, &close);
            assert(open@ =~= sgr('2'));
            assert(close@ =~= sgr_normal());
            assert(out@ =~= o + (sgr('2') + t@ + sgr_normal()));
        },
        _ => {
            out.append(t);
        },
    }
}

fn push_line(out: &mut String, line: &str)
    ensures
        final(out)@ == old(out)@ + styled_runs(md_line_runs(line@)),
{
    let runs = parse_md_line(line);
    let ghost rv = runs@.map_values(|x: (MdStyle, String)| md_view(x));
    let ghost o = out@;
    let mut i: usize = 0;
    while i < runs.len()
        invariant
            i <= runs@.len(),
            rv == runs@.map_values(|x: (MdStyle, String)| md_view(x)),
            rv == md_line_runs(line@),
            out@ == o + styled_runs(rv.take(i as int)),
        decreases runs@.len() - i,
    {
        push_run(out, runs[i].0, runs[i].1.as_str());
        assert(rv.take(i + 1).drop_last() =~= rv.take(i as int));
        assert(rv[i as int] == (runs@[i as int].0, runs@[i as int].1@));
        assert(out@ =~= o + styled_runs(rv.take(i + 1)));
        i = i + 1;
    }
    assert(rv.take(runs@.len() as int) =~= rv);
}

impl MarkdownRenderer {
    /// A renderer.
    pub fn new() -> (r: Self) {
        MarkdownRenderer
    }

    /// Render a Markdown string to styled terminal output: line by line, bold runs in bold,
    /// code fence lines dim, the other text as it is (see [`styled_lines`]).
    pub fn render(&self, markdown: &str) -> (r: String)
        ensures
            r@ == styled_lines(text_lines(markdown@)),
    {
        let lines = text_lines_of(markdown);
        let ghost lv = views(lines@);
        let mut out = String::new();
        let mut i: usize = 0;
        while i < lines.len()
            invariant
                i <= lines@.len(),
                lv == views(lines@),
                lv == text_lines(markdown@),
                out@ == styled_lines(lv.take(i as int)),
            decreases lines@.len() - i,
        {
            if i > 0 {
                push_char(&mut out, '\n');
            }
            push_line(&mut out, lines[i].as_str());
            assert(lv.take(i + 1).drop_last() =~= lv.take(i as int));
            assert(lv[i as int] == lines@[i as int]@);
            proof {
                if i == 0 {
                    assert(lv.take(1)[0] == lv[0]);
                    assert(styled_lines(lv.take(0)) == Seq::<char>::empty());
                }
            }
            assert(out@ =~= styled_lines(lv.take(i + 1)));
            i = i + 1;
        }
        assert(lv.take(lines@.len() as int) =~= lv);
        out
    }
}

} // verus!
