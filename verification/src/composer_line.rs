//! The styled runs of the composer line: the prompt, then the visible characters grouped
//! into runs of plain text, `@path` mentions and the cursor cell.

use crate::composer::{at_mention_char_ranges, input_visible_window, is_mention, visible_window};
use crate::text::{chars_of, string_of};
use crate::width::cols;
use vstd::prelude::*;

verus! {

/// Columns the prompt symbol and its space take.
pub const PROMPT_COLS: usize = 2;

/// How a run of the composer line is drawn.
#[derive(Clone, Copy, PartialEq, Eq, Debug, Structural)]
pub enum ComposerStyle {
    /// The prompt when the line starts at its first character.
    Prompt,
    /// The prompt when the line is scrolled.
    PromptScrolled,
    Text,
    Mention,
    Cursor,
    CursorInMention,
}

/// Character `idx` of `s` lies inside an `@path` mention.
pub open spec fn in_mention(s: Seq<char>, idx: int) -> bool {
    exists|a: int, b: int| #[trigger] is_mention(s, a, b) && a <= idx < b
}

/// The style and character of cell `idx` with the cursor at `c` (a space past the end).
pub open spec fn cell_of(s: Seq<char>, c: int, idx: int) -> (ComposerStyle, char) {
    let ch = if 0 <= idx < s.len() {
        s[idx]
    } else {
        ' '
    };
    if idx == c {
        (
            if idx < s.len() && in_mention(s, idx) {
                ComposerStyle::CursorInMention
            } else {
                ComposerStyle::Cursor
            },
            ch,
        )
    } else {
        (
            if in_mention(s, idx) {
                ComposerStyle::Mention
            } else {
                ComposerStyle::Text
            },
            ch,
        )
    }
}

/// The cells drawn from `idx` through `last`: the cursor cell ends the line when it lies
/// past the last character, and no other cell is drawn past it.
pub open spec fn cells_from(s: Seq<char>, c: int, idx: int, last: int) -> Seq<(ComposerStyle, char)>
    decreases last + 1 - idx,
{
    if idx > last {
        seq![]
    } else if idx == c {
        seq![cell_of(s, c, idx)] + if idx == s.len() {
            seq![]
        } else {
            cells_from(s, c, idx + 1, last)
        }
    } else if idx < 0 || idx >= s.len() {
        seq![]
    } else {
        seq![cell_of(s, c, idx)] + cells_from(s, c, idx + 1, last)
    }
}

/// Add a cell to runs: it joins the last run when the style is the same.
pub open spec fn add_cell(g: Seq<(ComposerStyle, Seq<char>)>, x: (ComposerStyle, char)) -> Seq<
    (ComposerStyle, Seq<char>),
> {
    if g.len() > 0 && g.last().0 == x.0 {
        g.update(g.len() - 1, (x.0, g.last().1.push(x.1)))
    } else {
        g.push((x.0, seq![x.1]))
    }
}

/// Cells grouped into maximal runs of one style.
pub open spec fn group(cells: Seq<(ComposerStyle, char)>) -> Seq<(ComposerStyle, Seq<char>)>
    decreases cells.len(),
{
    if cells.len() == 0 {
        seq![]
    } else {
        add_cell(group(cells.drop_last()), cells.last())
    }
}

/// The runs of the composer line for buffer `s`, cursor `cursor` and `max` columns: the
/// prompt (`❯ `, or `… ` when scrolled), then the cells of the visible window, from its
/// start through its end index, grouped by style.
pub open spec fn composer_runs_of(s: Seq<char>, cursor: nat, max: nat) -> Seq<(ComposerStyle, Seq<char>)> {
    let buf = if max >= PROMPT_COLS {
        (max - PROMPT_COLS) as nat
    } else {
        0
    };
    let (ws, we) = visible_window(s, cursor, buf);
    let c: int = if cursor <= s.len() {
        cursor as int
    } else {
        s.len() as int
    };
    let prompt = if ws > 0 {
        (ComposerStyle::PromptScrolled, "\u{2026} "@)
    } else {
        (ComposerStyle::Prompt, "\u{276f} "@)
    };
    seq![prompt] + group(cells_from(s, c, ws as int, we as int))
}

/// The styled runs of the composer line (see [`composer_runs_of`]).
pub fn composer_runs(buffer: &str, cursor_char_idx: usize, max_cols: usize) -> (r: Vec<(ComposerStyle, String)>)
    requires
        buffer@.len() <= usize::MAX / 8,
        cursor_char_idx <= buffer@.len() || max_cols <= PROMPT_COLS || cols(buffer@) <= max_cols
            - PROMPT_COLS,
    ensures
        r@.map_values(|x: (ComposerStyle, String)| text_run_view(x)) == composer_runs_of(
            buffer@,
            cursor_char_idx as nat,
            max_cols as nat,
        ),
{
    let buf_cols = if max_cols >= PROMPT_COLS {
        max_cols - PROMPT_COLS
    } else {
        0
    };
    let (ws, we) = input_visible_window(buffer, cursor_char_idx, buf_cols);
    let chars = chars_of(buffer);
    let ghost s = buffer@;
    let ranges = at_mention_char_ranges(buffer);
    let n = chars.len();
    let c = if cursor_char_idx <= n {
        cursor_char_idx
    } else {
        n
    };
    let mut g: Vec<(ComposerStyle, Vec<char>)> = Vec::new();
    let ghost mut done: Seq<(ComposerStyle, char)> = seq![];
    let mut idx = ws;
    loop
        invariant_except_break
            cells_from(s, c as int, ws as int, we as int) == done + cells_from(s, c as int, idx as int, we as int),
        invariant
            chars@ == s,
            n == s.len(),
            n <= usize::MAX / 8,
            c <= n,
            forall|k: int| 0 <= k < ranges@.len() ==> is_mention(s, ranges@[k].0 as int, ranges@[k].1 as int),
            forall|a: int, b: int|
                is_mention(s, a, b) ==> exists|k: int|
                    0 <= k < ranges@.len() && ranges@[k] == (a as usize, b as usize),
            g@.map_values(|x: (ComposerStyle, Vec<char>)| run_view(x)) == group(done),
        ensures
            cells_from(s, c as int, ws as int, we as int) == done,
            g@.map_values(|x: (ComposerStyle, Vec<char>)| run_view(x)) == group(done),
        decreases we + 1 - idx,
    {
        if idx > we {
            assert(cells_from(s, c as int, idx as int, we as int) =~= seq![]);
            assert(done + seq![] =~= done);
            break;
        }
        let at_end = idx >= n;
        if idx != c && at_end {
            assert(cells_from(s, c as int, idx as int, we as int) =~= seq![]);
            assert(done + seq![] =~= done);
            break;
        }
        let ch = if idx < n {
            chars[idx]
        } else {
            ' '
        };
        let inside = idx < n && in_ranges(&ranges, idx);
        proof {
            if idx < n {
                lemma_in_ranges(s, ranges@, idx as int, inside);
            }
        }
        let style = if idx == c {
            if inside {
                ComposerStyle::CursorInMention
            } else {
                ComposerStyle::Cursor
            }
        } else if inside {
            ComposerStyle::Mention
        } else {
            ComposerStyle::Text
        };
        let ghost cell = (style, ch);
        assert(cell == cell_of(s, c as int, idx as int));
        let ghost g0 = g@;
        let ghost gv = group(done);
        let len = g.len();
        if len > 0 && g[len - 1].0 == style {
            assert(gv.last() == run_view(g0[len - 1]));
            g[len - 1].1.push(ch);
            assert(g@.map_values(|x: (ComposerStyle, Vec<char>)| run_view(x)) =~= add_cell(gv, cell));
        } else {
            let w = vec![ch];
            assert(w@ =~= seq![ch]);
            g.push((style, w));
            assert(len > 0 ==> gv.last() == run_view(g0[len - 1]));
            assert(g@.map_values(|x: (ComposerStyle, Vec<char>)| run_view(x)) =~= add_cell(gv, cell));
        }
        proof {
            assert(group(done.push(cell)) == add_cell(group(done), cell)) by {
                assert(done.push(cell).drop_last() =~= done);
            }
            done = done.push(cell);
        }
        if idx == c && at_end {
            assert(cells_from(s, c as int, idx as int, we as int) =~= seq![cell]);
            break;
        }
        assert(cells_from(s, c as int, idx as int, we as int) =~= seq![cell] + cells_from(
            s,
            c as int,
            idx + 1,
            we as int,
        ));
        idx = idx + 1;
        assert(cells_from(s, c as int, ws as int, we as int) =~= done + cells_from(
            s,
            c as int,
            idx as int,
            we as int,
        ));
    }
    let prompt = if ws > 0 {
        (ComposerStyle::PromptScrolled, "\u{2026} ".to_owned())
    } else {
        (ComposerStyle::Prompt, "\u{276f} ".to_owned())
    };
    let mut r: Vec<(ComposerStyle, String)> = vec![prompt];
    let mut k: usize = 0;
    while k < g.len()
        invariant
            k <= g@.len(),
            r@.len() == k + 1,
            r@.map_values(|x: (ComposerStyle, String)| text_run_view(x)) == seq![(prompt.0, prompt.1@)]
                + g@.map_values(|x: (ComposerStyle, Vec<char>)| run_view(x)).take(k as int),
        decreases g@.len() - k,
    {
        let item = (g[k].0, string_of(&g[k].1));
        assert(text_run_view(item) == run_view(g@[k as int]));
        let ghost r0 = r@;
        r.push(item);
        assert(r@.map_values(|x: (ComposerStyle, String)| text_run_view(x)) =~= r0.map_values(
            |x: (ComposerStyle, String)| text_run_view(x),
        ).push(text_run_view(item)));
        assert(r@.map_values(|x: (ComposerStyle, String)| text_run_view(x)) =~= seq![(prompt.0, prompt.1@)]
            + g@.map_values(|x: (ComposerStyle, Vec<char>)| run_view(x)).take(k + 1));
        k += 1;
    }
    assert(g@.map_values(|x: (ComposerStyle, Vec<char>)| run_view(x)).take(g@.len() as int)
        =~= g@.map_values(|x: (ComposerStyle, Vec<char>)| run_view(x)));
    r
}

/// A run as plain values.
pub open spec fn run_view(x: (ComposerStyle, Vec<char>)) -> (ComposerStyle, Seq<char>) {
    (x.0, x.1@)
}

/// A run as plain values.
pub open spec fn text_run_view(x: (ComposerStyle, String)) -> (ComposerStyle, Seq<char>) {
    (x.0, x.1@)
}

/// Whether `idx` lies in one of the ranges.
fn in_ranges(ranges: &Vec<(usize, usize)>, idx: usize) -> (b: bool)
    ensures
        b == exists|k: int| 0 <= k < ranges@.len() && (#[trigger] ranges@[k]).0 <= idx < ranges@[k].1,
{
    let mut k: usize = 0;
    while k < ranges.len()
        invariant
            k <= ranges@.len(),
            forall|j: int| 0 <= j < k ==> !((#[trigger] ranges@[j]).0 <= idx < ranges@[j].1),
        decreases ranges@.len() - k,
    {
        let (a, b) = ranges[k];
        if a <= idx && idx < b {
            return true;
        }
        k += 1;
    }
    false
}

/// Membership in the list of all mention ranges is membership in a mention.
proof fn lemma_in_ranges(s: Seq<char>, ranges: Seq<(usize, usize)>, idx: int, inside: bool)
    requires
        0 <= idx < s.len(),
        s.len() <= usize::MAX,
        inside == exists|k: int| 0 <= k < ranges.len() && (#[trigger] ranges[k]).0 <= idx < ranges[k].1,
        forall|k: int| 0 <= k < ranges.len() ==> is_mention(s, ranges[k].0 as int, ranges[k].1 as int),
        forall|a: int, b: int|
            is_mention(s, a, b) ==> exists|k: int|
                0 <= k < ranges.len() && ranges[k] == (a as usize, b as usize),
    ensures
        inside == in_mention(s, idx),
{
    if inside {
        let k = choose|k: int| 0 <= k < ranges.len() && (#[trigger] ranges[k]).0 <= idx < ranges[k].1;
        assert(is_mention(s, ranges[k].0 as int, ranges[k].1 as int));
    }
    if in_mention(s, idx) {
        let (a, b) = choose|a: int, b: int| #[trigger] is_mention(s, a, b) && a <= idx < b;
        let k = choose|k: int| 0 <= k < ranges.len() && ranges[k] == (a as usize, b as usize);
        assert(ranges[k].0 <= idx < ranges[k].1);
    }
}

} // verus!
