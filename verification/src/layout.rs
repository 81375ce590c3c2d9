//! Screen geometry of the full-screen session: rectangles, popup placement and the heights
//! of the completion panels.

use vstd::prelude::*;
use ratatui::layout::{Constraint, Direction, Layout};

verus! {

/// Rows the slash and `@` panels list before they scroll.
pub const SLASH_PANEL_MAX_ROWS: usize = 8;

/// A rectangle of terminal cells.
#[derive(Clone, Copy, PartialEq, Eq, Debug)]
pub struct Rect {
    pub x: u16,
    pub y: u16,
    pub width: u16,
    pub height: u16,
}

/// The rectangle lies within the terminal's coordinate range.
pub open spec fn rect_ok(r: Rect) -> bool {
    r.x + r.width <= u16::MAX && r.y + r.height <= u16::MAX
}

/// `a` saturating-minus `b`.
pub open spec fn sub0(a: int, b: int) -> int {
    if a >= b {
        a - b
    } else {
        0
    }
}

/// The smaller of two values.
pub open spec fn lesser(a: int, b: int) -> int {
    if a <= b {
        a
    } else {
        b
    }
}

/// The larger of two values.
pub open spec fn greater(a: int, b: int) -> int {
    if a >= b {
        a
    } else {
        b
    }
}

/// A popup of the requested size, shrunk to leave a one-cell margin (but kept at least
/// 20 by 6 where the area allows) and centered in `area`.
pub open spec fn centered(area: Rect, width: int, height: int) -> (int, int, int, int) {
    let w = lesser(lesser(width, greater(sub0(area.width as int, 2), 20)), area.width as int);
    let h = lesser(lesser(height, greater(sub0(area.height as int, 2), 6)), area.height as int);
    (area.x + sub0(area.width as int, w) / 2, area.y + sub0(area.height as int, h) / 2, w, h)
}

/// Compute a centered popup rect clamped to the terminal area (see [`centered`]).
pub fn centered_rect(area: Rect, width: u16, height: u16) -> (r: Rect)
    requires
        rect_ok(area),
    ensures
        (r.x as int, r.y as int, r.width as int, r.height as int) == centered(
            area,
            width as int,
            height as int,
        ),
        rect_ok(r),
        area.x <= r.x && r.x + r.width <= area.x + area.width,
        area.y <= r.y && r.y + r.height <= area.y + area.height,
{
    let wm = if area.width >= 2 {
        area.width - 2
    } else {
        0
    };
    let wm = if wm >= 20 {
        wm
    } else {
        20
    };
    let w = if width < wm {
        width
    } else {
        wm
    };
    let w = if w < area.width {
        w
    } else {
        area.width
    };
    let hm = if area.height >= 2 {
        area.height - 2
    } else {
        0
    };
    let hm = if hm >= 6 {
        hm
    } else {
        6
    };
    let h = if height < hm {
        height
    } else {
        hm
    };
    let h = if h < area.height {
        h
    } else {
        area.height
    };
    Rect { x: area.x + (area.width - w) / 2, y: area.y + (area.height - h) / 2, width: w, height: h }
}

/// Whether cell `(col, row)` lies in `r` (edges computed with saturation).
pub open spec fn contains_cell(r: Rect, col: int, row: int) -> bool {
    col >= r.x && col < lesser(r.x + r.width, u16::MAX as int) && row >= r.y && row < lesser(
        r.y + r.height,
        u16::MAX as int,
    )
}

/// Whether the cell at `(col, row)` lies in `r`.
pub fn rect_contains(r: Rect, col: u16, row: u16) -> (b: bool)
    ensures
        b == contains_cell(r, col as int, row as int),
{
    col >= r.x && col < r.x.saturating_add(r.width) && row >= r.y && row < r.y.saturating_add(
        r.height,
    )
}

/// Height of the `@` completion panel for `n` matches: nothing for none, else the shown
/// rows plus two border rows.
pub open spec fn at_panel_rows(n: nat) -> nat {
    if n == 0 {
        0
    } else {
        (lesser(n as int, SLASH_PANEL_MAX_ROWS as int) + 2) as nat
    }
}

/// Height of the `@` completion panel for `n` matches.
pub fn at_panel_height(n: usize) -> (h: u16)
    ensures
        h as nat == at_panel_rows(n as nat),
{
    if n == 0 {
        return 0;
    }
    let rows: u16 = if n < SLASH_PANEL_MAX_ROWS {
        n as u16
    } else {
        SLASH_PANEL_MAX_ROWS as u16
    };
    rows + 2
}

/// Height of the slash panel for `n` matching commands: nothing for none, else the shown
/// rows, a footer row when some are hidden, and two border rows, at most 14.
pub open spec fn slash_panel_rows(n: nat) -> nat {
    if n == 0 {
        0
    } else {
        let rows = lesser(n as int, SLASH_PANEL_MAX_ROWS as int);
        let footer: int = if n > SLASH_PANEL_MAX_ROWS {
            1
        } else {
            0
        };
        lesser(rows + footer + 2, 14) as nat
    }
}

/// Height of the slash panel for `filtered_len` matching commands.
pub fn slash_panel_height(filtered_len: usize) -> (h: u16)
    ensures
        h as nat == slash_panel_rows(filtered_len as nat),
{
    if filtered_len == 0 {
        return 0;
    }
    let rows: u16 = if filtered_len < SLASH_PANEL_MAX_ROWS {
        filtered_len as u16
    } else {
        SLASH_PANEL_MAX_ROWS as u16
    };
    let footer: u16 = if filtered_len > SLASH_PANEL_MAX_ROWS {
        1
    } else {
        0
    };
    let total = rows + footer + 2;
    if total < 14 {
        total
    } else {
        14
    }
}

/// Height of the composer's completion area: the taller of the slash panel (when visible)
/// and the `@` panel (when it has matches).
pub open spec fn chrome_rows(slash_visible: bool, slash_matches: nat, at_matches: nat) -> nat {
    let slash_h = if slash_visible {
        slash_panel_rows(slash_matches)
    } else {
        0
    };
    let at_h = if at_matches > 0 {
        at_panel_rows(at_matches)
    } else {
        0
    };
    greater(slash_h as int, at_h as int) as nat
}

/// Columns of the session sidebar.
pub const SIDEBAR_WIDTH: u16 = 32;

/// The narrowest terminal that shows the sidebar.
pub const SIDEBAR_MIN_TOTAL_WIDTH: u16 = 110;

/// How much of a split one part takes.
#[derive(Clone, Copy, PartialEq, Eq, Debug)]
pub enum SizeRule {
    /// At least this many cells.
    Min(u16),
    /// Exactly this many cells, where the area allows.
    Length(u16),
}

/// Each part lies across the whole of `area` on the axis the split does not cut: the
/// full width for a top-to-bottom split, the full height for a left-to-right one.
pub open spec fn spans_cross_axis(vertical: bool, area: Rect, part: Rect) -> bool {
    if vertical {
        part.x == area.x && part.width == area.width
    } else {
        part.y == area.y && part.height == area.height
    }
}

/// Each part lies within `area` along the axis the split cuts: from the area's top (or
/// left) edge to its bottom (or right) edge.
pub open spec fn within_cut_axis(vertical: bool, area: Rect, part: Rect) -> bool {
    if vertical {
        area.y <= part.y && part.y + part.height <= area.y + area.height
    } else {
        area.x <= part.x && part.x + part.width <= area.x + area.width
    }
}

/// A part of a split of `area`: across the whole area on one axis, inside it on the other.
pub open spec fn part_of(vertical: bool, area: Rect, part: Rect) -> bool {
    spans_cross_axis(vertical, area, part) && within_cut_axis(vertical, area, part)
}

/// The cells a rule asks for: its minimum or its length.
pub open spec fn rule_cells(r: SizeRule) -> nat {
    match r {
        SizeRule::Min(n) => n as nat,
        SizeRule::Length(n) => n as nat,
    }
}

/// The cells all the rules ask for together.
pub open spec fn cells_sum(rules: Seq<SizeRule>) -> nat
    decreases rules.len(),
{
    if rules.len() == 0 {
        0
    } else {
        cells_sum(rules.drop_last()) + rule_cells(rules.last())
    }
}

/// Where a rectangle starts along the cut axis.
pub open spec fn axis_start(vertical: bool, r: Rect) -> nat {
    if vertical {
        r.y as nat
    } else {
        r.x as nat
    }
}

/// How long a rectangle is along the cut axis.
pub open spec fn axis_len(vertical: bool, r: Rect) -> nat {
    if vertical {
        r.height as nat
    } else {
        r.width as nat
    }
}

/// The rules fit the area: one leading `Min` rule, `Length` rules after it, the cells asked
/// for no more than the area's length along the cut axis, and the area's far edge within
/// the terminal's coordinates.
pub open spec fn rules_fit(vertical: bool, area: Rect, rules: Seq<SizeRule>) -> bool {
    &&& rules.len() >= 1
    &&& rules[0] is Min
    &&& forall|i: int| 1 <= i < rules.len() ==> #[trigger] rules[i] is Length
    &&& cells_sum(rules) <= axis_len(vertical, area)
    &&& axis_start(vertical, area) + axis_len(vertical, area) <= u16::MAX
}

/// The cells part `i` gets when the rules fit: each `Length` part its length, the `Min`
/// part what they leave.
pub open spec fn part_cells(vertical: bool, area: Rect, rules: Seq<SizeRule>, i: int) -> nat {
    if i == 0 {
        (axis_len(vertical, area) - (cells_sum(rules) - rule_cells(rules[0]))) as nat
    } else {
        rule_cells(rules[i])
    }
}

/// Where part `i` starts, counted from the area's start, when the parts tile the area.
pub open spec fn part_offset(vertical: bool, area: Rect, rules: Seq<SizeRule>, i: int) -> nat
    decreases i,
{
    if i <= 0 {
        0
    } else {
        part_offset(vertical, area, rules, i - 1) + part_cells(vertical, area, rules, i - 1)
    }
}

/// Calls `Layout::split` of `ratatui` on a layout with no margin, no spacing and the
/// default `Flex::Start`. Claimed of it, as its `try_split` and `changes_to_rects` source
/// shows:
/// - one part per rule, in order, each across the whole area on the other axis
///   (`changes_to_rects`), and inside the area along the cut axis (the area's ends are
///   pinned and every solver variable held inside them as required constraints, each
///   segment's start no later than its end, and rounding keeps that order);
/// - when the rules fit ([`rules_fit`]), the parts tile the area in order, each `Length`
///   part exactly its length and the `Min` part the rest: the first spacer is held empty
///   at strength `REQUIRED - 1` and the inner ones at `REQUIRED / 10`, lengths at
///   `STRONG * 10`, while the `Min` part grows at `MEDIUM` against the last spacer's
///   `MEDIUM / 10`, so that tiling is the one optimum, whatever order the solver visits its
///   constraints in.
/// Where the parts lie when the rules do not fit is left unsaid: the gaps are then not
/// held at zero by a required constraint, so parts may overlap.
#[verifier::external_body]
fn layout_split(vertical: bool, area: Rect, rules: &[SizeRule]) -> (r: Vec<Rect>)
    ensures
        r@.len() == rules@.len(),
        forall|i: int| 0 <= i < r@.len() ==> part_of(vertical, area, #[trigger] r@[i]),
        rules_fit(vertical, area, rules@) ==> forall|i: int|
            0 <= i < r@.len() ==> axis_start(vertical, #[trigger] r@[i]) == axis_start(vertical, area)
                + part_offset(vertical, area, rules@, i) && axis_len(vertical, r@[i]) == part_cells(
                vertical,
                area,
                rules@,
                i,
            ),
{
    let constraints: Vec<Constraint> = rules.iter().map(|rule| match *rule {
        SizeRule::Min(n) => Constraint::Min(n),
        SizeRule::Length(n) => Constraint::Length(n),
    }).collect();
    let direction = if vertical { Direction::Vertical } else { Direction::Horizontal };
    let area = ratatui::layout::Rect { x: area.x, y: area.y, width: area.width, height: area.height };
    let parts = Layout::default().direction(direction).constraints(constraints).split(area);
    parts.iter().map(|p| Rect { x: p.x, y: p.y, width: p.width, height: p.height }).collect()
}

/// Split the session screen, top to bottom, by the rules transcript (at least 4 rows),
/// status line (2), slash panel (`slash_h` rows, present only when `slash_h` is not 0) and
/// composer (3); each part spans the full width of `area` and lies inside it. When the
/// rows fit (`9 + slash_h` of them, the area's bottom within the terminal's coordinates)
/// the parts tile the area: the composer the last 3 rows, the slash panel the `slash_h`
/// above it, the status line the 2 above that, the transcript the rest at the top.
pub fn layout_chunks(area: Rect, slash_h: u16) -> (r: (Rect, Rect, Option<Rect>, Rect))
    ensures
        part_of(true, area, r.0),
        part_of(true, area, r.1),
        part_of(true, area, r.3),
        slash_h > 0 <==> r.2 is Some,
        r.2 matches Some(p) ==> part_of(true, area, p),
        area.height >= 9 + slash_h && area.y + area.height <= u16::MAX ==> {
            let h = area.height - 5 - slash_h;
            &&& r.0 == Rect { height: h as u16, ..area }
            &&& r.1 == Rect { y: (area.y + h) as u16, height: 2, ..area }
            &&& (slash_h > 0 ==> r.2 == Some(Rect { y: (area.y + h + 2) as u16, height: slash_h, ..area }))
            &&& r.3 == Rect { y: (area.y + area.height - 3) as u16, height: 3, ..area }
        },
{
    if slash_h > 0 {
        let rules = [SizeRule::Min(4), SizeRule::Length(2), SizeRule::Length(slash_h), SizeRule::Length(3)];
        let c = layout_split(true, area, &rules);
        proof {
            reveal_with_fuel(cells_sum, 5);
            reveal_with_fuel(part_offset, 5);
            let rs = rules@;
            assert(rs[1] is Length && rs[2] is Length && rs[3] is Length);
            assert(cells_sum(rs) == 9 + slash_h) by {
                assert(rs.drop_last().drop_last().drop_last().drop_last() =~= Seq::<SizeRule>::empty());
            }
            if area.height >= 9 + slash_h && area.y + area.height <= u16::MAX {
                assert(rules_fit(true, area, rs));
                assert(axis_start(true, c@[0]) == area.y + part_offset(true, area, rs, 0));
                assert(axis_start(true, c@[1]) == area.y + part_offset(true, area, rs, 1));
                assert(axis_start(true, c@[2]) == area.y + part_offset(true, area, rs, 2));
                assert(axis_start(true, c@[3]) == area.y + part_offset(true, area, rs, 3));
                assert(axis_len(true, c@[0]) == part_cells(true, area, rs, 0));
                assert(axis_len(true, c@[1]) == part_cells(true, area, rs, 1));
                assert(axis_len(true, c@[2]) == part_cells(true, area, rs, 2));
                assert(axis_len(true, c@[3]) == part_cells(true, area, rs, 3));
                assert(part_of(true, area, c@[0]) && part_of(true, area, c@[1]));
                assert(part_of(true, area, c@[2]) && part_of(true, area, c@[3]));
            }
            assert(part_of(true, area, c@[0]) && part_of(true, area, c@[1]));
            assert(part_of(true, area, c@[2]) && part_of(true, area, c@[3]));
        }
        (c[0], c[1], Some(c[2]), c[3])
    } else {
        let rules = [SizeRule::Min(4), SizeRule::Length(2), SizeRule::Length(3)];
        let c = layout_split(true, area, &rules);
        proof {
            reveal_with_fuel(cells_sum, 4);
            reveal_with_fuel(part_offset, 4);
            let rs = rules@;
            assert(rs[1] is Length && rs[2] is Length);
            assert(cells_sum(rs) == 9) by {
                assert(rs.drop_last().drop_last().drop_last() =~= Seq::<SizeRule>::empty());
            }
            if area.height >= 9 && area.y + area.height <= u16::MAX {
                assert(rules_fit(true, area, rs));
                assert(axis_start(true, c@[0]) == area.y + part_offset(true, area, rs, 0));
                assert(axis_start(true, c@[1]) == area.y + part_offset(true, area, rs, 1));
                assert(axis_start(true, c@[2]) == area.y + part_offset(true, area, rs, 2));
                assert(axis_len(true, c@[0]) == part_cells(true, area, rs, 0));
                assert(axis_len(true, c@[1]) == part_cells(true, area, rs, 1));
                assert(axis_len(true, c@[2]) == part_cells(true, area, rs, 2));
            }
            assert(part_of(true, area, c@[0]) && part_of(true, area, c@[1]) && part_of(true, area, c@[2]));
        }
        (c[0], c[1], None, c[2])
    }
}

/// The main area and, on a terminal at least [`SIDEBAR_MIN_TOTAL_WIDTH`] wide, the sidebar
/// beside it, split left to right by the rules "at least 60 columns" and
/// "[`SIDEBAR_WIDTH`] columns": the sidebar the last 32 columns and the main area the rest
/// (when the area's right edge is within the terminal's coordinates); both span the full
/// height of `area` and lie inside it.
pub fn layout_with_sidebar(area: Rect) -> (r: (Rect, Option<Rect>))
    ensures
        area.width < SIDEBAR_MIN_TOTAL_WIDTH ==> r == (area, None::<Rect>),
        area.width >= SIDEBAR_MIN_TOTAL_WIDTH ==> part_of(false, area, r.0),
        area.width >= SIDEBAR_MIN_TOTAL_WIDTH ==> (r.1 matches Some(side) && part_of(false, area, side)),
        area.width >= SIDEBAR_MIN_TOTAL_WIDTH && area.x + area.width <= u16::MAX ==> {
            &&& r.0 == Rect { width: (area.width - SIDEBAR_WIDTH) as u16, ..area }
            &&& r.1 == Some(Rect { x: (area.x + area.width - SIDEBAR_WIDTH) as u16, width: SIDEBAR_WIDTH, ..area })
        },
{
    if area.width < SIDEBAR_MIN_TOTAL_WIDTH {
        return (area, None);
    }
    let rules = [SizeRule::Min(60), SizeRule::Length(SIDEBAR_WIDTH)];
    let chunks = layout_split(false, area, &rules);
    proof {
        reveal_with_fuel(cells_sum, 3);
        reveal_with_fuel(part_offset, 3);
        let rs = rules@;
        assert(rs[1] is Length);
        assert(cells_sum(rs) == 92) by {
            assert(rs.drop_last().drop_last() =~= Seq::<SizeRule>::empty());
        }
        if area.x + area.width <= u16::MAX {
            assert(rules_fit(false, area, rs));
            assert(axis_start(false, chunks@[0]) == area.x + part_offset(false, area, rs, 0));
            assert(axis_start(false, chunks@[1]) == area.x + part_offset(false, area, rs, 1));
            assert(axis_len(false, chunks@[0]) == part_cells(false, area, rs, 0));
            assert(axis_len(false, chunks@[1]) == part_cells(false, area, rs, 1));
        }
        assert(part_of(false, area, chunks@[0]) && part_of(false, area, chunks@[1]));
    }
    (chunks[0], Some(chunks[1]))
}

} // verus!
