//! The transcript pane's viewport: how far it is scrolled, whether it follows the newest
//! line, and the text selection the mouse makes in it.

use crate::searchable_list::{min, sat_sub};
use crate::text::{chars_of, slice_vec, string_of};
use crate::transcript_view::{spans_view, Tone};
use crate::width::{char_cols, char_width, str_width, unicode_str_width};
use vstd::prelude::*;

verus! {

/// Lines one wheel notch scrolls.
pub const MOUSE_SCROLL_LINES: usize = 3;

/// A position in the transcript: global line index and column.
pub type Pos = (usize, usize);

/// Scroll position and mouse selection of the transcript pane.
#[derive(Clone, Copy, PartialEq, Eq, Debug)]
pub struct TranscriptViewport {
    /// Index of the first line shown.
    pub scroll_lines: usize,
    /// Stick to the newest line as the transcript grows.
    pub follow_tail: bool,
    /// The selected range, as (anchor end, moving end) or normalised by the gesture.
    pub selection: Option<(Pos, Pos)>,
    /// The left button is held in the pane.
    pub dragging: bool,
    /// Where the current drag started.
    pub drag_anchor: Option<Pos>,
}

/// What happens to the transcript pane: mouse gestures (with the global line under the
/// pointer, `None` when it is outside the text rows) and scrolling keys. `max_scroll` is
/// the largest scroll offset for the current transcript and pane height.
#[derive(Clone, Copy, PartialEq, Eq, Debug)]
pub enum ViewportEvent {
    WheelUp,
    WheelDown { max_scroll: usize },
    /// Left button pressed; `on_option` when the line is a clickable question option.
    Press { line: Option<usize>, col: usize, shift: bool, on_option: bool },
    Drag { line: Option<usize>, col: usize },
    Release,
    /// Up arrow with no menu open.
    LineUp,
    /// Down arrow with no menu open.
    LineDown { max_scroll: usize },
    /// End with an empty composer.
    Bottom { max_scroll: usize },
    /// The transcript was cleared.
    Reset,
}

/// What the caller does after an event.
#[derive(Clone, Copy, PartialEq, Eq, Debug)]
pub enum ViewportOutcome {
    Nothing,
    /// Send the answer of the question option under the pointer.
    AnswerOption,
    /// Copy the text between these positions to the clipboard.
    Copy(Pos, Pos),
}

/// The smaller of two positions in reading order.
pub open spec fn pos_min(a: Pos, b: Pos) -> Pos {
    if a.0 < b.0 || (a.0 == b.0 && a.1 <= b.1) {
        a
    } else {
        b
    }
}

/// The larger of two positions in reading order.
pub open spec fn pos_max(a: Pos, b: Pos) -> Pos {
    if a.0 < b.0 || (a.0 == b.0 && a.1 <= b.1) {
        b
    } else {
        a
    }
}

/// The selection a drag from `anchor` to line `gl`, column `col` makes: from the anchor to
/// the pointer, the earlier line first.
pub open spec fn drag_range(anchor: Pos, gl: usize, col: usize) -> (Pos, Pos) {
    let (al, ac) = anchor;
    (
        (min(al as int, gl as int) as usize, if al <= gl { ac } else { col }),
        (if al >= gl { al } else { gl }, if al <= gl { col } else { ac }),
    )
}

/// The whole lines from the selection's first line to line `gl`, ending at `col`, ordered.
pub open spec fn extend_range(first_line: usize, gl: usize, col: usize) -> (Pos, Pos) {
    let start: Pos = (min(first_line as int, gl as int) as usize, 0);
    let end: Pos = (if first_line >= gl { first_line } else { gl }, col);
    (pos_min(start, end), pos_max(start, end))
}

/// `a` plus `b`, capped at `cap`.
pub open spec fn add_capped(a: nat, b: nat, cap: nat) -> nat {
    if a + b <= cap {
        a + b
    } else {
        cap
    }
}

/// The viewport and outcome after `ev`.
pub open spec fn viewport_step(v: TranscriptViewport, ev: ViewportEvent) -> (TranscriptViewport, ViewportOutcome) {
    match ev {
        ViewportEvent::WheelUp => (
            TranscriptViewport {
                scroll_lines: sat_sub(v.scroll_lines as int, MOUSE_SCROLL_LINES as int) as usize,
                follow_tail: false,
                selection: None,
                dragging: false,
                ..v
            },
            ViewportOutcome::Nothing,
        ),
        ViewportEvent::WheelDown { max_scroll } => {
            let s = add_capped(v.scroll_lines as nat, MOUSE_SCROLL_LINES as nat, max_scroll as nat);
            (
                TranscriptViewport {
                    scroll_lines: s as usize,
                    follow_tail: v.follow_tail || s >= max_scroll,
                    selection: None,
                    dragging: false,
                    ..v
                },
                ViewportOutcome::Nothing,
            )
        },
        ViewportEvent::Press { line, col, shift, on_option } => match line {
            None => (v, ViewportOutcome::Nothing),
            Some(gl) => if on_option {
                (TranscriptViewport { selection: None, dragging: false, ..v }, ViewportOutcome::AnswerOption)
            } else if shift {
                match v.selection {
                    Some((s, _)) => (
                        TranscriptViewport { selection: Some(extend_range(s.0, gl, col)), dragging: true, ..v },
                        ViewportOutcome::Nothing,
                    ),
                    None => (
                        TranscriptViewport { drag_anchor: Some((gl, col)), dragging: true, ..v },
                        ViewportOutcome::Nothing,
                    ),
                }
            } else {
                (
                    TranscriptViewport {
                        selection: Some(((gl, col), (gl, col))),
                        drag_anchor: Some((gl, col)),
                        dragging: true,
                        ..v
                    },
                    ViewportOutcome::Nothing,
                )
            },
        },
        ViewportEvent::Drag { line, col } => if !v.dragging {
            (v, ViewportOutcome::Nothing)
        } else {
            match line {
                None => (v, ViewportOutcome::Nothing),
                Some(gl) => match v.drag_anchor {
                    Some(anchor) => if v.selection is Some || (sat_sub(gl as int, anchor.0 as int)
                        + sat_sub(anchor.0 as int, gl as int) <= 1 && sat_sub(col as int, anchor.1 as int)
                        + sat_sub(anchor.1 as int, col as int) <= 3) {
                        (TranscriptViewport { selection: Some(drag_range(anchor, gl, col)), ..v }, ViewportOutcome::Nothing)
                    } else {
                        (v, ViewportOutcome::Nothing)
                    },
                    None => match v.selection {
                        Some((s, _)) => (
                            TranscriptViewport { selection: Some(extend_range(s.0, gl, col)), ..v },
                            ViewportOutcome::Nothing,
                        ),
                        None => (v, ViewportOutcome::Nothing),
                    },
                },
            }
        },
        ViewportEvent::Release => {
            let v1 = TranscriptViewport { dragging: false, drag_anchor: None, ..v };
            match v.selection {
                Some((s, e)) => if s.0 < e.0 || (s.0 == e.0 && s.1 != e.1) {
                    (v1, ViewportOutcome::Copy(s, e))
                } else {
                    (v1, ViewportOutcome::Nothing)
                },
                None => (v1, ViewportOutcome::Nothing),
            }
        },
        ViewportEvent::LineUp => (
            TranscriptViewport {
                scroll_lines: sat_sub(v.scroll_lines as int, 1) as usize,
                follow_tail: false,
                ..v
            },
            ViewportOutcome::Nothing,
        ),
        ViewportEvent::LineDown { max_scroll } => {
            let s = add_capped(v.scroll_lines as nat, 1, max_scroll as nat);
            (
                TranscriptViewport { scroll_lines: s as usize, follow_tail: v.follow_tail || s >= max_scroll, ..v },
                ViewportOutcome::Nothing,
            )
        },
        ViewportEvent::Bottom { max_scroll } => (
            TranscriptViewport { scroll_lines: max_scroll, follow_tail: true, ..v },
            ViewportOutcome::Nothing,
        ),
        ViewportEvent::Reset => (
            TranscriptViewport { scroll_lines: 0, follow_tail: true, ..v },
            ViewportOutcome::Nothing,
        ),
    }
}

fn umin(a: usize, b: usize) -> (r: usize)
    ensures
        r == min(a as int, b as int),
{
    if a <= b {
        a
    } else {
        b
    }
}

fn umax(a: usize, b: usize) -> (r: usize)
    ensures
        r == (if a >= b { a } else { b }),
{
    if a >= b {
        a
    } else {
        b
    }
}

fn dist(a: usize, b: usize) -> (r: usize)
    ensures
        r == sat_sub(a as int, b as int) + sat_sub(b as int, a as int),
{
    if a >= b {
        a - b
    } else {
        b - a
    }
}

fn capped_add(a: usize, b: usize, cap: usize) -> (r: usize)
    ensures
        r == add_capped(a as nat, b as nat, cap as nat),
{
    if a <= cap && b <= cap - a {
        a + b
    } else {
        cap
    }
}

fn pos_order(a: Pos, b: Pos) -> (r: (Pos, Pos))
    ensures
        r == (pos_min(a, b), pos_max(a, b)),
{
    if a.0 < b.0 || (a.0 == b.0 && a.1 <= b.1) {
        (a, b)
    } else {
        (b, a)
    }
}

fn extend_exec(first_line: usize, gl: usize, col: usize) -> (r: (Pos, Pos))
    ensures
        r == extend_range(first_line, gl, col),
{
    pos_order((umin(first_line, gl), 0), (umax(first_line, gl), col))
}

fn drag_exec(anchor: Pos, gl: usize, col: usize) -> (r: (Pos, Pos))
    ensures
        r == drag_range(anchor, gl, col),
{
    let (al, ac) = anchor;
    (
        (umin(al, gl), if al <= gl { ac } else { col }),
        (umax(al, gl), if al <= gl { col } else { ac }),
    )
}

impl TranscriptViewport {
    /// A viewport at the top that follows the newest line, with nothing selected.
    pub fn new() -> (r: Self)
        ensures
            r.scroll_lines == 0,
            r.follow_tail,
            r.selection is None,
            !r.dragging,
            r.drag_anchor is None,
    {
        TranscriptViewport { scroll_lines: 0, follow_tail: true, selection: None, dragging: false, drag_anchor: None }
    }

    /// Apply `ev` (see [`viewport_step`]).
    pub fn handle(&mut self, ev: ViewportEvent) -> (r: ViewportOutcome)
        ensures
            (*final(self), r) == viewport_step(*old(self), ev),
    {
        match ev {
            ViewportEvent::WheelUp => {
                self.selection = None;
                self.dragging = false;
                self.follow_tail = false;
                self.scroll_lines = if self.scroll_lines >= MOUSE_SCROLL_LINES {
                    self.scroll_lines - MOUSE_SCROLL_LINES
                } else {
                    0
                };
                ViewportOutcome::Nothing
            },
            ViewportEvent::WheelDown { max_scroll } => {
                self.selection = None;
                self.dragging = false;
                self.scroll_lines = capped_add(self.scroll_lines, MOUSE_SCROLL_LINES, max_scroll);
                if self.scroll_lines >= max_scroll {
                    self.follow_tail = true;
                }
                ViewportOutcome::Nothing
            },
            ViewportEvent::Press { line, col, shift, on_option } => {
                if let Some(gl) = line {
                    if on_option {
                        self.selection = None;
                        self.dragging = false;
                        return ViewportOutcome::AnswerOption;
                    }
                    if shift {
                        match self.selection {
                            Some((s, _)) => {
                                self.selection = Some(extend_exec(s.0, gl, col));
                            },
                            None => {
                                self.drag_anchor = Some((gl, col));
                            },
                        }
                    } else {
                        self.selection = Some(((gl, col), (gl, col)));
                        self.drag_anchor = Some((gl, col));
                    }
                    self.dragging = true;
                }
                ViewportOutcome::Nothing
            },
            ViewportEvent::Drag { line, col } => {
                if !self.dragging {
                    return ViewportOutcome::Nothing;
                }
                if let Some(gl) = line {
                    match self.drag_anchor {
                        Some(anchor) => {
                            if self.selection.is_some() || (dist(gl, anchor.0) <= 1 && dist(col, anchor.1) <= 3) {
                                self.selection = Some(drag_exec(anchor, gl, col));
                            }
                        },
                        None => {
                            if let Some((s, _)) = self.selection {
                                self.selection = Some(extend_exec(s.0, gl, col));
                            }
                        },
                    }
                }
                ViewportOutcome::Nothing
            },
            ViewportEvent::Release => {
                self.dragging = false;
                self.drag_anchor = None;
                match self.selection {
                    Some((s, e)) => if s.0 < e.0 || (s.0 == e.0 && s.1 != e.1) {
                        ViewportOutcome::Copy(s, e)
                    } else {
                        ViewportOutcome::Nothing
                    },
                    None => ViewportOutcome::Nothing,
                }
            },
            ViewportEvent::LineUp => {
                self.follow_tail = false;
                self.scroll_lines = if self.scroll_lines >= 1 {
                    self.scroll_lines - 1
                } else {
                    0
                };
                ViewportOutcome::Nothing
            },
            ViewportEvent::LineDown { max_scroll } => {
                self.scroll_lines = capped_add(self.scroll_lines, 1, max_scroll);
                if self.scroll_lines >= max_scroll {
                    self.follow_tail = true;
                }
                ViewportOutcome::Nothing
            },
            ViewportEvent::Bottom { max_scroll } => {
                self.follow_tail = true;
                self.scroll_lines = max_scroll;
                ViewportOutcome::Nothing
            },
            ViewportEvent::Reset => {
                self.scroll_lines = 0;
                self.follow_tail = true;
                ViewportOutcome::Nothing
            },
        }
    }
}

/// The largest scroll offset of a `total`-line transcript in a pane of `height` rows.
pub open spec fn max_scroll_of(total: nat, height: nat) -> nat {
    sat_sub(total as int, height as int)
}

/// The largest scroll offset of a `total`-line transcript in a pane of `height` rows.
pub fn max_scroll(total: usize, height: usize) -> (r: usize)
    ensures
        r == max_scroll_of(total as nat, height as nat),
{
    if total >= height {
        total - height
    } else {
        0
    }
}

/// The scroll offset drawn: the last full page when following the tail, else the current
/// offset kept within the transcript.
pub open spec fn settled_scroll(v: TranscriptViewport, total: nat, height: nat) -> nat {
    let m = max_scroll_of(total, height);
    if v.follow_tail {
        m
    } else {
        min(v.scroll_lines as int, m as int) as nat
    }
}

impl TranscriptViewport {
    /// Fix the scroll offset for a `total`-line transcript in `height` rows (see
    /// [`settled_scroll`]) and give the range of lines to draw.
    pub fn settle(&mut self, total: usize, height: usize) -> (r: (usize, usize))
        ensures
            *final(self) == (TranscriptViewport {
                scroll_lines: settled_scroll(*old(self), total as nat, height as nat) as usize,
                ..*old(self)
            }),
            r.0 == final(self).scroll_lines,
            r.1 == min(r.0 + height, total as int),
            r.0 <= r.1 <= total,
    {
        let m = max_scroll(total, height);
        if self.follow_tail {
            self.scroll_lines = m;
        } else {
            self.scroll_lines = umin(self.scroll_lines, m);
        }
        let start = self.scroll_lines;
        let end = if start + height <= total {
            start + height
        } else {
            total
        };
        (start, end)
    }
}

/// The number of leading characters of `t` that start before column `limit` when the
/// first starts at column `start`, and the column after them (columns capped at the
/// largest `usize`).
pub open spec fn take_cols(t: Seq<char>, start: nat, limit: nat) -> (nat, nat)
    decreases t.len(),
{
    if t.len() > 0 && start < limit {
        let r = take_cols(t.drop_first(), add_capped(start, char_cols(t[0]), usize::MAX as nat), limit);
        (r.0 + 1, r.1)
    } else {
        (0, start)
    }
}

/// The pieces of one span (tone `tone`, text `t`, `w` columns wide, starting at column
/// `acc`) when columns `a..b` are selected, each marked selected or not: whole when it lies
/// on one side, else cut at the selection's edges.
pub open spec fn span_parts(tone: Tone, t: Seq<char>, acc: nat, w: nat, a: nat, b: nat) -> Seq<(Tone, Seq<char>, bool)> {
    let end = add_capped(acc, w, usize::MAX as nat);
    if end <= a || acc >= b {
        seq![(tone, t, false)]
    } else if acc >= a && end <= b {
        seq![(tone, t, true)]
    } else if acc < a && end > b {
        let (l, c1) = take_cols(t, acc, a);
        let rest = t.skip(l as int);
        let m = take_cols(rest, c1, b).0;
        let mid = rest.take(m as int);
        let right = rest.skip(m as int);
        seq![(tone, t.take(l as int), false)] + (if mid.len() > 0 {
            seq![(tone, mid, true)]
        } else {
            seq![]
        }) + (if right.len() > 0 {
            seq![(tone, right, false)]
        } else {
            seq![]
        })
    } else if acc < a {
        let l = take_cols(t, acc, a).0;
        seq![(tone, t.take(l as int), false), (tone, t.skip(l as int), true)]
    } else {
        let k = take_cols(t, acc, b).0;
        (if k > 0 {
            seq![(tone, t.take(k as int), true)]
        } else {
            seq![]
        }) + (if k < t.len() {
            seq![(tone, t.skip(k as int), false)]
        } else {
            seq![]
        })
    }
}

/// The pieces of `spans`, the first starting at column `acc`, with columns `a..b` selected.
pub open spec fn parts_from(spans: Seq<(Tone, Seq<char>)>, acc: nat, a: nat, b: nat) -> Seq<(Tone, Seq<char>, bool)>
    decreases spans.len(),
{
    if spans.len() == 0 {
        seq![]
    } else {
        let w = unicode_str_width(spans[0].1) as nat;
        span_parts(spans[0].0, spans[0].1, acc, w, a, b) + parts_from(
            spans.drop_first(),
            add_capped(acc, w, usize::MAX as nat),
            a,
            b,
        )
    }
}

/// Columns of a line: the widths of its spans added up (capped at the largest `usize`).
pub open spec fn line_cols(spans: Seq<(Tone, Seq<char>)>) -> nat
    decreases spans.len(),
{
    if spans.len() == 0 {
        0
    } else {
        add_capped(line_cols(spans.drop_last()), unicode_str_width(spans.last().1) as nat, usize::MAX as nat)
    }
}

/// The spans of a line, none selected.
pub open spec fn unmarked(spans: Seq<(Tone, Seq<char>)>) -> Seq<(Tone, Seq<char>, bool)> {
    spans.map_values(|x: (Tone, Seq<char>)| (x.0, x.1, false))
}

/// Line `global` with the part inside `sel` marked: nothing when the line lies outside the
/// selection's first and last line; else the selected columns, from the selection's start
/// (on its first line) to its end (on its last line), each clamped to the line's width.
pub open spec fn highlighted(spans: Seq<(Tone, Seq<char>)>, global: nat, sel: Option<(Pos, Pos)>) -> Seq<(Tone, Seq<char>, bool)> {
    match sel {
        None => unmarked(spans),
        Some((s, e)) => if global < s.0 || global > e.0 {
            unmarked(spans)
        } else {
            let lo = pos_min(s, e);
            let hi = pos_max(s, e);
            let lw = line_cols(spans);
            let a: nat = if global == lo.0 { min(lo.1 as int, lw as int) as nat } else { 0 };
            let b: nat = if global == hi.0 { min(hi.1 as int, lw as int) as nat } else { lw };
            if a >= b {
                unmarked(spans)
            } else {
                parts_from(spans, 0, a, b)
            }
        },
    }
}

/// A marked line as plain values.
pub open spec fn marked_view(v: Seq<(Tone, String, bool)>) -> Seq<(Tone, Seq<char>, bool)> {
    v.map_values(|x: (Tone, String, bool)| (x.0, x.1@, x.2))
}

fn take_cols_exec(t: &[char], start: usize, limit: usize) -> (r: (usize, usize))
    ensures
        (r.0 as nat, r.1 as nat) == take_cols(t@, start as nat, limit as nat),
        r.0 <= t@.len(),
{
    let mut i: usize = 0;
    let mut tmp = start;
    assert(t@.skip(0) =~= t@);
    while i < t.len() && tmp < limit
        invariant
            i <= t@.len(),
            take_cols(t@, start as nat, limit as nat) == ({
                let r = take_cols(t@.skip(i as int), tmp as nat, limit as nat);
                ((r.0 + i) as nat, r.1)
            }),
        decreases t@.len() - i,
    {
        let w = char_width(t[i]);
        proof {
            assert(t@.skip(i as int).drop_first() =~= t@.skip(i + 1));
        }
        tmp = capped_add(tmp, w, usize::MAX);
        i = i + 1;
    }
    proof {
        if i == t@.len() {
            assert(t@.skip(i as int).len() == 0);
        }
    }
    (i, tmp)
}

fn push_part(out: &mut Vec<(Tone, String, bool)>, tone: Tone, t: &[char], selected: bool)
    ensures
        marked_view(final(out)@) == marked_view(old(out)@).push((tone, t@, selected)),
{
    let ghost o = marked_view(out@);
    out.push((tone, string_of(t), selected));
    assert(marked_view(out@) =~= o.push((tone, t@, selected)));
}

fn split_span(out: &mut Vec<(Tone, String, bool)>, tone: Tone, t: &[char], acc: usize, w: usize, a: usize, b: usize)
    ensures
        marked_view(final(out)@) == marked_view(old(out)@) + span_parts(tone, t@, acc as nat, w as nat, a as nat, b as nat),
{
    let ghost o = marked_view(out@);
    let ghost parts = span_parts(tone, t@, acc as nat, w as nat, a as nat, b as nat);
    let end = capped_add(acc, w, usize::MAX);
    if end <= a || acc >= b {
        push_part(out, tone, t, false);
    } else if acc >= a && end <= b {
        push_part(out, tone, t, true);
    } else if acc < a && end > b {
        let (l, c1) = take_cols_exec(t, acc, a);
        let left = slice_vec(t, 0, l);
        let rest = slice_vec(t, l, t.len());
        assert(left@ =~= t@.take(l as int));
        assert(rest@ =~= t@.skip(l as int));
        let (m, _c2) = take_cols_exec(&rest, c1, b);
        let mid = slice_vec(&rest, 0, m);
        let right = slice_vec(&rest, m, rest.len());
        assert(mid@ =~= rest@.take(m as int));
        assert(right@ =~= rest@.skip(m as int));
        push_part(out, tone, &left, false);
        if mid.len() > 0 {
            push_part(out, tone, &mid, true);
        }
        if right.len() > 0 {
            push_part(out, tone, &right, false);
        }
    } else if acc < a {
        let (l, _c) = take_cols_exec(t, acc, a);
        let left = slice_vec(t, 0, l);
        let rest = slice_vec(t, l, t.len());
        assert(left@ =~= t@.take(l as int));
        assert(rest@ =~= t@.skip(l as int));
        push_part(out, tone, &left, false);
        push_part(out, tone, &rest, true);
    } else {
        let (k, _c) = take_cols_exec(t, acc, b);
        let inside = slice_vec(t, 0, k);
        let outside = slice_vec(t, k, t.len());
        assert(inside@ =~= t@.take(k as int));
        assert(outside@ =~= t@.skip(k as int));
        if k > 0 {
            push_part(out, tone, &inside, true);
        }
        if k < t.len() {
            push_part(out, tone, &outside, false);
        }
    }
    assert(marked_view(out@) =~= o + parts);
}

fn unmarked_exec(spans: &[(Tone, String)]) -> (r: Vec<(Tone, String, bool)>)
    ensures
        marked_view(r@) == unmarked(spans_view(spans@)),
{
    let ghost sv = spans_view(spans@);
    let mut r: Vec<(Tone, String, bool)> = Vec::new();
    let mut i: usize = 0;
    while i < spans.len()
        invariant
            i <= spans@.len(),
            sv == spans_view(spans@),
            marked_view(r@) == unmarked(sv.take(i as int)),
        decreases spans@.len() - i,
    {
        let ghost r0 = marked_view(r@);
        r.push((spans[i].0, spans[i].1.clone(), false));
        assert(marked_view(r@) =~= r0.push((sv[i as int].0, sv[i as int].1, false)));
        assert(unmarked(sv.take(i + 1)) =~= unmarked(sv.take(i as int)).push((sv[i as int].0, sv[i as int].1, false)));
        i = i + 1;
    }
    assert(sv.take(spans@.len() as int) =~= sv);
    r
}

fn line_width(spans: &[(Tone, String)]) -> (r: usize)
    ensures
        r == line_cols(spans_view(spans@)),
{
    let ghost sv = spans_view(spans@);
    let mut w: usize = 0;
    let mut i: usize = 0;
    while i < spans.len()
        invariant
            i <= spans@.len(),
            sv == spans_view(spans@),
            w == line_cols(sv.take(i as int)),
        decreases spans@.len() - i,
    {
        let sw = str_width(spans[i].1.as_str());
        proof {
            assert(sv.take(i + 1).drop_last() =~= sv.take(i as int));
        }
        w = capped_add(w, sw, usize::MAX);
        i = i + 1;
    }
    assert(sv.take(spans@.len() as int) =~= sv);
    w
}

/// The spans of transcript line `global`, cut and marked where they fall inside the
/// selection `sel` (see [`highlighted`]).
pub fn highlight_line(spans: &[(Tone, String)], global: usize, sel: Option<(Pos, Pos)>) -> (r: Vec<(Tone, String, bool)>)
    ensures
        marked_view(r@) == highlighted(spans_view(spans@), global as nat, sel),
{
    let ghost sv = spans_view(spans@);
    let plain = unmarked_exec(spans);
    let (s, e) = match sel {
        None => return plain,
        Some(p) => p,
    };
    if global < s.0 || global > e.0 {
        return plain;
    }
    let (lo, hi) = pos_order(s, e);
    let lw = line_width(spans);
    let a = if global == lo.0 {
        umin(lo.1, lw)
    } else {
        0
    };
    let b = if global == hi.0 {
        umin(hi.1, lw)
    } else {
        lw
    };
    if a >= b {
        return plain;
    }
    let mut out: Vec<(Tone, String, bool)> = Vec::new();
    let mut acc: usize = 0;
    let mut i: usize = 0;
    assert(sv.skip(0) =~= sv);
    while i < spans.len()
        invariant
            i <= spans@.len(),
            sv == spans_view(spans@),
            marked_view(out@) + parts_from(sv.skip(i as int), acc as nat, a as nat, b as nat) == parts_from(
                sv,
                0,
                a as nat,
                b as nat,
            ),
        decreases spans@.len() - i,
    {
        let text = spans[i].1.as_str();
        let w = str_width(text);
        let cs = chars_of(text);
        let ghost o = marked_view(out@);
        let ghost rest = sv.skip(i as int);
        let ghost acc0 = acc as nat;
        split_span(&mut out, spans[i].0, &cs, acc, w, a, b);
        acc = capped_add(acc, w, usize::MAX);
        proof {
            assert(rest[0] == sv[i as int]);
            assert(rest.drop_first() =~= sv.skip(i + 1));
            assert(parts_from(rest, acc0, a as nat, b as nat) == span_parts(
                sv[i as int].0,
                sv[i as int].1,
                acc0,
                w as nat,
                a as nat,
                b as nat,
            ) + parts_from(sv.skip(i + 1), acc as nat, a as nat, b as nat));
            assert(marked_view(out@) + parts_from(sv.skip(i + 1), acc as nat, a as nat, b as nat) =~= o
                + parts_from(rest, acc0, a as nat, b as nat));
        }
        i = i + 1;
    }
    proof {
        assert(sv.skip(spans@.len() as int) =~= Seq::<(Tone, Seq<char>)>::empty());
        assert(marked_view(out@) + Seq::<(Tone, Seq<char>, bool)>::empty() =~= marked_view(out@));
    }
    out
}

/// The characters of a marked line, in order.
pub open spec fn marked_text(parts: Seq<(Tone, Seq<char>, bool)>) -> Seq<char>
    decreases parts.len(),
{
    if parts.len() == 0 {
        seq![]
    } else {
        marked_text(parts.drop_last()) + parts.last().1
    }
}

/// The characters of a line, in order.
pub open spec fn line_text(spans: Seq<(Tone, Seq<char>)>) -> Seq<char>
    decreases spans.len(),
{
    if spans.len() == 0 {
        seq![]
    } else {
        line_text(spans.drop_last()) + spans.last().1
    }
}

proof fn lemma_marked_text_concat(p: Seq<(Tone, Seq<char>, bool)>, q: Seq<(Tone, Seq<char>, bool)>)
    ensures
        marked_text(p + q) == marked_text(p) + marked_text(q),
    decreases q.len(),
{
    if q.len() == 0 {
        assert(p + q =~= p);
        assert(marked_text(p) + marked_text(q) =~= marked_text(p));
    } else {
        lemma_marked_text_concat(p, q.drop_last());
        assert((p + q).drop_last() =~= p + q.drop_last());
        assert(marked_text(p + q) =~= marked_text(p) + marked_text(q));
    }
}

proof fn lemma_line_text_first(spans: Seq<(Tone, Seq<char>)>)
    requires
        spans.len() > 0,
    ensures
        line_text(spans) == spans[0].1 + line_text(spans.drop_first()),
    decreases spans.len(),
{
    if spans.len() == 1 {
        assert(spans.drop_first() =~= Seq::<(Tone, Seq<char>)>::empty());
        assert(spans.drop_last() =~= Seq::<(Tone, Seq<char>)>::empty());
        assert(line_text(Seq::<(Tone, Seq<char>)>::empty()) == Seq::<char>::empty());
        assert(spans.last() == spans[0]);
        assert(line_text(spans) =~= spans[0].1);
        assert(spans[0].1 + line_text(spans.drop_first()) =~= spans[0].1);
    } else {
        lemma_line_text_first(spans.drop_last());
        assert(spans.drop_last().drop_first() =~= spans.drop_first().drop_last());
        assert(spans.drop_first().last() == spans.last());
        assert(line_text(spans) =~= spans[0].1 + line_text(spans.drop_first()));
    }
}

proof fn lemma_one(tone: Tone, t: Seq<char>, m: bool)
    ensures
        marked_text(seq![(tone, t, m)]) == t,
{
    let p = seq![(tone, t, m)];
    assert(p.drop_last() =~= Seq::<(Tone, Seq<char>, bool)>::empty());
    assert(marked_text(Seq::<(Tone, Seq<char>, bool)>::empty()) == Seq::<char>::empty());
    assert(p.last() == (tone, t, m));
    assert(Seq::<char>::empty() + t =~= t);
}

proof fn lemma_opt(tone: Tone, t: Seq<char>, m: bool)
    ensures
        marked_text(if t.len() > 0 { seq![(tone, t, m)] } else { seq![] }) == t,
{
    lemma_one(tone, t, m);
    if t.len() == 0 {
        assert(t =~= Seq::<char>::empty());
    }
}

proof fn lemma_span_parts_text(tone: Tone, t: Seq<char>, acc: nat, w: nat, a: nat, b: nat)
    ensures
        marked_text(span_parts(tone, t, acc, w, a, b)) == t,
{
    let end = add_capped(acc, w, usize::MAX as nat);
    lemma_take_cols_bound(t, acc, a);
    lemma_take_cols_bound(t, acc, b);
    if end <= a || acc >= b {
        lemma_one(tone, t, false);
    } else if acc >= a && end <= b {
        lemma_one(tone, t, true);
    } else if acc < a && end > b {
        let (l, c1) = take_cols(t, acc, a);
        let rest = t.skip(l as int);
        lemma_take_cols_bound(rest, c1, b);
        let m = take_cols(rest, c1, b).0;
        let mid = rest.take(m as int);
        let right = rest.skip(m as int);
        let p1 = seq![(tone, t.take(l as int), false)];
        let p2: Seq<(Tone, Seq<char>, bool)> = if mid.len() > 0 { seq![(tone, mid, true)] } else { seq![] };
        let p3: Seq<(Tone, Seq<char>, bool)> = if right.len() > 0 { seq![(tone, right, false)] } else { seq![] };
        lemma_one(tone, t.take(l as int), false);
        lemma_opt(tone, mid, true);
        lemma_opt(tone, right, false);
        lemma_marked_text_concat(p1, p2);
        lemma_marked_text_concat(p1 + p2, p3);
        assert(t.take(l as int) + mid + right =~= t);
    } else if acc < a {
        let l = take_cols(t, acc, a).0;
        let p = seq![(tone, t.take(l as int), false), (tone, t.skip(l as int), true)];
        assert(p =~= seq![(tone, t.take(l as int), false)] + seq![(tone, t.skip(l as int), true)]);
        lemma_one(tone, t.take(l as int), false);
        lemma_one(tone, t.skip(l as int), true);
        lemma_marked_text_concat(seq![(tone, t.take(l as int), false)], seq![(tone, t.skip(l as int), true)]);
        assert(t.take(l as int) + t.skip(l as int) =~= t);
    } else {
        let k = take_cols(t, acc, b).0;
        let p1: Seq<(Tone, Seq<char>, bool)> = if k > 0 { seq![(tone, t.take(k as int), true)] } else { seq![] };
        let p2: Seq<(Tone, Seq<char>, bool)> = if k < t.len() { seq![(tone, t.skip(k as int), false)] } else { seq![] };
        lemma_opt(tone, t.take(k as int), true);
        lemma_opt(tone, t.skip(k as int), false);
        assert(k > 0 <==> t.take(k as int).len() > 0);
        assert(k < t.len() <==> t.skip(k as int).len() > 0);
        lemma_marked_text_concat(p1, p2);
        assert(t.take(k as int) + t.skip(k as int) =~= t);
    }
}

proof fn lemma_take_cols_bound(t: Seq<char>, start: nat, limit: nat)
    ensures
        take_cols(t, start, limit).0 <= t.len(),
    decreases t.len(),
{
    if t.len() > 0 && start < limit {
        lemma_take_cols_bound(t.drop_first(), add_capped(start, char_cols(t[0]), usize::MAX as nat), limit);
    }
}

proof fn lemma_parts_from_text(spans: Seq<(Tone, Seq<char>)>, acc: nat, a: nat, b: nat)
    ensures
        marked_text(parts_from(spans, acc, a, b)) == line_text(spans),
    decreases spans.len(),
{
    if spans.len() > 0 {
        let w = unicode_str_width(spans[0].1) as nat;
        lemma_parts_from_text(spans.drop_first(), add_capped(acc, w, usize::MAX as nat), a, b);
        lemma_span_parts_text(spans[0].0, spans[0].1, acc, w, a, b);
        lemma_marked_text_concat(
            span_parts(spans[0].0, spans[0].1, acc, w, a, b),
            parts_from(spans.drop_first(), add_capped(acc, w, usize::MAX as nat), a, b),
        );
        lemma_line_text_first(spans);
    }
}

proof fn lemma_unmarked_text(spans: Seq<(Tone, Seq<char>)>)
    ensures
        marked_text(unmarked(spans)) == line_text(spans),
    decreases spans.len(),
{
    if spans.len() > 0 {
        lemma_unmarked_text(spans.drop_last());
        assert(unmarked(spans).drop_last() =~= unmarked(spans.drop_last()));
    }
}

/// Highlighting a selection only cuts spans and marks pieces: the line's characters, in
/// order, are unchanged.
pub proof fn law_highlight_keeps_text(spans: Seq<(Tone, Seq<char>)>, global: nat, sel: Option<(Pos, Pos)>)
    ensures
        marked_text(highlighted(spans, global, sel)) == line_text(spans),
{
    lemma_unmarked_text(spans);
    lemma_parts_from_text(spans, 0, 0, 0);
    match sel {
        None => {},
        Some((s, e)) => {
            let lo = pos_min(s, e);
            let hi = pos_max(s, e);
            let lw = line_cols(spans);
            let a: nat = if global == lo.0 { min(lo.1 as int, lw as int) as nat } else { 0 };
            let b: nat = if global == hi.0 { min(hi.1 as int, lw as int) as nat } else { lw };
            lemma_parts_from_text(spans, 0, a, b);
        },
    }
}

/// Wheel scrolling drops the selection and ends any drag.
pub proof fn law_wheel_clears_selection(v: TranscriptViewport, max_scroll: usize)
    ensures
        viewport_step(v, ViewportEvent::WheelUp).0.selection is None,
        !viewport_step(v, ViewportEvent::WheelUp).0.dragging,
        viewport_step(v, ViewportEvent::WheelDown { max_scroll }).0.selection is None,
        !viewport_step(v, ViewportEvent::WheelDown { max_scroll }).0.dragging,
{
}

/// Scrolling down never passes the last page, and reaching it turns following on.
pub proof fn law_scroll_down_stops_at_bottom(v: TranscriptViewport, max_scroll: usize)
    requires
        v.scroll_lines <= max_scroll,
    ensures
        viewport_step(v, ViewportEvent::WheelDown { max_scroll }).0.scroll_lines <= max_scroll,
        viewport_step(v, ViewportEvent::LineDown { max_scroll }).0.scroll_lines <= max_scroll,
        viewport_step(v, ViewportEvent::WheelDown { max_scroll }).0.scroll_lines == max_scroll
            ==> viewport_step(v, ViewportEvent::WheelDown { max_scroll }).0.follow_tail,
        viewport_step(v, ViewportEvent::LineDown { max_scroll }).0.scroll_lines == max_scroll
            ==> viewport_step(v, ViewportEvent::LineDown { max_scroll }).0.follow_tail,
{
}

/// Releasing the button ends the drag, and copies exactly the selection, only when it
/// covers at least one column.
pub proof fn law_release_copies_selection(v: TranscriptViewport)
    ensures
        !viewport_step(v, ViewportEvent::Release).0.dragging,
        viewport_step(v, ViewportEvent::Release).0.drag_anchor is None,
        viewport_step(v, ViewportEvent::Release).0.selection == v.selection,
        viewport_step(v, ViewportEvent::Release).1 matches ViewportOutcome::Copy(s, e) ==> v.selection
            == Some((s, e)) && s != e,
{
}


/// While a drag is under way, moving the pointer selects between the drag's anchor and the
/// pointer: the two ends of the selection are those two points, the earlier line first.
pub proof fn law_drag_selects_between_anchor_and_pointer(v: TranscriptViewport, gl: usize, col: usize)
    requires
        v.dragging,
        v.drag_anchor is Some,
        v.selection is Some,
    ensures
        ({
            let a = v.drag_anchor->0;
            let p: Pos = (gl, col);
            viewport_step(v, ViewportEvent::Drag { line: Some(gl), col }).0.selection matches Some((s, e))
                && s.0 <= e.0 && ((s == a && e == p) || (s == p && e == a))
        }),
{
}

/// Pressing on one line, dragging to another and releasing copies the text between the two
/// points, from the earlier to the later, whichever way the pointer moved.
pub proof fn law_press_drag_release_copies(
    v: TranscriptViewport,
    l0: usize,
    c0: usize,
    gl: usize,
    col: usize,
)
    ensures
        ({
            let v1 = viewport_step(
                v,
                ViewportEvent::Press { line: Some(l0), col: c0, shift: false, on_option: false },
            ).0;
            let v2 = viewport_step(v1, ViewportEvent::Drag { line: Some(gl), col }).0;
            let out = viewport_step(v2, ViewportEvent::Release).1;
            &&& l0 < gl ==> out == ViewportOutcome::Copy((l0, c0), (gl, col))
            &&& gl < l0 ==> out == ViewportOutcome::Copy((gl, col), (l0, c0))
        }),
{
}

} // verus!
