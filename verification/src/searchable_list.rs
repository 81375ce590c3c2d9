//! Shared state of list pickers with a search query.

use crate::keys::{is_typing, KeyCode, KeyEvent};
use crate::text::{clear_string, pop_char, push_char};
use vstd::prelude::*;

verus! {

/// Shared state for list-picker popups with search filtering.
pub struct SearchableListState {
    pub query: String,
    pub index: usize,
    pub scroll: usize,
    pub max_rows: usize,
}

/// Action returned by [`SearchableListState::handle_key`].
#[derive(Clone, Copy, PartialEq, Eq, Debug)]
pub enum SearchableListAction {
    NoOp,
    /// Select the item at the given index of the filtered selectable items.
    Select(usize),
    Close,
}

/// `a` decreased by one, but not below zero.
pub open spec fn dec(a: nat) -> nat {
    if a > 0 {
        (a - 1) as nat
    } else {
        0
    }
}

/// `min(a + 1, count - 1)`: one step down a list of `count` items, stopping at the last.
pub open spec fn step_down(a: nat, count: nat) -> nat {
    if a + 1 <= count - 1 {
        a + 1
    } else {
        (count - 1) as nat
    }
}

/// `a` saturating-minus `b`.
pub open spec fn sat_sub(a: int, b: int) -> nat {
    if a >= b {
        (a - b) as nat
    } else {
        0
    }
}

/// `min(a, b)`.
pub open spec fn min(a: int, b: int) -> int {
    if a <= b {
        a
    } else {
        b
    }
}

/// Scroll offset after `adjust_scroll`: moved so the selected row is inside a viewport of
/// `min(total, max_rows)` rows, and never past the last full viewport.
pub open spec fn adjusted_scroll(index: nat, scroll: nat, max_rows: nat, total: nat) -> nat {
    if total == 0 {
        0
    } else {
        let vp = min(total as int, max_rows as int);
        let sc1: int = if index < scroll {
            index as int
        } else if index >= scroll + vp {
            sat_sub(index as int, vp - 1) as int
        } else {
            scroll as int
        };
        min(sc1, total - vp) as nat
    }
}

/// The visible range `(start, end)` of a filtered list of `total` rows.
pub open spec fn visible_range_of(scroll: nat, max_rows: nat, total: nat) -> (nat, nat) {
    let vp = min(total as int, max_rows as int);
    let start = min(scroll as int, total - vp);
    (start as nat, min(start + vp, total as int) as nat)
}

impl SearchableListState {
    /// An empty query at the top of a list showing at most `max_rows` rows.
    pub fn new(max_rows: usize) -> (r: Self)
        ensures
            r.query@ == Seq::<char>::empty(),
            r.index == 0,
            r.scroll == 0,
            r.max_rows == max_rows,
    {
        SearchableListState { query: String::new(), index: 0, scroll: 0, max_rows }
    }

    /// Clear the query and go back to the top.
    pub fn reset(&mut self)
        ensures
            final(self).query@ == Seq::<char>::empty(),
            final(self).index == 0,
            final(self).scroll == 0,
            final(self).max_rows == old(self).max_rows,
    {
        clear_string(&mut self.query);
        self.index = 0;
        self.scroll = 0;
    }

    /// Handle a key; `selectable_count` is the number of selectable filtered items.
    pub fn handle_key(&mut self, key: KeyEvent, selectable_count: usize) -> (r: SearchableListAction)
        ensures
            final(self).max_rows == old(self).max_rows,
            match key.code {
                KeyCode::Esc => r == SearchableListAction::Close && *final(self) == *old(self),
                KeyCode::Up => r == SearchableListAction::NoOp && final(self).index == dec(
                    old(self).index as nat,
                ) && final(self).query == old(self).query && final(self).scroll == old(self).scroll,
                KeyCode::Down => r == SearchableListAction::NoOp && final(self).index == (if selectable_count
                    > 0 {
                    step_down(old(self).index as nat, selectable_count as nat)
                } else {
                    old(self).index as nat
                }) && final(self).query == old(self).query && final(self).scroll == old(self).scroll,
                KeyCode::Enter => *final(self) == *old(self) && r == (if selectable_count > 0 {
                    SearchableListAction::Select(
                        min(old(self).index as int, selectable_count - 1) as usize,
                    )
                } else {
                    SearchableListAction::NoOp
                }),
                KeyCode::Backspace => r == SearchableListAction::NoOp && final(self).query@ == (if old(
                    self,
                ).query@.len() > 0 {
                    old(self).query@.drop_last()
                } else {
                    old(self).query@
                }) && final(self).index == 0 && final(self).scroll == 0,
                KeyCode::Char(c) => r == SearchableListAction::NoOp && if is_typing(key) {
                    final(self).query@ == old(self).query@.push(c) && final(self).index == 0
                        && final(self).scroll == 0
                } else {
                    *final(self) == *old(self)
                },
                _ => r == SearchableListAction::NoOp && *final(self) == *old(self),
            },
    {
        match key.code {
            KeyCode::Esc => SearchableListAction::Close,
            KeyCode::Up => {
                if self.index > 0 {
                    self.index = self.index - 1;
                }
                SearchableListAction::NoOp
            },
            KeyCode::Down => {
                if selectable_count > 0 {
                    self.index = if self.index < selectable_count - 1 {
                        self.index + 1
                    } else {
                        selectable_count - 1
                    };
                }
                SearchableListAction::NoOp
            },
            KeyCode::Enter => {
                if selectable_count > 0 {
                    SearchableListAction::Select(
                        if self.index < selectable_count - 1 {
                            self.index
                        } else {
                            selectable_count - 1
                        },
                    )
                } else {
                    SearchableListAction::NoOp
                }
            },
            KeyCode::Backspace => {
                pop_char(&mut self.query);
                self.index = 0;
                self.scroll = 0;
                SearchableListAction::NoOp
            },
            KeyCode::Char(c) => {
                if key.modifiers == 0 || key.modifiers == 1 {
                    push_char(&mut self.query, c);
                    self.index = 0;
                    self.scroll = 0;
                }
                SearchableListAction::NoOp
            },
            _ => SearchableListAction::NoOp,
        }
    }

    /// Ensure the selected item is visible within the viewport.
    pub fn adjust_scroll(&mut self, total_filtered: usize)
        requires
            old(self).max_rows > 0 || total_filtered == 0 || old(self).index < old(self).scroll,
        ensures
            final(self).scroll == adjusted_scroll(
                old(self).index as nat,
                old(self).scroll as nat,
                old(self).max_rows as nat,
                total_filtered as nat,
            ),
            final(self).index == old(self).index,
            final(self).max_rows == old(self).max_rows,
            final(self).query == old(self).query,
    {
        if total_filtered == 0 {
            self.scroll = 0;
            return;
        }
        let viewport = if total_filtered < self.max_rows {
            total_filtered
        } else {
            self.max_rows
        };
        if self.index < self.scroll {
            self.scroll = self.index;
        } else if self.index - self.scroll >= viewport {
            self.scroll = if self.index >= viewport - 1 {
                self.index - (viewport - 1)
            } else {
                0
            };
        }
        let cap = total_filtered - viewport;
        if self.scroll > cap {
            self.scroll = cap;
        }
    }

    /// The visible range `(start, end)` into a filtered list of `total_filtered` rows.
    pub fn visible_range(&self, total_filtered: usize) -> (r: (usize, usize))
        ensures
            (r.0 as nat, r.1 as nat) == visible_range_of(
                self.scroll as nat,
                self.max_rows as nat,
                total_filtered as nat,
            ),
    {
        let viewport = if total_filtered < self.max_rows {
            total_filtered
        } else {
            self.max_rows
        };
        let cap = total_filtered - viewport;
        let start = if self.scroll < cap {
            self.scroll
        } else {
            cap
        };
        (start, start + viewport)
    }
}

/// The visible range is a window of exactly `min(total, max_rows)` rows inside the list.
pub proof fn law_visible_range_window(scroll: nat, max_rows: nat, total: nat)
    ensures
        ({
            let (a, b) = visible_range_of(scroll, max_rows, total);
            a <= b <= total && b - a == min(total as int, max_rows as int)
        }),
{
}

/// After `adjust_scroll`, a selected row inside the list lies in the visible window.
pub proof fn law_adjust_scroll_shows_selection(index: nat, scroll: nat, max_rows: nat, total: nat)
    requires
        index < total,
        max_rows > 0,
    ensures
        ({
            let s = adjusted_scroll(index, scroll, max_rows, total);
            let (a, b) = visible_range_of(s, max_rows, total);
            a <= index < b
        }),
{
}

} // verus!
