//! A scrolling viewport over a logical list: a selection cursor plus a
//! bounded visible window `[viewport.0, viewport.1)`, with O(1) navigation
//! steps that keep the selection inside the window.

use vstd::prelude::*;
use crate::vec2::Vec2;

verus! {

/// Adds `add` to `value`, saturating at `saturation`.
pub fn sat_add(value: usize, add: usize, saturation: usize) -> (r: usize)
    ensures
        r == if value + add >= saturation { saturation as int } else { value + add },
{
    if add >= saturation || value >= saturation - add {
        saturation
    } else {
        value + add
    }
}

/// Subtracts `sub` from `value`, saturating at `saturation` (which also
/// catches underflow past zero).
pub fn sat_sub(value: usize, sub: usize, saturation: usize) -> (r: usize)
    ensures
        r == if value >= sub && value - sub >= saturation { value - sub } else { saturation as int },
{
    if value >= sub && value - sub >= saturation {
        value - sub
    } else {
        saturation
    }
}

/// Increments `value`, saturating at `saturation`.
pub fn sat_inc(value: usize, saturation: usize) -> (r: usize)
    ensures
        r == if value >= saturation { saturation as int } else { value + 1 },
{
    if value >= saturation {
        saturation
    } else {
        value + 1
    }
}

/// Decrements `value`, saturating at `saturation`.
pub fn sat_dec(value: usize, saturation: usize) -> (r: usize)
    ensures
        r == if value <= saturation { saturation as int } else { value - 1 },
{
    if value <= saturation {
        saturation
    } else {
        value - 1
    }
}

/// One navigation step, for stating properties over whole sequences of
/// `down()`/`up()` calls.
#[derive(Clone, Copy, Debug, PartialEq, Eq, Structural)]
pub enum NavOp {
    Down,
    Up,
}

/// Tracks which slice of a list of `entries_len` entries is visible in a
/// window of `window_len` rows, and where the selection sits.
///
/// `viewport` holds the first visible entry index and one past the last;
/// `selected_entry` indexes into the entries, `selected_line` is the
/// selection's row offset within the window.
#[derive(Clone, Copy, Debug, PartialEq, Eq, Structural)]
pub struct ScrollingWindow {
    /// Start and end of the visible range of entry indices.
    pub viewport: Vec2,
    pub entries_len: usize,
    pub window_len: usize,
    /// Index of the selected entry in the entries list.
    pub selected_entry: usize,
    /// Row of the selected entry within the viewport.
    pub selected_line: usize,
}

impl ScrollingWindow {
    /// Consistency of the four cursors: the viewport is exactly
    /// `min(window_len, entries_len)` wide, ends within the list, and the
    /// selection sits inside it with `selected_line` as its row offset.
    /// When the list or the window is empty everything rests at zero.
    pub open spec fn wf(self) -> bool {
        &&& self.viewport.1 - self.viewport.0 == if self.window_len <= self.entries_len {
            self.window_len as int
        } else {
            self.entries_len as int
        }
        &&& self.viewport.1 <= self.entries_len
        &&& if self.entries_len == 0 || self.window_len == 0 {
            self.selected_entry == 0 && self.selected_line == 0 && self.viewport.0 == 0
        } else {
            &&& self.viewport.0 <= self.selected_entry < self.viewport.1
            &&& self.selected_line == self.selected_entry - self.viewport.0
        }
    }

    /// The state every (re)construction lands in: selection on the first
    /// entry, viewport at the top.
    pub open spec fn spec_reset(window_len: usize, entries_len: usize) -> ScrollingWindow {
        ScrollingWindow {
            viewport: Vec2(0, if window_len <= entries_len { window_len } else { entries_len }),
            entries_len,
            window_len,
            selected_entry: 0,
            selected_line: 0,
        }
    }

    pub open spec fn spec_first(self) -> ScrollingWindow {
        Self::spec_reset(self.window_len, self.entries_len)
    }

    pub open spec fn spec_last(self) -> ScrollingWindow {
        if self.entries_len == 0 || self.window_len == 0 {
            self
        } else {
            let start: usize = if self.entries_len >= self.window_len {
                (self.entries_len - self.window_len) as usize
            } else {
                0
            };
            ScrollingWindow {
                viewport: Vec2(start, self.entries_len),
                entries_len: self.entries_len,
                window_len: self.window_len,
                selected_entry: (self.entries_len - 1) as usize,
                selected_line: (self.entries_len - 1 - start) as usize,
            }
        }
    }

    /// Whether the entry at index `i` lies beyond the bottom of the viewport
    /// (only possible when the list does not fit the window).
    pub open spec fn spec_entry_overflow(self, i: int) -> bool {
        i > 0 && self.entries_len > self.window_len && i >= self.viewport.1
    }

    /// Whether the entry at index `i` lies above the top of the viewport.
    pub open spec fn spec_entry_underflow(self, i: int) -> bool {
        self.entries_len > self.window_len && i < self.viewport.0
    }

    pub open spec fn spec_down(self) -> ScrollingWindow {
        if self.entries_len == 0 || self.window_len == 0
            || self.selected_entry >= self.entries_len - 1 {
            self
        } else {
            let sel: usize = (self.selected_entry + 1) as usize;
            if self.spec_entry_overflow(sel as int) {
                ScrollingWindow {
                    viewport: Vec2(
                        (self.viewport.0 + 1) as usize,
                        (self.viewport.1 + 1) as usize,
                    ),
                    selected_entry: sel,
                    ..self
                }
            } else {
                ScrollingWindow {
                    selected_entry: sel,
                    selected_line: (self.selected_line + 1) as usize,
                    ..self
                }
            }
        }
    }

    pub open spec fn spec_up(self) -> ScrollingWindow {
        if self.entries_len == 0 || self.window_len == 0 || self.selected_entry == 0 {
            self
        } else {
            let sel: usize = (self.selected_entry - 1) as usize;
            if self.spec_entry_underflow(sel as int) {
                ScrollingWindow {
                    viewport: Vec2(
                        (self.viewport.0 - 1) as usize,
                        (self.viewport.1 - 1) as usize,
                    ),
                    selected_entry: sel,
                    ..self
                }
            } else {
                ScrollingWindow {
                    selected_entry: sel,
                    selected_line: if self.selected_line > 0 {
                        (self.selected_line - 1) as usize
                    } else {
                        0
                    },
                    ..self
                }
            }
        }
    }

    /// Start of the visible range: the whole list when it fits the window,
    /// the viewport otherwise.
    pub open spec fn spec_visible_start(self) -> int {
        if self.entries_len < self.window_len {
            0
        } else {
            self.viewport.0 as int
        }
    }

    pub open spec fn spec_visible_end(self) -> int {
        if self.entries_len < self.window_len {
            self.entries_len as int
        } else {
            self.viewport.1 as int
        }
    }

    pub fn new(entries_len: usize, screen_len: usize) -> (r: Self)
        ensures
            r == Self::spec_reset(screen_len, entries_len),
            r.wf(),
    {
        let mut s = ScrollingWindow {
            entries_len,
            window_len: 0,
            selected_entry: 0,
            selected_line: 0,
            viewport: Vec2(0, 0),
        };
        s.resize(screen_len, entries_len);
        s
    }

    /// Adopts a new window height and entry count, resetting the viewport to
    /// the top and the selection to the first entry.
    pub fn resize(&mut self, new_window_len: usize, new_entries_len: usize)
        ensures
            *final(self) == Self::spec_reset(new_window_len, new_entries_len),
            final(self).wf(),
    {
        self.window_len = new_window_len;
        self.entries_len = new_entries_len;
        self.viewport_reset();
        self.first();
    }

    /// Moves the viewport back to the top of the list; the selection cursors
    /// are left as they are.
    pub fn viewport_reset(&mut self)
        ensures
            *final(self) == (ScrollingWindow {
                viewport: Vec2(
                    0,
                    if old(self).window_len <= old(self).entries_len {
                        old(self).window_len
                    } else {
                        old(self).entries_len
                    },
                ),
                ..*old(self)
            }),
    {
        let len = if self.window_len <= self.entries_len {
            self.window_len
        } else {
            self.entries_len
        };
        self.viewport = Vec2(0, len);
    }

    /// The range of entry indices that can be seen on screen. The read is
    /// pure: without a mutation in between, two calls return the same
    /// range.
    pub fn visible(&self) -> (r: core::ops::Range<usize>)
        ensures
            r.start == self.spec_visible_start(),
            r.end == self.spec_visible_end(),
    {
        if self.entries_len < self.window_len {
            0..self.entries_len
        } else {
            self.viewport.0..self.viewport.1
        }
    }

    pub fn selected(&self) -> (r: usize)
        ensures
            r == self.selected_entry,
    {
        self.selected_entry
    }

    /// Moves the selection one entry down. When the new selection would
    /// leave the viewport, the viewport slides down one row instead of the
    /// highlighted row moving.
    pub fn down(&mut self)
        requires
            old(self).wf(),
        ensures
            *final(self) == old(self).spec_down(),
            final(self).wf(),
    {
        if self.entries_len > 0 && self.selected_entry < self.entries_len - 1
            && self.window_len > 0 {
            self.selected_entry += 1;
            if self.entry_overflow(self.selected_entry) {
                self.viewport = Vec2(self.viewport.0 + 1, self.viewport.1 + 1);
            } else {
                self.selected_line += 1;
            }
        }
    }

    /// Moves the selection one entry up; symmetric to `down`.
    pub fn up(&mut self)
        requires
            old(self).wf(),
        ensures
            *final(self) == old(self).spec_up(),
            final(self).wf(),
    {
        if self.entries_len > 0 && self.selected_entry > 0 && self.window_len > 0 {
            self.selected_entry -= 1;
            if self.entry_underflow(self.selected_entry) {
                self.viewport = Vec2(self.viewport.0 - 1, self.viewport.1 - 1);
            } else {
                self.selected_line = if self.selected_line > 0 {
                    self.selected_line - 1
                } else {
                    0
                };
            }
        }
    }

    /// Jumps to the first entry and rewinds the viewport.
    pub fn first(&mut self)
        ensures
            *final(self) == old(self).spec_first(),
            final(self).wf(),
    {
        self.selected_entry = 0;
        self.selected_line = 0;
        self.viewport_reset();
    }

    /// Jumps to the last entry; the viewport becomes the last full window of
    /// the list. A no-op when there is nothing to select or no row to show
    /// it on.
    pub fn last(&mut self)
        requires
            old(self).wf(),
        ensures
            *final(self) == old(self).spec_last(),
            final(self).wf(),
    {
        if self.entries_len > 0 && self.window_len > 0 {
            let start = sat_sub(self.entries_len, self.window_len, 0);
            self.selected_entry = self.entries_len - 1;
            self.selected_line = self.selected_entry - start;
            self.viewport = Vec2(start, self.entries_len);
        }
    }

    /// Whether the entry at index `i` cannot be drawn because it lies below
    /// the viewport.
    pub fn entry_overflow(&self, i: usize) -> (r: bool)
        ensures
            r == self.spec_entry_overflow(i as int),
    {
        i > 0 && self.entries_len > self.window_len && i >= self.viewport.1
    }

    /// Whether the entry at index `i` cannot be drawn because it lies above
    /// the viewport.
    pub fn entry_underflow(&self, i: usize) -> (r: bool)
        ensures
            r == self.spec_entry_underflow(i as int),
    {
        self.entries_len > self.window_len && i < self.viewport.0
    }

    /// The state after a whole sequence of navigation steps.
    pub open spec fn spec_apply_nav(self, ops: Seq<NavOp>) -> ScrollingWindow
        decreases ops.len(),
    {
        if ops.len() == 0 {
            self
        } else {
            let stepped = match ops[0] {
                NavOp::Down => self.spec_down(),
                NavOp::Up => self.spec_up(),
            };
            stepped.spec_apply_nav(ops.drop_first())
        }
    }
}

/// A single `down` step preserves consistency.
pub proof fn lemma_down_preserves_wf(s: ScrollingWindow)
    requires
        s.wf(),
    ensures
        s.spec_down().wf(),
{
}

/// A single `up` step preserves consistency.
pub proof fn lemma_up_preserves_wf(s: ScrollingWindow)
    requires
        s.wf(),
    ensures
        s.spec_up().wf(),
{
}

/// After any sequence of `down`/`up` steps from a consistent state, every
/// intermediate state is consistent: the selection never leaves
/// `[0, entries_len)`, and whenever the list outgrows a non-empty window the
/// selection stays inside `[viewport.0, viewport.1)`.
pub proof fn lemma_nav_preserves_invariant(s: ScrollingWindow, ops: Seq<NavOp>)
    requires
        s.wf(),
    ensures
        forall|k: int| 0 <= k <= ops.len() ==> (#[trigger] s.spec_apply_nav(ops.take(k))).wf(),
        forall|k: int| 0 <= k <= ops.len() ==> {
            let t = #[trigger] s.spec_apply_nav(ops.take(k));
            &&& (t.entries_len > 0 ==> 0 <= t.selected_entry < t.entries_len)
            &&& (t.entries_len > t.window_len && t.window_len > 0 ==> t.viewport.0
                <= t.selected_entry < t.viewport.1)
        },
    decreases ops.len(),
{
    assert(s.spec_apply_nav(ops.take(0)) == s);
    if ops.len() > 0 {
        let stepped = match ops[0] {
            NavOp::Down => s.spec_down(),
            NavOp::Up => s.spec_up(),
        };
        lemma_down_preserves_wf(s);
        lemma_up_preserves_wf(s);
        lemma_nav_preserves_invariant(stepped, ops.drop_first());
        assert forall|k: int| 1 <= k <= ops.len() implies (#[trigger] s.spec_apply_nav(
            ops.take(k),
        )).wf() by {
            assert(ops.take(k).drop_first() =~= ops.drop_first().take(k - 1));
            assert(s.spec_apply_nav(ops.take(k)) == stepped.spec_apply_nav(
                ops.drop_first().take(k - 1),
            ));
        }
    }
}

/// Going to the first entry, then the last, then the first again lands back
/// on the first entry with the viewport at the top of the list.
pub proof fn lemma_first_last_first(s: ScrollingWindow)
    ensures
        s.spec_first().spec_last().spec_first().selected_entry == 0,
        s.spec_first().spec_last().spec_first().viewport.0 == 0,
{
}

} // verus!

