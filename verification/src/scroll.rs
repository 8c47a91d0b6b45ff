//! Tail-follow vs. manual viewport-offset policy over the scrollback
//! buffer.

use vstd::prelude::*;

verus! {

/// Viewport policy state: `offset` is the index of the first visible
/// buffered line; while `follow_tail` holds, the offset is recomputed
/// every tick so the newest content stays visible.
pub struct ScrollState {
    pub offset: usize,
    pub follow_tail: bool,
}

/// Largest valid scroll offset when `total` buffered lines are shown in a
/// viewport `height` lines tall: `max(0, total - height)`.
pub open spec fn spec_max_scroll(total: int, height: int) -> int {
    if total > height {
        total - height
    } else {
        0
    }
}

/// Half-open window of visible line indices starting at `offset`:
/// `[offset, min(offset + height, total))`.
pub open spec fn spec_window(offset: int, total: int, height: int) -> (int, int) {
    (offset, if total - offset < height {
        total
    } else {
        offset + height
    })
}

/// While the tail is followed, the window always ends at the newest line
/// and is as tall as the viewport allows.
pub proof fn lemma_follow_tail_shows_bottom(total: int, height: int)
    requires
        0 <= total,
        0 <= height,
    ensures
        spec_window(spec_max_scroll(total, height), total, height).1 == total,
        spec_window(spec_max_scroll(total, height), total, height).1
            - spec_window(spec_max_scroll(total, height), total, height).0
            == if height < total { height } else { total },
{
}

impl ScrollState {
    /// The offset lies in `[0, max(0, total - height)]`.
    pub open spec fn in_range(self, total: int, height: int) -> bool {
        self.offset as int <= spec_max_scroll(total, height)
    }

    /// A fresh session starts pinned to the tail of the log.
    pub fn new() -> (r: ScrollState)
        ensures
            r.offset == 0,
            r.follow_tail,
    {
        ScrollState { offset: 0, follow_tail: true }
    }

    /// `max(0, total - height)` as executable code.
    pub fn max_scroll(total: usize, height: usize) -> (r: usize)
        ensures
            r as int == spec_max_scroll(total as int, height as int),
    {
        if total > height {
            total - height
        } else {
            0
        }
    }

    /// Manual scroll toward older lines: leaves tail-follow mode and moves
    /// the offset by exactly one, clamped at zero.
    pub fn scroll_up(&mut self)
        ensures
            !final(self).follow_tail,
            final(self).offset == if old(self).offset > 0 {
                (old(self).offset - 1) as usize
            } else {
                0usize
            },
    {
        self.follow_tail = false;
        if self.offset > 0 {
            self.offset = self.offset - 1;
        }
    }

    /// Manual scroll toward newer lines: leaves tail-follow mode and moves
    /// the offset by exactly one, clamped at `max(0, total - height)`.
    pub fn scroll_down(&mut self, total: usize, height: usize)
        requires
            old(self).in_range(total as int, height as int),
        ensures
            !final(self).follow_tail,
            final(self).offset as int == if (old(self).offset as int)
                < spec_max_scroll(total as int, height as int) {
                old(self).offset as int + 1
            } else {
                old(self).offset as int
            },
            final(self).in_range(total as int, height as int),
    {
        self.follow_tail = false;
        let limit: usize = Self::max_scroll(total, height);
        if self.offset < limit {
            self.offset = self.offset + 1;
        }
    }

    /// Horizontal scroll input toward the left: treated as a manual scroll
    /// step over the single tracked offset, like `scroll_up`.
    pub fn scroll_left(&mut self)
        ensures
            !final(self).follow_tail,
            final(self).offset == if old(self).offset > 0 {
                (old(self).offset - 1) as usize
            } else {
                0usize
            },
    {
        self.scroll_up();
    }

    /// Horizontal scroll input toward the right: treated as a manual scroll
    /// step over the single tracked offset, like `scroll_down`.
    pub fn scroll_right(&mut self, total: usize, height: usize)
        requires
            old(self).in_range(total as int, height as int),
        ensures
            !final(self).follow_tail,
            final(self).offset as int == if (old(self).offset as int)
                < spec_max_scroll(total as int, height as int) {
                old(self).offset as int + 1
            } else {
                old(self).offset as int
            },
            final(self).in_range(total as int, height as int),
    {
        self.scroll_down(total, height);
    }

    /// Per-tick realignment: while the tail is followed the offset is
    /// recomputed as `max(0, total - height)`; in manual mode it is only
    /// clamped down when the buffer shrank or the viewport grew.
    pub fn tick(&mut self, total: usize, height: usize)
        ensures
            final(self).follow_tail == old(self).follow_tail,
            old(self).follow_tail ==> final(self).offset as int
                == spec_max_scroll(total as int, height as int),
            !old(self).follow_tail ==> final(self).offset as int == if (old(self).offset as int)
                <= spec_max_scroll(total as int, height as int) {
                old(self).offset as int
            } else {
                spec_max_scroll(total as int, height as int)
            },
            final(self).in_range(total as int, height as int),
    {
        let limit: usize = Self::max_scroll(total, height);
        if self.follow_tail {
            self.offset = limit;
        } else if self.offset > limit {
            self.offset = limit;
        }
    }

    /// The scrollback evicted `count` old lines: pull the offset down by
    /// the same amount, floored at zero, so the apparent view position is
    /// preserved.
    pub fn note_evicted(&mut self, count: usize)
        ensures
            final(self).follow_tail == old(self).follow_tail,
            final(self).offset as int == if old(self).offset >= count {
                old(self).offset - count
            } else {
                0
            },
    {
        if self.offset >= count {
            self.offset = self.offset - count;
        } else {
            self.offset = 0;
        }
    }

    /// Window of visible line indices, `[start, end)`, over a buffer of
    /// `total` lines in a viewport `height` lines tall.
    pub fn visible_window(&self, total: usize, height: usize) -> (r: (usize, usize))
        requires
            self.in_range(total as int, height as int),
        ensures
            (r.0 as int, r.1 as int)
                == spec_window(self.offset as int, total as int, height as int),
            r.0 <= r.1 <= total,
    {
        let start: usize = self.offset;
        let end: usize = if total - start < height {
            total
        } else {
            start + height
        };
        (start, end)
    }
}

} // verus!
