//! The viewport over the filtered index: tailing the newest entries, or
//! paused a fixed number of entries back from the tail.

use vstd::prelude::*;

verus! {

/// The two states of the viewport.
#[derive(Debug, Clone, Copy, PartialEq, Eq)]
pub enum ViewportState {
    /// The newest entries are shown and the view follows new arrivals.
    Tailing,
    /// The view is anchored this many entries back from the tail; the
    /// distance is never 0.
    Paused(usize),
}

/// The largest offset that a filtered index of `len` entries allows:
/// `len - 1`, or 0 if it is empty.
pub open spec fn max_offset(len: int) -> int {
    if len <= 0 {
        0
    } else {
        len - 1
    }
}

/// `offset` brought down to what a filtered index of `len` entries allows.
pub open spec fn clamped_offset(offset: int, len: int) -> int {
    if offset <= max_offset(len) {
        offset
    } else {
        max_offset(len)
    }
}

/// The part of a filtered index of `len` entries that a view of `height`
/// lines shows at `offset`: it ends `offset` entries before the tail and
/// holds up to `height` entries. The result is the pair of its first
/// position and the position after its last.
pub open spec fn visible_range(offset: int, len: int, height: int) -> (int, int) {
    let end = if offset <= len {
        len - offset
    } else {
        0
    };
    let start = if height <= end {
        end - height
    } else {
        0
    };
    (start, end)
}

/// The entries of the filtered index `shown` that a view of `height` lines
/// shows at `offset`.
pub open spec fn visible(shown: Seq<usize>, offset: int, height: int) -> Seq<usize> {
    let (start, end) = visible_range(offset, shown.len() as int, height);
    shown.subrange(start, end)
}

/// The offset after a matching entry arrived at a filtered index that now
/// has `len` entries: a paused view moves one further back, so that it
/// stays on the entries it showed, and a tailing view stays at the tail.
pub open spec fn anchored_offset(offset: int, len: int) -> int {
    if offset > 0 {
        clamped_offset(offset + 1, len)
    } else {
        0
    }
}

/// Where the view stands, as a distance back from the tail of the filtered
/// index. 0 is tailing.
pub struct Viewport {
    offset: usize,
}

impl View for Viewport {
    type V = nat;

    closed spec fn view(&self) -> nat {
        self.offset as nat
    }
}

impl Viewport {
    /// Whether the offset stays inside a filtered index of `len` entries.
    pub open spec fn within(&self, len: int) -> bool {
        self@ <= max_offset(len)
    }

    /// The state that the offset stands for.
    pub open spec fn state_of(offset: int) -> ViewportState {
        if offset == 0 {
            ViewportState::Tailing
        } else {
            ViewportState::Paused(offset as usize)
        }
    }

    /// A tailing viewport.
    pub fn new() -> (viewport: Viewport)
        ensures
            viewport@ == 0,
    {
        Viewport { offset: 0 }
    }

    /// The distance from the tail of the filtered index; 0 is tailing.
    pub fn offset(&self) -> (offset: usize)
        ensures
            offset == self@,
    {
        self.offset
    }

    /// Whether the viewport is tailing or paused.
    pub fn state(&self) -> (state: ViewportState)
        ensures
            state == Viewport::state_of(self@ as int),
    {
        if self.offset == 0 {
            ViewportState::Tailing
        } else {
            ViewportState::Paused(self.offset)
        }
    }

    /// Whether the view follows the tail.
    pub fn is_tailing(&self) -> (r: bool)
        ensures
            r == (self@ == 0),
    {
        self.offset == 0
    }

    /// Whether the view is anchored back from the tail.
    pub fn is_paused(&self) -> (r: bool)
        ensures
            r == (self@ > 0),
    {
        self.offset > 0
    }

    /// Moves `amount` entries back from the tail, as far as a filtered index
    /// of `len` entries allows.
    pub fn scroll_up(&mut self, amount: usize, len: usize)
        ensures
            final(self)@ == clamped_offset(old(self)@ + amount, len as int),
            final(self).within(len as int),
    {
        let wanted = self.offset.saturating_add(amount);
        let max = len.saturating_sub(1);
        self.offset = if wanted < max {
            wanted
        } else {
            max
        };
    }

    /// Moves `amount` entries towards the tail; reaching it resumes tailing.
    pub fn scroll_down(&mut self, amount: usize)
        ensures
            final(self)@ == if old(self)@ >= amount {
                old(self)@ - amount
            } else {
                0
            },
            final(self)@ <= old(self)@,
    {
        self.offset = self.offset.saturating_sub(amount);
    }

    /// Moves to the oldest entry of a filtered index of `len` entries.
    pub fn scroll_to_top(&mut self, len: usize)
        ensures
            final(self)@ == max_offset(len as int),
            final(self).within(len as int),
    {
        self.offset = len.saturating_sub(1);
    }

    /// Resumes tailing.
    pub fn scroll_to_bottom(&mut self)
        ensures
            final(self)@ == 0,
    {
        self.offset = 0;
    }

    /// Pauses a tailing view one entry back from the tail, if the filtered
    /// index of `len` entries has one to step back to; resumes tailing from
    /// a paused view.
    pub fn toggle_pause(&mut self, len: usize)
        ensures
            final(self)@ == if old(self)@ == 0 {
                clamped_offset(1, len as int)
            } else {
                0
            },
            final(self).within(len as int),
    {
        if self.offset == 0 {
            self.offset = if len >= 2 {
                1
            } else {
                0
            };
        } else {
            self.offset = 0;
        }
    }

    /// Brings the offset down to what a filtered index of `len` entries
    /// allows.
    pub fn clamp(&mut self, len: usize)
        ensures
            final(self)@ == clamped_offset(old(self)@ as int, len as int),
            final(self).within(len as int),
    {
        let max = len.saturating_sub(1);
        if self.offset > max {
            self.offset = max;
        }
    }

    /// Keeps a paused view on its entries after a matching entry arrived:
    /// the offset grows by one, as far as the filtered index, which now has
    /// `len` entries, allows. A tailing view stays tailing.
    pub fn anchor(&mut self, len: usize)
        ensures
            final(self)@ == anchored_offset(old(self)@ as int, len as int),
            final(self).within(len as int),
    {
        if self.offset > 0 {
            self.offset = self.offset.saturating_add(1);
        }
        self.clamp(len);
    }

    /// The part of a filtered index of `len` entries that a view of
    /// `height` lines shows: its first position and the position after its
    /// last.
    pub fn window(&self, len: usize, height: usize) -> (range: (usize, usize))
        ensures
            (range.0 as int, range.1 as int) == visible_range(self@ as int, len as int, height as int),
            range.0 <= range.1 <= len,
    {
        let end = len.saturating_sub(self.offset);
        let start = end.saturating_sub(height);
        (start, end)
    }
}

/// The offset of a tailing view is 0 and that of a paused view is positive:
/// the two states are told apart by the offset alone.
pub proof fn lemma_two_states(offset: int)
    requires
        0 <= offset,
    ensures
        Viewport::state_of(offset) is Tailing <==> offset == 0,
        Viewport::state_of(offset) is Paused <==> offset > 0,
{
}

/// A view never shows more than `height` entries, and what it shows lies
/// inside the filtered index.
pub proof fn lemma_visible_range_bounds(offset: int, len: int, height: int)
    requires
        0 <= offset,
        0 <= len,
        0 <= height,
    ensures
        0 <= visible_range(offset, len, height).0 <= visible_range(offset, len, height).1 <= len,
        visible_range(offset, len, height).1 - visible_range(offset, len, height).0 <= height,
        offset == 0 ==> visible_range(offset, len, height).1 == len,
{
}

/// While paused, the arrival of a matching entry leaves the visible entries
/// as they were: the filtered index grows by the new entry at its tail, the
/// offset grows by one, and the view shows the same entries as before.
pub proof fn lemma_anchor_keeps_visible(shown: Seq<usize>, arrived: usize, offset: int, height: int)
    requires
        0 < offset <= max_offset(shown.len() as int),
        0 <= height,
    ensures
        anchored_offset(offset, shown.len() as int + 1) == offset + 1,
        visible(shown.push(arrived), anchored_offset(offset, shown.len() as int + 1), height) == visible(
            shown,
            offset,
            height,
        ),
{
    let after = shown.push(arrived);
    let (start, end) = visible_range(offset, shown.len() as int, height);
}

/// A tailing view follows the tail: after an arrival it shows the newest
/// entries, the new one last.
pub proof fn lemma_tailing_follows(shown: Seq<usize>, arrived: usize, height: int)
    requires
        height > 0,
    ensures
        anchored_offset(0, shown.len() as int + 1) == 0,
        visible(shown.push(arrived), 0, height).last() == arrived,
{
}

} // verus!
