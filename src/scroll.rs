use vstd::prelude::*;

verus! {

/// A drop of more than this many pixels at once...
pub const SCROLL_JUMP: i64 = 200;

/// ...that lands within this many pixels of the top is taken for a spurious
/// reset of the scroll position and ignored.
pub const SCROLL_NEAR_TOP: i64 = 15;

/// Whether moving from `committed` to `incoming` looks like the spurious reset
/// that follows a click elsewhere in the view.
pub open spec fn is_spurious_reset(committed: int, incoming: int) -> bool {
    committed - incoming > SCROLL_JUMP && incoming < SCROLL_NEAR_TOP
}

/// The scroll offset of a note view, in whole pixels.
#[derive(Clone, Copy, Debug, PartialEq, Eq, Structural)]
pub struct ScrollTracker {
    pub offset: i64,
}

impl ScrollTracker {
    pub fn new() -> (r: ScrollTracker)
        ensures
            r.offset == 0,
    {
        ScrollTracker { offset: 0 }
    }

    /// Takes a new scroll position, unless it looks like a spurious reset.
    /// Returns whether it was taken.
    pub fn update(&mut self, incoming: i64) -> (r: bool)
        ensures
            r == !is_spurious_reset(old(self).offset as int, incoming as int),
            final(self).offset == (if r {
                incoming
            } else {
                old(self).offset
            }),
    {
        let drop = self.offset as i128 - incoming as i128;
        if drop > SCROLL_JUMP as i128 && incoming < SCROLL_NEAR_TOP {
            false
        } else {
            self.offset = incoming;
            true
        }
    }
}

} // verus!
