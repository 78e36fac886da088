use vstd::prelude::*;

verus! {

/// Text drawn in a project badge.
pub const BADGE_TEXT: &'static str = "HU";

/// Smallest font size tried for the badge text.
pub const MIN_BADGE_FONT_SIZE: i32 = 5;

/// The font size last computed for the badge, with the badge width it was
/// computed for. The badge text never changes, so the width alone decides
/// whether the size can be used again.
#[derive(Clone, Copy, Debug)]
pub struct FontSizeCache {
    pub entry: Option<(i32, i32)>,
}

impl FontSizeCache {
    pub fn new() -> (r: FontSizeCache)
        ensures
            r.entry is None,
    {
        FontSizeCache { entry: None }
    }

    /// The cached font size, if it was computed for this width.
    pub fn lookup(&self, width: i32) -> (r: Option<i32>)
        ensures
            r == (match self.entry {
                Some((w, size)) => if w == width {
                    Some(size)
                } else {
                    None
                },
                None => None,
            }),
    {
        match self.entry {
            Some((w, size)) => if w == width {
                Some(size)
            } else {
                None
            },
            None => None,
        }
    }

    /// Records the font size computed for a width, in place of any other.
    pub fn store(&mut self, width: i32, size: i32)
        ensures
            final(self).entry == Some((width, size)),
    {
        self.entry = Some((width, size));
    }
}

} // verus!
