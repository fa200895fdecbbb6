use vstd::prelude::*;

verus! {

/// The cursor's new position after a saturating step backwards.
pub open spec fn spec_back_one(c: int) -> int {
    if c == 0 {
        0
    } else {
        c - 1
    }
}

/// A cursor into the text buffer: a non-negative offset counted in text
/// units. The cursor itself is pure offset arithmetic and knows nothing of
/// the buffer's content; the owning buffer keeps the offset within
/// `[0, content.len()]`.
pub struct Cursor {
    pub location: usize,
}

impl Cursor {
    /// A fresh cursor at the start of the buffer.
    pub fn new() -> (c: Cursor)
        ensures
            c.location == 0,
    {
        Cursor { location: 0 }
    }

    /// Advance by one unit, unconditionally; the caller keeps the offset in
    /// range.
    pub fn move_char(&mut self)
        requires
            old(self).location < usize::MAX,
        ensures
            final(self).location == old(self).location + 1,
    {
        self.location += 1;
    }

    /// Step back by one unit, saturating at 0.
    pub fn back_char(&mut self)
        ensures
            final(self).location as int == spec_back_one(old(self).location as int),
    {
        if self.location != 0 {
            self.location -= 1;
        }
    }

    /// Jump forward by `dist` units, unconditionally; the caller keeps the
    /// offset in range.
    pub fn move_ahead(&mut self, dist: usize)
        requires
            old(self).location + dist <= usize::MAX,
        ensures
            final(self).location == old(self).location + dist,
    {
        self.location += dist;
    }

    /// Jump backwards by `dist` units; a jump that would go below 0 is
    /// dropped entirely rather than clamped.
    pub fn move_behind(&mut self, dist: usize)
        ensures
            old(self).location >= dist ==> final(self).location == old(self).location - dist,
            old(self).location < dist ==> final(self).location == old(self).location,
    {
        if self.location >= dist {
            self.location -= dist;
        }
    }
}

} // verus!
