//! A rectangle of window space that layout code hands out piece by piece.
use vstd::prelude::*;

verus! {

/// A rectangle in window coordinates.
pub struct Rect {
    pub x: i32,
    pub y: i32,
    pub width: i32,
    pub height: i32,
}

/// Whether a value fits in an `i32`.
pub open spec fn fits_i32(v: int) -> bool {
    i32::MIN <= v <= i32::MAX
}

impl Rect {
    /// Moves the left edge right by `value`, keeping the right edge.
    pub fn x_bump(&mut self, value: i32)
        requires
            fits_i32(old(self).x + value),
            fits_i32(old(self).width - value),
        ensures
            final(self).x == old(self).x + value,
            final(self).width == old(self).width - value,
            final(self).y == old(self).y,
            final(self).height == old(self).height,
    {
        self.x = self.x + value;
        self.width = self.width - value;
    }

    /// Moves the top edge down by `value`, keeping the bottom edge.
    pub fn y_bump(&mut self, value: i32)
        requires
            fits_i32(old(self).y + value),
            fits_i32(old(self).height - value),
        ensures
            final(self).y == old(self).y + value,
            final(self).height == old(self).height - value,
            final(self).x == old(self).x,
            final(self).width == old(self).width,
    {
        self.y = self.y + value;
        self.height = self.height - value;
    }

    /// Takes a strip of `value` from the left and returns its width.
    pub fn x_consume(&mut self, value: i32) -> (r: i32)
        requires
            fits_i32(old(self).x + value),
            fits_i32(old(self).width - value),
        ensures
            r == value,
            final(self).x == old(self).x + value,
            final(self).width == old(self).width - value,
            final(self).y == old(self).y,
            final(self).height == old(self).height,
    {
        self.x_bump(value);
        value
    }

    /// Takes a strip of `value` from the top and returns its height.
    pub fn y_consume(&mut self, value: i32) -> (r: i32)
        requires
            fits_i32(old(self).y + value),
            fits_i32(old(self).height - value),
        ensures
            r == value,
            final(self).y == old(self).y + value,
            final(self).height == old(self).height - value,
            final(self).x == old(self).x,
            final(self).width == old(self).width,
    {
        self.y_bump(value);
        value
    }
}

} // verus!
