//! Rectangles on the character grid.

use vstd::prelude::*;

verus! {

/// An axis-aligned rectangle on the character grid: its corner `(x, y)`,
/// its width `w` and its height `h`.
pub struct Rect {
    x: i32,
    y: i32,
    w: i32,
    h: i32,
}

impl Rect {
    /// The corner's column.
    pub closed spec fn spec_x(&self) -> int {
        self.x as int
    }

    /// The corner's row.
    pub closed spec fn spec_y(&self) -> int {
        self.y as int
    }

    /// The width.
    pub closed spec fn spec_w(&self) -> int {
        self.w as int
    }

    /// The height.
    pub closed spec fn spec_h(&self) -> int {
        self.h as int
    }

    /// Makes the rectangle with corner `(x, y)`, width `w` and height `h`.
    pub fn new(x: i32, y: i32, w: i32, h: i32) -> (r: Rect)
        ensures
            r.spec_x() == x,
            r.spec_y() == y,
            r.spec_w() == w,
            r.spec_h() == h,
    {
        Rect { x, y, w, h }
    }

    /// The number of cells the rectangle covers, `w * h`.
    pub fn area(&self) -> (a: i32)
        requires
            i32::MIN <= self.spec_w() * self.spec_h() <= i32::MAX,
        ensures
            a == self.spec_w() * self.spec_h(),
    {
        self.w * self.h
    }

    /// The column just past the right edge, `x + w`.
    pub fn max_x(&self) -> (m: i32)
        requires
            i32::MIN <= self.spec_x() + self.spec_w() <= i32::MAX,
        ensures
            m == self.spec_x() + self.spec_w(),
    {
        self.x + self.w
    }

    /// The row just past the bottom edge, `y + h`.
    pub fn max_y(&self) -> (m: i32)
        requires
            i32::MIN <= self.spec_y() + self.spec_h() <= i32::MAX,
        ensures
            m == self.spec_y() + self.spec_h(),
    {
        self.y + self.h
    }
}

} // verus!
