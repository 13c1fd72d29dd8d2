//! Points and axis-aligned rectangles in physical screen coordinates.

use vstd::prelude::*;

verus! {

/// A physical pixel coordinate.
#[derive(Debug, Clone, Copy, PartialEq, Eq, Structural)]
pub struct ScreenPoint {
    pub x: i32,
    pub y: i32,
}

/// A rectangle given by its left-top and right-bottom corners.
#[derive(Debug, Clone, Copy, PartialEq, Eq, Structural)]
pub struct ScreenRect {
    pub lt: ScreenPoint,
    pub rb: ScreenPoint,
}

/// The smaller of two integers.
pub open spec fn min_i(a: int, b: int) -> int {
    if a <= b { a } else { b }
}

/// The larger of two integers.
pub open spec fn max_i(a: int, b: int) -> int {
    if a <= b { b } else { a }
}

/// Integer halving that rounds toward zero, as `/ 2` does on machine integers.
pub open spec fn half_toward_zero(v: int) -> int {
    if v >= 0 { v / 2 } else { -((-v) / 2) }
}

impl ScreenRect {
    /// A rectangle is normalized when its left-top corner is not right of or below
    /// its right-bottom corner.
    pub open spec fn is_normalized(self) -> bool {
        self.lt.x <= self.rb.x && self.lt.y <= self.rb.y
    }

    /// The rectangle spanned by two corners given in any order.
    pub fn from(x1: i32, y1: i32, x2: i32, y2: i32) -> (r: Self)
        ensures
            r.lt.x == min_i(x1 as int, x2 as int),
            r.lt.y == min_i(y1 as int, y2 as int),
            r.rb.x == max_i(x1 as int, x2 as int),
            r.rb.y == max_i(y1 as int, y2 as int),
            r.is_normalized(),
    {
        let lt_x = if x1 <= x2 { x1 } else { x2 };
        let lt_y = if y1 <= y2 { y1 } else { y2 };
        let rb_x = if x1 <= x2 { x2 } else { x1 };
        let rb_y = if y1 <= y2 { y2 } else { y1 };
        ScreenRect { lt: ScreenPoint { x: lt_x, y: lt_y }, rb: ScreenPoint { x: rb_x, y: rb_y } }
    }

    /// The rectangle spanned by two points given in any order.
    pub fn from_points(pt1: ScreenPoint, pt2: ScreenPoint) -> (r: Self)
        ensures
            r == Self::spec_from_points(pt1, pt2),
            r.is_normalized(),
    {
        Self::from(pt1.x, pt1.y, pt2.x, pt2.y)
    }

    /// The normalized rectangle spanned by two points.
    pub open spec fn spec_from_points(pt1: ScreenPoint, pt2: ScreenPoint) -> ScreenRect {
        ScreenRect {
            lt: ScreenPoint {
                x: min_i(pt1.x as int, pt2.x as int) as i32,
                y: min_i(pt1.y as int, pt2.y as int) as i32,
            },
            rb: ScreenPoint {
                x: max_i(pt1.x as int, pt2.x as int) as i32,
                y: max_i(pt1.y as int, pt2.y as int) as i32,
            },
        }
    }

    pub fn lt_x(&self) -> (r: i32)
        ensures
            r == self.lt.x,
    {
        self.lt.x
    }

    pub fn lt_y(&self) -> (r: i32)
        ensures
            r == self.lt.y,
    {
        self.lt.y
    }

    pub fn rb_x(&self) -> (r: i32)
        ensures
            r == self.rb.x,
    {
        self.rb.x
    }

    pub fn rb_y(&self) -> (r: i32)
        ensures
            r == self.rb.y,
    {
        self.rb.y
    }

    /// The horizontal extent as an unsigned value; a difference that is negative
    /// wraps as a two's-complement cast does.
    pub open spec fn spec_width(self) -> u32 {
        (self.rb.x - self.lt.x) as u32
    }

    /// The vertical extent as an unsigned value.
    pub open spec fn spec_height(self) -> u32 {
        (self.rb.y - self.lt.y) as u32
    }

    pub fn width(&self) -> (r: u32)
        requires
            i32::MIN <= self.rb.x - self.lt.x <= i32::MAX,
        ensures
            r == self.spec_width(),
            self.lt.x <= self.rb.x ==> r == self.rb.x - self.lt.x,
    {
        let d: i32 = self.rb.x - self.lt.x;
        d as u32
    }

    pub fn height(&self) -> (r: u32)
        requires
            i32::MIN <= self.rb.y - self.lt.y <= i32::MAX,
        ensures
            r == self.spec_height(),
            self.lt.y <= self.rb.y ==> r == self.rb.y - self.lt.y,
    {
        let d: i32 = self.rb.y - self.lt.y;
        d as u32
    }

    /// The midpoint, each coordinate halved toward zero.
    pub fn center(self) -> (p: ScreenPoint)
        requires
            i32::MIN <= self.lt.x + self.rb.x <= i32::MAX,
            i32::MIN <= self.lt.y + self.rb.y <= i32::MAX,
        ensures
            p.x == half_toward_zero(self.lt.x + self.rb.x),
            p.y == half_toward_zero(self.lt.y + self.rb.y),
    {
        let sx: i32 = self.lt_x() + self.rb_x();
        let sy: i32 = self.lt_y() + self.rb_y();
        ScreenPoint { x: sx / 2, y: sy / 2 }
    }
}

} // verus!
