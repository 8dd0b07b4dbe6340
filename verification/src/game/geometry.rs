//! Points, sizes and axis-aligned shapes on the pixel grid.
//!
//! The types mirror the primitives of `embedded-graphics` field by field, so
//! that a driver can hand them to that crate unchanged. What that crate
//! computes on rectangles is called here, not rebuilt: see
//! [`rectangle_bottom_right`] and [`rectangle_contains`].

use vstd::prelude::*;

verus! {

/// A pixel coordinate. The origin is the top-left corner and `y` grows downward.
#[derive(Clone, Copy, Debug, PartialEq, Eq, Structural)]
pub struct Point {
    pub x: i32,
    pub y: i32,
}

/// A width and a height in pixels.
#[derive(Clone, Copy, Debug, PartialEq, Eq, Structural)]
pub struct Size {
    pub width: u32,
    pub height: u32,
}

/// An axis-aligned rectangle, given by its top-left pixel and its size. Its
/// bottom-right corner is `top_left + size`: the pixels lie between the two
/// corners, the row and the column of the bottom-right one left out.
#[derive(Clone, Copy, Debug, PartialEq, Eq, Structural)]
pub struct Rectangle {
    pub top_left: Point,
    pub size: Size,
}

/// A circle, given by the top-left pixel of its bounding square and its diameter.
#[derive(Clone, Copy, Debug, PartialEq, Eq, Structural)]
pub struct Circle {
    pub top_left: Point,
    pub diameter: u32,
}

impl Rectangle {
    /// A rectangle without pixels: its width or its height is zero.
    pub open spec fn is_empty(&self) -> bool {
        self.size.width == 0 || self.size.height == 0
    }

    /// The left edge: the column of the leftmost pixels.
    pub open spec fn left(&self) -> int {
        self.top_left.x as int
    }

    /// The top edge: the row of the topmost pixels.
    pub open spec fn top(&self) -> int {
        self.top_left.y as int
    }

    /// The right edge, `left + width`: the column of the bottom-right corner
    /// `top_left + size`, one past the rightmost pixels.
    pub open spec fn right(&self) -> int {
        self.top_left.x + self.size.width
    }

    /// The bottom edge, `top + height`: the row of the bottom-right corner
    /// `top_left + size`, one past the bottommost pixels.
    pub open spec fn bottom(&self) -> int {
        self.top_left.y + self.size.height
    }

    /// The far corner can be written down: the width, the height and
    /// `top_left + size` all stay within `i32`. An empty rectangle has no
    /// pixel to speak of and always qualifies.
    pub open spec fn corner_fits(&self) -> bool {
        !self.is_empty() ==> {
            &&& self.size.width <= i32::MAX
            &&& self.size.height <= i32::MAX
            &&& self.right() <= i32::MAX
            &&& self.bottom() <= i32::MAX
        }
    }

    /// The last pixel of the rectangle, `top_left + size - (1, 1)`: the one
    /// in the rightmost column and the bottommost row. An empty rectangle
    /// has none.
    pub open spec fn last_pixel(&self) -> Option<Point>
        recommends
            self.corner_fits(),
    {
        if self.is_empty() {
            None
        } else {
            Some(Point { x: (self.right() - 1) as i32, y: (self.bottom() - 1) as i32 })
        }
    }

    /// The pixel at column `x` and row `y` belongs to the rectangle: it lies
    /// on or past the left and top edge and short of the right and bottom
    /// edge. Nothing belongs to an empty rectangle.
    pub open spec fn contains_at(&self, x: int, y: int) -> bool {
        &&& self.left() <= x < self.right()
        &&& self.top() <= y < self.bottom()
    }

    /// The pixel `point` belongs to the rectangle.
    pub open spec fn spec_contains(&self, point: Point) -> bool {
        self.contains_at(point.x as int, point.y as int)
    }

    /// A box of `width` by `height` pixels whose first pixel is at column `x`
    /// and row `y` has pixels, and both its first and its last pixel belong
    /// to this rectangle. Only these two corners are looked at.
    pub open spec fn holds_corners(&self, x: int, y: int, width: int, height: int) -> bool {
        &&& width > 0
        &&& height > 0
        &&& self.contains_at(x, y)
        &&& self.contains_at(x + width - 1, y + height - 1)
    }
}

/// `embedded_graphics::primitives::Rectangle::bottom_right`, called on the
/// same top-left point and size.
///
/// Trusted: what that crate calls the bottom right is the last pixel. It
/// returns `None` for a rectangle of zero width or height and
/// `top_left + size - (1, 1)` otherwise. It casts the size to `i32` and adds
/// with ordinary `i32` additions, hence the demand that the corner fits.
#[verifier::external_body]
pub(crate) fn rectangle_bottom_right(rectangle: &Rectangle) -> (corner: Option<Point>)
    requires
        rectangle.corner_fits(),
    ensures
        corner == rectangle.last_pixel(),
{
    let outside = embedded_graphics::primitives::Rectangle::new(
        embedded_graphics::geometry::Point::new(rectangle.top_left.x, rectangle.top_left.y),
        embedded_graphics::geometry::Size::new(rectangle.size.width, rectangle.size.height),
    );
    match outside.bottom_right() {
        Some(corner) => Some(Point { x: corner.x, y: corner.y }),
        None => None,
    }
}

/// `embedded_graphics::primitives::Rectangle::contains`, called on the same
/// top-left point and size and on the same point.
///
/// Trusted: that crate answers whether the point lies between the first
/// and the last pixel of the rectangle, both included, and `false` for an
/// empty rectangle. It computes the last pixel as above, hence the same
/// demand.
#[verifier::external_body]
pub(crate) fn rectangle_contains(rectangle: &Rectangle, point: Point) -> (inside: bool)
    requires
        rectangle.corner_fits(),
    ensures
        inside == rectangle.spec_contains(point),
{
    let outside = embedded_graphics::primitives::Rectangle::new(
        embedded_graphics::geometry::Point::new(rectangle.top_left.x, rectangle.top_left.y),
        embedded_graphics::geometry::Size::new(rectangle.size.width, rectangle.size.height),
    );
    outside.contains(embedded_graphics::geometry::Point::new(point.x, point.y))
}

} // verus!
