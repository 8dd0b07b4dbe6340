//! The paddle: a rectangle that a player moves up and down.

use vstd::prelude::*;
use crate::game::geometry::{rectangle_bottom_right, rectangle_contains, Point, Rectangle, Size};
use crate::game::game_objects::{GameObject, ScreenObject};
use crate::game::game_objects::shape_list::{new_object_shapes, object_shapes, push_object_shape};

verus! {

/// A paddle, given by its top-left pixel and its size. `has_moved` tells the
/// renderer that the paddle has to be drawn again.
#[derive(Clone, Copy, Debug, PartialEq, Eq, Structural)]
pub struct Paddle {
    pub top_left_pos: Point,
    pub x_size: u32,
    pub y_size: u32,
    pub has_moved: bool,
}

impl Default for Paddle {
    /// A paddle of one pixel in the top-left corner.
    fn default() -> (paddle: Self)
        ensures
            paddle == (Paddle {
                top_left_pos: Point { x: 0, y: 0 },
                x_size: 1,
                y_size: 1,
                has_moved: false,
            }),
    {
        Paddle { top_left_pos: Point { x: 0, y: 0 }, y_size: 1, x_size: 1, has_moved: false }
    }
}

impl Paddle {
    /// The paddle, were its top-left pixel at column `x` and row `y`, would
    /// have both corner pixels inside `field`.
    pub open spec fn fits_at(&self, x: int, y: int, field: Rectangle) -> bool {
        field.holds_corners(x, y, self.x_size as int, self.y_size as int)
    }

    /// Both corner pixels of the paddle are inside `field`.
    pub open spec fn lies_within(&self, field: Rectangle) -> bool {
        self.fits_at(self.top_left_pos.x as int, self.top_left_pos.y as int, field)
    }

    /// The one rectangle a paddle is drawn as.
    pub open spec fn shape(&self) -> ScreenObject {
        ScreenObject::Rectangle(self.covering_box())
    }
}

impl GameObject for Paddle {
    open spec fn box_fits(&self) -> bool {
        true
    }

    open spec fn covering_box(&self) -> Rectangle {
        Rectangle {
            top_left: self.top_left_pos,
            size: Size { width: self.x_size, height: self.y_size },
        }
    }

    open spec fn shapes(&self) -> Seq<ScreenObject> {
        seq![self.shape()]
    }

    open spec fn moved_to(&self, pos: Point) -> Self {
        Paddle { top_left_pos: pos, ..*self }
    }

    fn set_position(&self, pos: Point) -> (moved: Self)
        ensures
            moved == (Paddle { top_left_pos: pos, ..*self }),
    {
        Self {
            top_left_pos: pos,
            y_size: self.y_size,
            x_size: self.x_size,
            has_moved: self.has_moved,
        }
    }

    fn as_shapes(&self) -> (shapes: heapless::Vec<ScreenObject, 2>)
        ensures
            object_shapes(shapes) == seq![
                ScreenObject::Rectangle(
                    Rectangle {
                        top_left: self.top_left_pos,
                        size: Size { width: self.x_size, height: self.y_size },
                    },
                ),
            ],
    {
        let mut shapes = new_object_shapes();
        let pushed = push_object_shape(
            &mut shapes,
            ScreenObject::Rectangle(
                Rectangle {
                    top_left: self.top_left_pos,
                    size: Size { width: self.x_size, height: self.y_size },
                },
            ),
        );
        pushed.unwrap();
        shapes
    }

    fn get_box_covering_object(&self) -> (covering: Rectangle)
        ensures
            covering == (Rectangle {
                top_left: self.top_left_pos,
                size: Size { width: self.x_size, height: self.y_size },
            }),
    {
        Rectangle {
            top_left: self.top_left_pos,
            size: Size { width: self.x_size, height: self.y_size },
        }
    }

    fn is_within(&self, rectange: &Rectangle) -> (within: bool)
        ensures
            within == self.lies_within(*rectange),
    {
        let box_covering_object = self.get_box_covering_object();
        let far_corner = rectangle_bottom_right(&box_covering_object).unwrap();
        rectangle_contains(rectange, box_covering_object.top_left) && rectangle_contains(
            rectange,
            far_corner,
        )
    }
}

} // verus!
