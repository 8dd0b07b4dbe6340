//! The ball: a circle with a velocity that walls and paddles send back.

use vstd::prelude::*;
use crate::game::geometry::{
    rectangle_bottom_right,
    rectangle_contains,
    Circle,
    Point,
    Rectangle,
    Size,
};
use crate::game::physics::{BouncableObject, MovingObject, TimeTick, Velocity};
use crate::game::game_objects::{GameObject, ScreenObject};
use crate::game::game_objects::paddle::Paddle;
use crate::game::game_objects::shape_list::{new_object_shapes, object_shapes, push_object_shape};

verus! {

/// The ball, given by its centre, its radius and its velocity. `has_moved`
/// tells the renderer that the ball has to be drawn again.
#[derive(Clone, Copy, Debug, PartialEq, Eq, Structural)]
pub struct Ball {
    pub position: Point,
    pub radius: u32,
    pub velocity: Velocity,
    pub has_moved: bool,
}

impl Default for Ball {
    /// A resting ball of radius one in the top-left corner.
    fn default() -> (ball: Self)
        ensures
            ball == (Ball {
                position: Point { x: 0, y: 0 },
                radius: 1,
                velocity: Velocity { vx: 0, vy: 0 },
                has_moved: false,
            }),
    {
        Ball {
            position: Point { x: 0, y: 0 },
            radius: 1,
            velocity: Velocity { vx: 0, vy: 0 },
            has_moved: false,
        }
    }
}

/// The row in which a ball ends up that was headed for `row`. The walls are
/// the top and the bottom edge of `screen`. From the one edge to the other
/// the ball ends up in `row` itself; past an edge it ends up as far inside
/// that edge as `row` lies beyond it.
pub open spec fn reflected_row(screen: Rectangle, row: int) -> int {
    if row < screen.top() {
        screen.top() + (screen.top() - row)
    } else if row > screen.bottom() {
        screen.bottom() - (row - screen.bottom())
    } else {
        row
    }
}

/// A ball headed for `row` goes past the top or the bottom edge of `screen`.
pub open spec fn passes_wall(screen: Rectangle, row: int) -> bool {
    row < screen.top() || row > screen.bottom()
}

impl Ball {
    /// The top-left and the bottom-right pixel of the bounding box are both
    /// inside `field`. The box reaches `radius` pixels up and left of the
    /// centre and is `2 * radius` pixels wide and high.
    pub open spec fn lies_within(&self, field: Rectangle) -> bool {
        field.holds_corners(
            self.position.x - self.radius,
            self.position.y - self.radius,
            2 * self.radius,
            2 * self.radius,
        )
    }

    /// The one circle a ball is drawn as.
    pub open spec fn shape(&self) -> ScreenObject {
        ScreenObject::Circle(
            Circle { top_left: self.covering_box().top_left, diameter: (2 * self.radius) as u32 },
        )
    }

    /// The paddle that the ball is moving towards: the left one while `vx`
    /// is negative, the right one otherwise.
    pub open spec fn paddle_ahead(&self, left_paddle: Paddle, right_paddle: Paddle) -> Paddle {
        if self.velocity.vx < 0 {
            left_paddle
        } else {
            right_paddle
        }
    }

    /// The centre of the ball is a pixel of the paddle's bounding box.
    pub open spec fn touches(&self, paddle: Paddle) -> bool {
        paddle.covering_box().spec_contains(self.position)
    }

    /// The ball with `vy` negated.
    pub open spec fn turned_vertically(&self) -> Ball {
        Ball {
            velocity: Velocity { vx: self.velocity.vx, vy: (-self.velocity.vy) as i32 },
            ..*self
        }
    }

    /// The ball with `vx` negated.
    pub open spec fn turned_horizontally(&self) -> Ball {
        Ball {
            velocity: Velocity { vx: (-self.velocity.vx) as i32, vy: self.velocity.vy },
            ..*self
        }
    }

    /// The left player has let the ball through: its centre is left of the
    /// left edge of `screen`.
    pub fn left_player_has_lost_ball(&self, screen: &Rectangle) -> (lost: bool)
        ensures
            lost == (self.position.x < screen.left()),
    {
        self.position.x < screen.top_left.x
    }

    /// The right player has let the ball through: its centre is right of the
    /// right edge of `screen`.
    pub fn right_player_has_lost_ball(&self, screen: &Rectangle) -> (lost: bool)
        ensures
            lost == (self.position.x > screen.right()),
    {
        self.position.x as i64 > screen.top_left.x as i64 + screen.size.width as i64
    }

    /// Moves to `new_postion`; a ball that went past the top edge is put as
    /// far below it as it went above, and turned round.
    fn bounce_against_top_wall(&mut self, screen: &Rectangle, new_postion: &Point)
        requires
            new_postion.y < screen.top() ==> {
                &&& screen.top() + (screen.top() - new_postion.y) <= i32::MAX
                &&& old(self).velocity.vy > i32::MIN
            },
        ensures
            final(self).position.x == new_postion.x,
            final(self).position.y == if new_postion.y < screen.top() {
                screen.top() + (screen.top() - new_postion.y)
            } else {
                new_postion.y as int
            },
            final(self).velocity.vy == if new_postion.y < screen.top() {
                -old(self).velocity.vy
            } else {
                old(self).velocity.vy as int
            },
            final(self).velocity.vx == old(self).velocity.vx,
            final(self).radius == old(self).radius,
            final(self).has_moved == old(self).has_moved,
    {
        let top_overshoot: i64 = screen.top_left.y as i64 - new_postion.y as i64;
        self.position = *new_postion;
        if top_overshoot > 0 {
            let new_height: i64 = screen.top_left.y as i64 + top_overshoot;  // y grows downward
            self.position.y = new_height as i32;
            self.invert_vertical_velocity();
        }
    }

    /// Moves to the column of `new_postion`; a ball that was headed past the
    /// bottom edge is put as far above it as it went below, and turned round.
    /// A ball that was not keeps its row: the row of `new_postion`, or the
    /// one the top edge sent it back to, is for the top wall to set.
    fn bounce_against_bottom_wall(&mut self, screen: &Rectangle, new_postion: &Point)
        requires
            new_postion.y > screen.bottom() ==> {
                &&& i32::MIN <= screen.bottom() - (new_postion.y - screen.bottom())
                &&& old(self).velocity.vy > i32::MIN
            },
        ensures
            final(self).position.x == new_postion.x,
            final(self).position.y == if new_postion.y > screen.bottom() {
                screen.bottom() - (new_postion.y - screen.bottom())
            } else {
                old(self).position.y as int
            },
            final(self).velocity.vy == if new_postion.y > screen.bottom() {
                -old(self).velocity.vy
            } else {
                old(self).velocity.vy as int
            },
            final(self).velocity.vx == old(self).velocity.vx,
            final(self).radius == old(self).radius,
            final(self).has_moved == old(self).has_moved,
    {
        let bottom: i64 = screen.top_left.y as i64 + screen.size.height as i64;
        let bottom_overshoot: i64 = new_postion.y as i64 - bottom;
        self.position.x = new_postion.x;
        if bottom_overshoot > 0 {
            let new_height: i64 = bottom - bottom_overshoot;
            self.position.y = new_height as i32;
            self.invert_vertical_velocity();
        }
    }

    /// Negates `vy`.
    fn invert_vertical_velocity(&mut self)
        requires
            old(self).velocity.vy > i32::MIN,
        ensures
            *final(self) == old(self).turned_vertically(),
    {
        self.velocity.vy = -self.velocity.vy;
    }

    /// Negates `vx`.
    fn invert_horizontal_velocity(&mut self)
        requires
            old(self).velocity.vx > i32::MIN,
        ensures
            *final(self) == old(self).turned_horizontally(),
    {
        self.velocity.vx = -self.velocity.vx;
    }

    /// The product of a velocity component and the time step.
    pub(crate) fn scaled(component: i32, time_step: u32) -> (product: i64)
        ensures
            product == component * time_step,
    {
        assert(-0x8000_0000 * 0xffff_ffff <= component * time_step <= 0x7fff_ffff * 0xffff_ffff)
            by (nonlinear_arith)
            requires
                -0x8000_0000 <= component <= 0x7fff_ffff,
                0 <= time_step <= 0xffff_ffff,
        ;
        component as i64 * time_step as i64
    }

    /// Whether the centre of the ball is a pixel of the paddle's box.
    fn has_hit_paddle(&self, paddle: &Paddle) -> (hit: bool)
        requires
            paddle.covering_box().corner_fits(),
        ensures
            hit == self.touches(*paddle),
    {
        let paddle_area = paddle.get_box_covering_object();
        rectangle_contains(&paddle_area, self.position)
    }
}

impl GameObject for Ball {
    /// The radius fits in `i32` and the top-left pixel of the box does not
    /// lie below `i32::MIN` on either axis.
    open spec fn box_fits(&self) -> bool {
        &&& self.radius <= i32::MAX
        &&& self.position.x - self.radius >= i32::MIN
        &&& self.position.y - self.radius >= i32::MIN
    }

    open spec fn covering_box(&self) -> Rectangle {
        Rectangle {
            top_left: Point {
                x: (self.position.x - self.radius) as i32,
                y: (self.position.y - self.radius) as i32,
            },
            size: Size { width: (2 * self.radius) as u32, height: (2 * self.radius) as u32 },
        }
    }

    open spec fn shapes(&self) -> Seq<ScreenObject> {
        seq![self.shape()]
    }

    open spec fn moved_to(&self, pos: Point) -> Self {
        Ball { position: pos, ..*self }
    }

    fn set_position(&self, pos: Point) -> (moved: Self)
        ensures
            moved == (Ball { position: pos, ..*self }),
    {
        Self {
            position: pos,
            radius: self.radius,
            velocity: self.velocity,
            has_moved: self.has_moved,
        }
    }

    fn as_shapes(&self) -> (shapes: heapless::Vec<ScreenObject, 2>)
        ensures
            object_shapes(shapes).len() == 1,
            object_shapes(shapes)[0] matches ScreenObject::Circle(circle) && {
                &&& circle.top_left.x == self.position.x - self.radius
                &&& circle.top_left.y == self.position.y - self.radius
                &&& circle.diameter == 2 * self.radius
            },
    {
        let covering = self.get_box_covering_object();
        let mut shapes = new_object_shapes();
        let pushed = push_object_shape(
            &mut shapes,
            ScreenObject::Circle(Circle { top_left: covering.top_left, diameter: self.radius * 2 }),
        );
        pushed.unwrap();
        shapes
    }

    fn get_box_covering_object(&self) -> (covering: Rectangle)
        ensures
            covering.top_left.x == self.position.x - self.radius,
            covering.top_left.y == self.position.y - self.radius,
            covering.size.width == 2 * self.radius,
            covering.size.height == 2 * self.radius,
    {
        let top_left = Point {
            x: self.position.x - self.radius as i32,
            y: self.position.y - self.radius as i32,
        };
        let diameter: u32 = self.radius * 2;
        Rectangle { top_left, size: Size { width: diameter, height: diameter } }
    }

    fn is_within(&self, rectange: &Rectangle) -> (within: bool)
        ensures
            within == self.lies_within(*rectange),
    {
        let box_covering_object = self.get_box_covering_object();
        let far_corner = rectangle_bottom_right(&box_covering_object).unwrap();
        rectangle_contains(rectange, box_covering_object.top_left) && rectangle_contains(
            rectange,
            far_corner,
        )
    }
}

impl BouncableObject for Ball {
    /// The row the ball ends up in is within `i32`, and a ball that is
    /// turned round has a `vy` that can be negated.
    open spec fn can_bounce_off_walls(&self, screen: Rectangle, new_position: Point) -> bool {
        &&& i32::MIN <= reflected_row(screen, new_position.y as int) <= i32::MAX
        &&& passes_wall(screen, new_position.y as int) ==> self.velocity.vy > i32::MIN
    }

    /// The ball in the column of `new_position` and in the row that
    /// `reflected_row` gives; `vy` is negated where the ball went past a
    /// wall, and `vx` is as it was.
    open spec fn bounced_off_walls(&self, screen: Rectangle, new_position: Point) -> Self {
        let landed = Ball {
            position: Point {
                x: new_position.x,
                y: reflected_row(screen, new_position.y as int) as i32,
            },
            ..*self
        };
        if passes_wall(screen, new_position.y as int) {
            landed.turned_vertically()
        } else {
            landed
        }
    }

    /// The box of the paddle ahead has a far corner within `i32`, and a ball
    /// that touches that paddle has a `vx` that can be negated.
    open spec fn can_bounce_off_paddles(&self, left_paddle: Paddle, right_paddle: Paddle) -> bool {
        let ahead = self.paddle_ahead(left_paddle, right_paddle);
        &&& ahead.covering_box().corner_fits()
        &&& self.touches(ahead) ==> self.velocity.vx > i32::MIN
    }

    /// The ball with `vx` negated if its centre is a pixel of the paddle
    /// ahead, and unchanged otherwise.
    open spec fn bounced_off_paddles(&self, left_paddle: Paddle, right_paddle: Paddle) -> Self {
        if self.touches(self.paddle_ahead(left_paddle, right_paddle)) {
            self.turned_horizontally()
        } else {
            *self
        }
    }

    fn bounce_aginst_walls(&mut self, screen: &Rectangle, new_position: &Point)
        ensures
            final(self).position.x == new_position.x,
            final(self).position.y == reflected_row(*screen, new_position.y as int),
            final(self).velocity.vx == old(self).velocity.vx,
            final(self).velocity.vy == if passes_wall(*screen, new_position.y as int) {
                -old(self).velocity.vy
            } else {
                old(self).velocity.vy as int
            },
            final(self).radius == old(self).radius,
            final(self).has_moved == old(self).has_moved,
    {
        self.bounce_against_top_wall(screen, new_position);
        self.bounce_against_bottom_wall(screen, new_position);
    }

    fn bounce_against_paddles(&mut self, left_paddle: &Paddle, right_padde: &Paddle)
        ensures
            final(self).velocity.vx == if old(self).touches(
                old(self).paddle_ahead(*left_paddle, *right_padde),
            ) {
                -old(self).velocity.vx
            } else {
                old(self).velocity.vx as int
            },
            final(self).velocity.vy == old(self).velocity.vy,
            final(self).position == old(self).position,
            final(self).radius == old(self).radius,
            final(self).has_moved == old(self).has_moved,
    {
        let moving_towards_left_paddle = self.velocity.vx < 0;

        let has_collided = match moving_towards_left_paddle {
            true => self.has_hit_paddle(left_paddle),
            false => self.has_hit_paddle(right_padde),
        };
        if has_collided {
            self.invert_horizontal_velocity();
        }
    }
}

impl MovingObject for Ball {
    open spec fn spec_velocity(&self) -> Velocity {
        self.velocity
    }

    fn get_velocity(&self) -> (velocity: Velocity)
        ensures
            velocity == self.velocity,
    {
        self.velocity
    }

    fn get_relative_movement(&self, time: &TimeTick) -> (movement: Point)
        ensures
            movement.x == self.velocity.vx * time.time_step,
            movement.y == self.velocity.vy * time.time_step,
    {
        let velocity = self.get_velocity();
        let dx: i64 = Self::scaled(velocity.vx, time.time_step);
        let dy: i64 = Self::scaled(velocity.vy, time.time_step);
        Point { x: dx as i32, y: dy as i32 }
    }
}

} // verus!
