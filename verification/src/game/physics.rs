//! The vocabulary of movement: velocities, the tick configuration and the
//! two interfaces of things that move and bounce.

use vstd::prelude::*;
use crate::game::geometry::{Point, Rectangle};
use crate::game::game_objects::paddle::Paddle;

verus! {

/// Displacement per unit of time, seen from the moving object. A negative
/// `vx` heads for the left paddle, a negative `vy` for the top wall.
#[derive(Clone, Copy, Debug, PartialEq, Eq, Structural)]
pub struct Velocity {
    pub vx: i32,
    pub vy: i32,
}

impl Velocity {
    /// Both components can be negated within `i32`.
    pub open spec fn reversible(&self) -> bool {
        self.vx > i32::MIN && self.vy > i32::MIN
    }
}

/// What is fixed for a round: how far a paddle goes in one tick, how far the
/// ball is meant to go at most, and the factor that turns a velocity into the
/// displacement of one tick.
#[derive(Clone, Copy, Debug, PartialEq, Eq, Structural)]
pub struct TimeTick {
    pub max_paddle_movement: u32,
    pub max_ball_movement: u32,
    pub time_step: u32,
}

impl Default for TimeTick {
    /// A configuration of zeros: nothing moves until it is replaced.
    fn default() -> (tick: Self)
        ensures
            tick == (TimeTick { max_paddle_movement: 0, max_ball_movement: 0, time_step: 0 }),
    {
        TimeTick { max_paddle_movement: 0, max_ball_movement: 0, time_step: 0 }
    }
}

/// Something that walls and paddles send back.
pub trait BouncableObject: Sized {
    /// The reflection off the walls of `screen` can be computed for a move to
    /// `new_position` without leaving `i32`.
    spec fn can_bounce_off_walls(&self, screen: Rectangle, new_position: Point) -> bool;

    /// The object after a move to `new_position`, sent back by the top or the
    /// bottom wall of `screen` where it went past one.
    spec fn bounced_off_walls(&self, screen: Rectangle, new_position: Point) -> Self;

    /// The test against the paddles can be computed without leaving `i32`.
    spec fn can_bounce_off_paddles(&self, left_paddle: Paddle, right_paddle: Paddle) -> bool;

    /// The object after the paddle it heads for has sent it back, if it
    /// touches that paddle.
    spec fn bounced_off_paddles(&self, left_paddle: Paddle, right_paddle: Paddle) -> Self;

    /// Moves to `new_position` and reflects off the top or bottom wall.
    fn bounce_aginst_walls(&mut self, screen: &Rectangle, new_position: &Point)
        requires
            old(self).can_bounce_off_walls(*screen, *new_position),
        ensures
            *final(self) == old(self).bounced_off_walls(*screen, *new_position),
    ;

    /// Reflects off the paddle that the object is moving towards.
    fn bounce_against_paddles(&mut self, left_paddle: &Paddle, right_padde: &Paddle)
        requires
            old(self).can_bounce_off_paddles(*left_paddle, *right_padde),
        ensures
            *final(self) == old(self).bounced_off_paddles(*left_paddle, *right_padde),
    ;
}

/// Something with a velocity.
pub trait MovingObject {
    /// The velocity that `get_velocity` reports.
    spec fn spec_velocity(&self) -> Velocity;

    /// The displacement of one tick, `velocity * time_step` on each axis.
    fn get_relative_movement(&self, time: &TimeTick) -> (movement: Point)
        requires
            i32::MIN <= self.spec_velocity().vx * time.time_step <= i32::MAX,
            i32::MIN <= self.spec_velocity().vy * time.time_step <= i32::MAX,
        ensures
            movement.x == self.spec_velocity().vx * time.time_step,
            movement.y == self.spec_velocity().vy * time.time_step,
    ;

    /// The current velocity.
    fn get_velocity(&self) -> (velocity: Velocity)
        ensures
            velocity == self.spec_velocity(),
    ;
}

} // verus!
