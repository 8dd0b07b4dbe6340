//! The objects on the field, the shapes they are drawn as, and the game that
//! owns them.

pub mod shape_list;
pub mod paddle;
pub mod ball;

use vstd::prelude::*;
use crate::game::geometry::{Circle, Point, Rectangle, Size};
use crate::game::input::{InpuDirection, LeftRightPosition};
use crate::game::physics::{BouncableObject, MovingObject, TimeTick, Velocity};
use crate::game::game_objects::ball::{reflected_row, Ball};
use crate::game::game_objects::paddle::Paddle;
use crate::game::game_objects::shape_list::{
    extend_frame_shapes,
    frame_shapes,
    new_frame_shapes,
    object_shapes,
};

verus! {

/// What the renderer is handed: a filled rectangle or a filled circle.
#[derive(Clone, Copy, Debug, PartialEq, Eq, Structural)]
pub enum ScreenObject {
    Rectangle(Rectangle),
    Circle(Circle),
}

/// How a round ended.
#[derive(Clone, Copy, Debug, PartialEq, Eq, Structural)]
pub enum GameOver {
    LeftWins,
    RightWins,
}

/// What a tick leaves behind: a round that goes on, or one that is over.
#[derive(Clone, Copy, Debug, PartialEq, Eq, Structural)]
pub enum GameState {
    Ongoing,
    Finished(GameOver),
}

/// What paddles and the ball have in common: a position, a bounding box, and
/// shapes to be drawn as.
pub trait GameObject: Sized {
    /// The bounding box can be written down with `i32` coordinates and a
    /// `u32` size.
    spec fn box_fits(&self) -> bool;

    /// The smallest axis-aligned rectangle around the object.
    spec fn covering_box(&self) -> Rectangle;

    /// The shapes the object is drawn as.
    spec fn shapes(&self) -> Seq<ScreenObject>;

    /// The object at another position, everything else as it was.
    spec fn moved_to(&self, pos: Point) -> Self;

    /// A copy of the object at `pos`. The moved flag is copied, not set: to
    /// flag the move is up to the caller.
    fn set_position(&self, pos: Point) -> (moved: Self)
        ensures
            moved == self.moved_to(pos),
    ;

    /// The object as shapes for the renderer.
    fn as_shapes(&self) -> (shapes: heapless::Vec<ScreenObject, 2>)
        requires
            self.box_fits(),
        ensures
            object_shapes(shapes) == self.shapes(),
    ;

    /// The bounding box of the object.
    fn get_box_covering_object(&self) -> (covering: Rectangle)
        requires
            self.box_fits(),
        ensures
            covering == self.covering_box(),
    ;

    /// Whether the top-left and the bottom-right pixel of the bounding box
    /// both belong to `rectange`. The pixels in between are not looked at.
    ///
    /// The box must have pixels, and its far corner and that of `rectange`
    /// must fit in `i32`.
    fn is_within(&self, rectange: &Rectangle) -> (within: bool)
        requires
            self.box_fits(),
            !self.covering_box().is_empty(),
            self.covering_box().corner_fits(),
            rectange.corner_fits(),
        ensures
            within == rectange.holds_corners(
                self.covering_box().left(),
                self.covering_box().top(),
                self.covering_box().size.width as int,
                self.covering_box().size.height as int,
            ),
    ;
}

/// A borrowed paddle or ball: what the bookkeeping of moves has to reach in
/// every object, whatever its kind.
enum DrawableGameOject<'a> {
    Paddle(&'a mut Paddle),
    Ball(&'a mut Ball),
}

impl<'a> DrawableGameOject<'a> {
    /// The object is flagged as moved.
    spec fn moved(&self) -> bool {
        match *self {
            DrawableGameOject::Paddle(paddle) => paddle.has_moved,
            DrawableGameOject::Ball(ball) => ball.has_moved,
        }
    }

    /// The shapes can be written down: always for a paddle, and for a ball
    /// if its box can.
    spec fn drawable(&self) -> bool {
        match *self {
            DrawableGameOject::Paddle(paddle) => true,
            DrawableGameOject::Ball(ball) => ball.box_fits(),
        }
    }

    /// The shapes the object is drawn as.
    spec fn shapes(&self) -> Seq<ScreenObject> {
        match *self {
            DrawableGameOject::Paddle(paddle) => paddle.shapes(),
            DrawableGameOject::Ball(ball) => ball.shapes(),
        }
    }

    /// Sets the moved flag of the borrowed object and nothing else.
    fn set_moved_status(&mut self, new_status: bool)
        ensures
            match (*old(self), *final(self)) {
                (DrawableGameOject::Paddle(before), DrawableGameOject::Paddle(after)) => {
                    &&& *after == (Paddle { has_moved: new_status, ..*before })
                    &&& *final(after) == *final(before)
                },
                (DrawableGameOject::Ball(before), DrawableGameOject::Ball(after)) => {
                    &&& *after == (Ball { has_moved: new_status, ..*before })
                    &&& *final(after) == *final(before)
                },
                _ => false,
            },
    {
        match self {
            DrawableGameOject::Ball(ball) => {
                ball.has_moved = new_status;
            },
            DrawableGameOject::Paddle(paddle) => {
                paddle.has_moved = new_status;
            },
        }
    }

    /// The moved flag of the borrowed object.
    fn get_moved_status(&self) -> (moved: bool)
        ensures
            moved == self.moved(),
    {
        match self {
            DrawableGameOject::Ball(ball) => ball.has_moved,
            DrawableGameOject::Paddle(paddle) => paddle.has_moved,
        }
    }

    /// The borrowed object as shapes for the renderer.
    fn as_shapes(&self) -> (shapes: heapless::Vec<ScreenObject, 2>)
        requires
            self.drawable(),
        ensures
            object_shapes(shapes) == self.shapes(),
    {
        match self {
            DrawableGameOject::Ball(ball) => ball.as_shapes(),
            DrawableGameOject::Paddle(paddle) => paddle.as_shapes(),
        }
    }
}

/// The column in which the ball starts a round.
pub const BALL_START_X: i32 = 50;

/// The row in which the ball starts a round.
pub const BALL_START_Y: i32 = 50;

/// A game: two paddles, a ball, the size of the field, and what is fixed for
/// a round. The field has its top-left pixel at the origin.
#[derive(Clone, Copy, Debug, PartialEq, Eq, Structural)]
pub struct Game {
    pub left_paddle: Paddle,
    pub right_paddle: Paddle,
    pub x_pixels: u32,
    pub y_pixels: u32,
    pub ball: Ball,
    pub time_tick: TimeTick,
    pub initial_ball_velocity: Velocity,
}

impl Game {
    /// The field: `x_pixels` by `y_pixels` pixels from the origin.
    pub open spec fn screen(&self) -> Rectangle {
        Rectangle {
            top_left: Point { x: 0, y: 0 },
            size: Size { width: self.x_pixels, height: self.y_pixels },
        }
    }

    /// What every operation of a game relies on and keeps: the field has
    /// pixels and fits in `i32`; both paddles lie within the field; the box
    /// of the ball can be written down; and the velocities can be negated.
    pub open spec fn wf(&self) -> bool {
        &&& 1 <= self.x_pixels <= i32::MAX
        &&& 1 <= self.y_pixels <= i32::MAX
        &&& self.left_paddle.lies_within(self.screen())
        &&& self.right_paddle.lies_within(self.screen())
        &&& self.ball.box_fits()
        &&& self.ball.velocity.reversible()
        &&& self.initial_ball_velocity.reversible()
    }

    /// The paddle on `side`.
    pub open spec fn paddle(&self, side: LeftRightPosition) -> Paddle {
        match side {
            LeftRightPosition::Left => self.left_paddle,
            LeftRightPosition::Right => self.right_paddle,
        }
    }

    /// The game with `paddle` on `side`.
    pub open spec fn with_paddle(&self, side: LeftRightPosition, paddle: Paddle) -> Game {
        match side {
            LeftRightPosition::Left => Game { left_paddle: paddle, ..*self },
            LeftRightPosition::Right => Game { right_paddle: paddle, ..*self },
        }
    }

    /// The rows by which a request moves a paddle: up is towards row zero.
    pub open spec fn paddle_step(&self, direction: InpuDirection) -> int {
        match direction {
            InpuDirection::Up => -(self.time_tick.max_paddle_movement as int),
            InpuDirection::Down => self.time_tick.max_paddle_movement as int,
            InpuDirection::Stay => 0,
        }
    }

    /// The request moves the paddle: it asks for a move, and the paddle
    /// shifted by the whole step still lies within the field.
    pub open spec fn accepts_paddle_move(
        &self,
        side: LeftRightPosition,
        direction: InpuDirection,
    ) -> bool {
        let paddle = self.paddle(side);
        &&& direction != InpuDirection::Stay
        &&& paddle.fits_at(
            paddle.top_left_pos.x as int,
            paddle.top_left_pos.y + self.paddle_step(direction),
            self.screen(),
        )
    }

    /// The game after `move_paddle`: an accepted request shifts the paddle by
    /// the whole step and flags it as moved; any other changes nothing.
    pub open spec fn after_move_paddle(
        &self,
        side: LeftRightPosition,
        direction: InpuDirection,
    ) -> Game {
        let paddle = self.paddle(side);
        if self.accepts_paddle_move(side, direction) {
            self.with_paddle(
                side,
                Paddle {
                    top_left_pos: Point {
                        x: paddle.top_left_pos.x,
                        y: (paddle.top_left_pos.y + self.paddle_step(direction)) as i32,
                    },
                    has_moved: true,
                    ..paddle
                },
            )
        } else {
            *self
        }
    }

    /// The paddle on `side` can be put at `top_left_pos`: that is another
    /// place, and the paddle lies within the field there.
    pub open spec fn accepts_paddle_at(
        &self,
        side: LeftRightPosition,
        top_left_pos: Point,
    ) -> bool {
        &&& top_left_pos != self.paddle(side).top_left_pos
        &&& self.paddle(side).moved_to(top_left_pos).lies_within(self.screen())
    }

    /// The game after a paddle was set to a position: if accepted, the paddle
    /// is there and flagged as moved; if not, nothing has changed.
    pub open spec fn after_set_paddle_position(
        &self,
        side: LeftRightPosition,
        top_left_pos: Point,
    ) -> Game {
        if self.accepts_paddle_at(side, top_left_pos) {
            self.with_paddle(side, Paddle { top_left_pos, has_moved: true, ..self.paddle(side) })
        } else {
            *self
        }
    }

    /// The ball can be put at `position`: that is another place, and the
    /// ball lies within the field there.
    pub open spec fn accepts_ball_at(&self, position: Point) -> bool {
        &&& position != self.ball.position
        &&& self.ball.moved_to(position).lies_within(self.screen())
    }

    /// The game after the ball was set to a position: if accepted, the ball
    /// is there and flagged as moved; if not, nothing has changed.
    pub open spec fn after_set_ball_position(&self, position: Point) -> Game {
        if self.accepts_ball_at(position) {
            Game { ball: Ball { position, has_moved: true, ..self.ball }, ..*self }
        } else {
            *self
        }
    }

    /// Where the ball is headed in this tick: its position plus its velocity
    /// times the time step.
    pub open spec fn ball_target(&self) -> Point {
        Point {
            x: (self.ball.position.x + self.ball.velocity.vx * self.time_tick.time_step) as i32,
            y: (self.ball.position.y + self.ball.velocity.vy * self.time_tick.time_step) as i32,
        }
    }

    /// The move of the ball in this tick stays within `i32`: the
    /// displacement, the position it is headed for, and the row it ends up
    /// in with room for its box above.
    pub open spec fn ball_move_fits(&self) -> bool {
        let dx = self.ball.velocity.vx * self.time_tick.time_step;
        let dy = self.ball.velocity.vy * self.time_tick.time_step;
        &&& i32::MIN <= dx <= i32::MAX
        &&& i32::MIN <= dy <= i32::MAX
        &&& i32::MIN <= self.ball.position.x + dx <= i32::MAX
        &&& i32::MIN <= self.ball.position.y + dy <= i32::MAX
        &&& i32::MIN + self.ball.radius <= reflected_row(self.screen(), self.ball.position.y + dy)
            <= i32::MAX
    }

    /// The ball after this tick: moved to where it was headed, sent back by
    /// a wall, then by the paddle ahead, and flagged as moved.
    pub open spec fn moved_ball(&self) -> Ball {
        Ball {
            has_moved: true,
            ..self.ball.bounced_off_walls(self.screen(), self.ball_target()).bounced_off_paddles(
                self.left_paddle,
                self.right_paddle,
            )
        }
    }

    /// How the tick ends: the right player wins a ball that is left of the
    /// left edge of the field, the left player one that is right of the
    /// right edge, and otherwise the round goes on.
    pub open spec fn state_after_ball_move(&self) -> GameState {
        let x = self.moved_ball().position.x;
        if x < self.screen().left() {
            GameState::Finished(GameOver::RightWins)
        } else if x > self.screen().right() {
            GameState::Finished(GameOver::LeftWins)
        } else {
            GameState::Ongoing
        }
    }

    /// The game after `let_ball_move`: while the round goes on, the moved
    /// ball takes the place of the ball; a round that is over leaves the
    /// game as it was.
    pub open spec fn after_ball_move(&self) -> Game {
        if self.state_after_ball_move() is Ongoing {
            Game { ball: self.moved_ball(), ..*self }
        } else {
            *self
        }
    }

    /// Where the ball starts a round.
    pub open spec fn ball_start() -> Point {
        Point { x: BALL_START_X, y: BALL_START_Y }
    }

    /// The game after `start_new_game`: the ball is at its start, has the
    /// initial velocity and is flagged as moved.
    pub open spec fn after_new_game(&self) -> Game {
        Game {
            ball: Ball {
                position: Self::ball_start(),
                velocity: self.initial_ball_velocity,
                has_moved: true,
                ..self.ball
            },
            ..*self
        }
    }

    /// The game with no object flagged as moved.
    pub open spec fn after_reset(&self) -> Game {
        Game {
            left_paddle: Paddle { has_moved: false, ..self.left_paddle },
            right_paddle: Paddle { has_moved: false, ..self.right_paddle },
            ball: Ball { has_moved: false, ..self.ball },
            ..*self
        }
    }

    /// All shapes of a frame: the left paddle, the right paddle, the ball.
    pub open spec fn content(&self) -> Seq<ScreenObject> {
        self.left_paddle.shapes() + self.right_paddle.shapes() + self.ball.shapes()
    }

    /// The shapes of the objects that are flagged as moved: the ball, the
    /// right paddle, the left paddle, each only if flagged.
    pub open spec fn moved_content(&self) -> Seq<ScreenObject> {
        (if self.ball.has_moved {
            self.ball.shapes()
        } else {
            Seq::empty()
        }) + (if self.right_paddle.has_moved {
            self.right_paddle.shapes()
        } else {
            Seq::empty()
        }) + (if self.left_paddle.has_moved {
            self.left_paddle.shapes()
        } else {
            Seq::empty()
        })
    }

    /// A builder with the default objects and an empty field.
    pub fn builder() -> (builder: GameBuilder)
        ensures
            builder == GameBuilder::spec_default(),
    {
        GameBuilder::default()
    }

    /// Whether the board is valid. No rule is enforced yet: every board is.
    pub fn valid_board(&self) -> (valid: bool)
        ensures
            valid,
    {
        true
    }

    /// Whether the game is well formed, for callers that cannot prove it.
    pub fn is_well_formed(&self) -> (well_formed: bool)
        ensures
            well_formed == self.wf(),
    {
        if self.x_pixels < 1 || self.x_pixels > 0x7fff_ffff {
            return false;
        }
        if self.y_pixels < 1 || self.y_pixels > 0x7fff_ffff {
            return false;
        }
        let screen = self.get_screen_dimensions();
        if !Self::paddle_can_be_tested(&self.left_paddle) || !self.left_paddle.is_within(&screen) {
            return false;
        }
        if !Self::paddle_can_be_tested(&self.right_paddle) || !self.right_paddle.is_within(
            &screen,
        ) {
            return false;
        }
        if self.ball.radius > 0x7fff_ffff {
            return false;
        }
        let radius: i64 = self.ball.radius as i64;
        if (self.ball.position.x as i64) - radius < i32::MIN as i64 {
            return false;
        }
        if (self.ball.position.y as i64) - radius < i32::MIN as i64 {
            return false;
        }
        self.ball.velocity.vx > i32::MIN && self.ball.velocity.vy > i32::MIN
            && self.initial_ball_velocity.vx > i32::MIN && self.initial_ball_velocity.vy
            > i32::MIN
    }

    /// The field as a rectangle.
    pub fn get_screen_dimensions(&self) -> (screen: Rectangle)
        ensures
            screen == self.screen(),
    {
        Rectangle {
            top_left: Point { x: 0, y: 0 },
            size: Size { width: self.x_pixels, height: self.y_pixels },
        }
    }

    /// The shapes of everything on the field, for a full redraw.
    pub fn get_content_to_display(&mut self) -> (all_shapes: heapless::Vec<ScreenObject, 8>)
        requires
            old(self).ball.box_fits(),
        ensures
            frame_shapes(all_shapes) == old(self).content(),
            *final(self) == *old(self),
    {
        let mut all_shapes = new_frame_shapes();
        let left = self.left_paddle.as_shapes();
        extend_frame_shapes(&mut all_shapes, &left);
        let right = self.right_paddle.as_shapes();
        extend_frame_shapes(&mut all_shapes, &right);
        let ball = self.ball.as_shapes();
        extend_frame_shapes(&mut all_shapes, &ball);
        all_shapes
    }

    /// The three objects on the field, borrowed for the bookkeeping of moves:
    /// the ball, the right paddle, the left paddle. What is done to them is
    /// done to the game.
    ///
    /// They come as a tuple. In a `heapless::Vec` the borrows would be out of
    /// the verifier's sight: it could not tell that they have ended once the
    /// list is dropped, and so not what the game is afterwards.
    fn on_screen_objects(&mut self) -> (objects: (
        DrawableGameOject<'_>,
        DrawableGameOject<'_>,
        DrawableGameOject<'_>,
    ))
        ensures
            match objects {
                (
                    DrawableGameOject::Ball(ball),
                    DrawableGameOject::Paddle(right_paddle),
                    DrawableGameOject::Paddle(left_paddle),
                ) => {
                    &&& *ball == old(self).ball
                    &&& *right_paddle == old(self).right_paddle
                    &&& *left_paddle == old(self).left_paddle
                    &&& *final(self) == (Game {
                        ball: *final(ball),
                        right_paddle: *final(right_paddle),
                        left_paddle: *final(left_paddle),
                        ..*old(self)
                    })
                },
                _ => false,
            },
    {
        (
            DrawableGameOject::Ball(&mut self.ball),
            DrawableGameOject::Paddle(&mut self.right_paddle),
            DrawableGameOject::Paddle(&mut self.left_paddle),
        )
    }

    /// Takes the moved flag off every object. To be called once the moved
    /// shapes of a frame have been drawn.
    pub fn reset_position_update_indicators(&mut self)
        ensures
            *final(self) == old(self).after_reset(),
            old(self).wf() ==> final(self).wf(),
    {
        let (mut ball, mut right_paddle, mut left_paddle) = self.on_screen_objects();
        ball.set_moved_status(false);
        right_paddle.set_moved_status(false);
        left_paddle.set_moved_status(false);
    }

    /// The shapes of the objects that have moved since the flags were last
    /// taken off.
    pub fn get_moved_content(&mut self) -> (moved_shapes: heapless::Vec<ScreenObject, 8>)
        requires
            old(self).ball.has_moved ==> old(self).ball.box_fits(),
        ensures
            frame_shapes(moved_shapes) == old(self).moved_content(),
            *final(self) == *old(self),
    {
        let mut moved_shapes = new_frame_shapes();
        let (ball, right_paddle, left_paddle) = self.on_screen_objects();
        if ball.get_moved_status() {
            let shapes = ball.as_shapes();
            extend_frame_shapes(&mut moved_shapes, &shapes);
        }
        if right_paddle.get_moved_status() {
            let shapes = right_paddle.as_shapes();
            extend_frame_shapes(&mut moved_shapes, &shapes);
        }
        if left_paddle.get_moved_status() {
            let shapes = left_paddle.as_shapes();
            extend_frame_shapes(&mut moved_shapes, &shapes);
        }
        moved_shapes
    }
}

impl Game {
    /// Puts the ball at `position` if that is another place and the ball
    /// lies within the field there, and flags it as moved; otherwise leaves
    /// the ball where it is. Returns where the ball is afterwards.
    pub fn set_ball_position(&mut self, position: Point) -> (now_at: Point)
        requires
            old(self).wf(),
        ensures
            *final(self) == old(self).after_set_ball_position(position),
            now_at == final(self).ball.position,
            final(self).wf(),
    {
        if position != self.ball.position {
            let moved_ball = Ball {
                position,
                radius: self.ball.radius,
                velocity: self.ball.velocity,
                has_moved: true,
            };
            let screen = self.get_screen_dimensions();
            if Self::ball_can_be_tested(&moved_ball) && moved_ball.is_within(&screen) {
                self.ball = moved_ball;
            }
        }
        self.ball.position
    }

    /// Puts the left paddle at `top_left_pos` if that is another place and
    /// the paddle lies within the field there, and flags it as moved;
    /// otherwise leaves the paddle where it is. Returns where the paddle is
    /// afterwards.
    pub fn set_left_paddle_position(&mut self, top_left_pos: Point) -> (now_at: Point)
        requires
            old(self).wf(),
        ensures
            *final(self) == old(self).after_set_paddle_position(
                LeftRightPosition::Left,
                top_left_pos,
            ),
            now_at == final(self).left_paddle.top_left_pos,
            final(self).wf(),
    {
        if top_left_pos != self.left_paddle.top_left_pos {
            let moved_paddle = Paddle {
                top_left_pos,
                x_size: self.left_paddle.x_size,
                y_size: self.left_paddle.y_size,
                has_moved: true,
            };
            let screen = self.get_screen_dimensions();
            if Self::paddle_can_be_tested(&moved_paddle) && moved_paddle.is_within(&screen) {
                self.left_paddle = moved_paddle;
            }
        }
        self.left_paddle.top_left_pos
    }

    /// Puts the right paddle at `top_left_pos` if that is another place and
    /// the paddle lies within the field there, and flags it as moved;
    /// otherwise leaves the paddle where it is. Returns where the paddle is
    /// afterwards.
    pub fn set_right_paddle_position(&mut self, top_left_pos: Point) -> (now_at: Point)
        requires
            old(self).wf(),
        ensures
            *final(self) == old(self).after_set_paddle_position(
                LeftRightPosition::Right,
                top_left_pos,
            ),
            now_at == final(self).right_paddle.top_left_pos,
            final(self).wf(),
    {
        if top_left_pos != self.right_paddle.top_left_pos {
            let moved_paddle = Paddle {
                top_left_pos,
                x_size: self.right_paddle.x_size,
                y_size: self.right_paddle.y_size,
                has_moved: true,
            };
            let screen = self.get_screen_dimensions();
            if Self::paddle_can_be_tested(&moved_paddle) && moved_paddle.is_within(&screen) {
                self.right_paddle = moved_paddle;
            }
        }
        self.right_paddle.top_left_pos
    }

    /// Moves the paddle on `side` by one step of `max_paddle_movement` rows
    /// up or down. The step is taken whole or not at all: a paddle that
    /// would not lie within the field afterwards stays where it is. A paddle
    /// that has taken the step is flagged as moved. `Stay` changes nothing.
    pub fn move_paddle(&mut self, side: LeftRightPosition, direction: InpuDirection)
        requires
            old(self).wf(),
        ensures
            *final(self) == old(self).after_move_paddle(side, direction),
            final(self).wf(),
    {
        let step: i64 = match direction {
            InpuDirection::Up => -(self.time_tick.max_paddle_movement as i64),
            InpuDirection::Down => self.time_tick.max_paddle_movement as i64,
            InpuDirection::Stay => {
                return ;
            },
        };
        let paddle = match side {
            LeftRightPosition::Left => self.left_paddle,
            LeftRightPosition::Right => self.right_paddle,
        };
        let new_row: i64 = paddle.top_left_pos.y as i64 + step;
        if new_row < i32::MIN as i64 || new_row > i32::MAX as i64 {
            return ;
        }
        let candidate = Paddle {
            top_left_pos: Point { x: paddle.top_left_pos.x, y: new_row as i32 },
            x_size: paddle.x_size,
            y_size: paddle.y_size,
            has_moved: true,
        };
        let screen = self.get_screen_dimensions();
        if Self::paddle_can_be_tested(&candidate) && candidate.is_within(&screen) {
            match side {
                LeftRightPosition::Left => {
                    self.left_paddle = candidate;
                },
                LeftRightPosition::Right => {
                    self.right_paddle = candidate;
                },
            }
        }
    }

    /// Whether the ball can make its move of this tick within `i32`, for
    /// callers that cannot prove it.
    pub fn ball_can_move(&self) -> (fits: bool)
        ensures
            fits == self.ball_move_fits(),
    {
        let limit_low: i64 = i32::MIN as i64;
        let limit_high: i64 = i32::MAX as i64;
        let dx: i64 = Ball::scaled(self.ball.velocity.vx, self.time_tick.time_step);
        let dy: i64 = Ball::scaled(self.ball.velocity.vy, self.time_tick.time_step);
        if dx < limit_low || dx > limit_high || dy < limit_low || dy > limit_high {
            return false;
        }
        let column: i64 = self.ball.position.x as i64 + dx;
        let row: i64 = self.ball.position.y as i64 + dy;
        if column < limit_low || column > limit_high || row < limit_low || row > limit_high {
            return false;
        }
        let bottom: i64 = self.y_pixels as i64;
        let landed: i64 = if row < 0 {
            0 - row
        } else if row > bottom {
            bottom - (row - bottom)
        } else {
            row
        };
        limit_low + self.ball.radius as i64 <= landed && landed <= limit_high
    }

    /// Advances the ball by one tick. The ball moves by its velocity times
    /// the time step; the top and the bottom wall send it back, then the
    /// paddle it is heading for does if the centre of the ball is on it. A
    /// ball that ends up left of the left edge of the field gives the round
    /// to the right player, one right of the right edge to the left player;
    /// the game is then left as it was, for `start_new_game` to reset.
    /// Otherwise the moved ball, flagged as moved, becomes the ball of the
    /// game.
    pub fn let_ball_move(&mut self) -> (state: GameState)
        requires
            old(self).wf(),
            old(self).ball_move_fits(),
        ensures
            state == old(self).state_after_ball_move(),
            *final(self) == old(self).after_ball_move(),
            final(self).wf(),
    {
        let screen = self.get_screen_dimensions();
        let movement = self.ball.get_relative_movement(&self.time_tick);
        let new_position = Point {
            x: self.ball.position.x + movement.x,
            y: self.ball.position.y + movement.y,
        };
        let mut ball = self.ball;
        ball.bounce_aginst_walls(&screen, &new_position);
        ball.bounce_against_paddles(&self.left_paddle, &self.right_paddle);
        ball.has_moved = true;
        if ball.left_player_has_lost_ball(&screen) {
            GameState::Finished(GameOver::RightWins)
        } else if ball.right_player_has_lost_ball(&screen) {
            GameState::Finished(GameOver::LeftWins)
        } else {
            self.ball = ball;
            GameState::Ongoing
        }
    }

    /// Starts a round: the ball goes to its start with the initial velocity
    /// and is flagged as moved. The paddles stay where they are.
    pub fn start_new_game(&mut self)
        ensures
            *final(self) == old(self).after_new_game(),
            old(self).wf() ==> final(self).wf(),
    {
        self.ball = Ball {
            position: Point { x: BALL_START_X, y: BALL_START_Y },
            radius: self.ball.radius,
            velocity: self.initial_ball_velocity,
            has_moved: true,
        };
    }

    /// Whether `is_within` can be asked of the ball: its box has pixels and
    /// both corners of the box fit in `i32`.
    fn ball_can_be_tested(ball: &Ball) -> (fits: bool)
        ensures
            fits == (ball.box_fits() && !ball.covering_box().is_empty()
                && ball.covering_box().corner_fits()),
    {
        let low: i64 = i32::MIN as i64;
        let high: i64 = i32::MAX as i64;
        let radius: i64 = ball.radius as i64;
        let x: i64 = ball.position.x as i64;
        let y: i64 = ball.position.y as i64;
        1 <= radius && 2 * radius <= high && low <= x - radius && low <= y - radius && x + radius
            <= high && y + radius <= high
    }

    /// Whether `is_within` can be asked of the paddle: its box has pixels
    /// and the far corner of the box fits in `i32`.
    fn paddle_can_be_tested(paddle: &Paddle) -> (fits: bool)
        ensures
            fits == (!paddle.covering_box().is_empty() && paddle.covering_box().corner_fits()),
    {
        let high: i64 = i32::MAX as i64;
        let width: i64 = paddle.x_size as i64;
        let height: i64 = paddle.y_size as i64;
        1 <= width && width <= high && 1 <= height && height <= high
            && paddle.top_left_pos.x as i64 + width <= high && paddle.top_left_pos.y as i64
            + height <= high
    }
}

/// Collects what a game is made of. Nothing is validated: whether the game
/// that comes out is well formed is for `Game::is_well_formed` to say.
#[derive(Clone, Copy, Debug, PartialEq, Eq, Structural)]
pub struct GameBuilder {
    pub left_paddle: Paddle,
    pub right_paddle: Paddle,
    pub ball: Ball,
    pub x_pixels: u32,
    pub y_pixels: u32,
    pub time_tick: TimeTick,
    pub initial_ball_velocity: Velocity,
}

impl GameBuilder {
    /// The builder that `default` returns: one-pixel paddles and a resting
    /// ball of radius one in the top-left corner, an empty field, and a tick
    /// configuration of zeros.
    pub open spec fn spec_default() -> GameBuilder {
        GameBuilder {
            left_paddle: Paddle {
                top_left_pos: Point { x: 0, y: 0 },
                x_size: 1,
                y_size: 1,
                has_moved: false,
            },
            right_paddle: Paddle {
                top_left_pos: Point { x: 0, y: 0 },
                x_size: 1,
                y_size: 1,
                has_moved: false,
            },
            ball: Ball {
                position: Point { x: 0, y: 0 },
                radius: 1,
                velocity: Velocity { vx: 0, vy: 0 },
                has_moved: false,
            },
            x_pixels: 0,
            y_pixels: 0,
            time_tick: TimeTick { max_paddle_movement: 0, max_ball_movement: 0, time_step: 0 },
            initial_ball_velocity: Velocity { vx: 0, vy: 0 },
        }
    }
}

impl GameBuilder {
    /// A builder for a field of `x_size` by `y_size` pixels, with everything
    /// else at its default.
    pub fn new(x_size: u32, y_size: u32) -> (builder: GameBuilder)
        ensures
            builder == (GameBuilder {
                x_pixels: x_size,
                y_pixels: y_size,
                ..GameBuilder::spec_default()
            }),
    {
        let mut gamebuilder = GameBuilder::default();
        gamebuilder.x_pixels = x_size;
        gamebuilder.y_pixels = y_size;
        gamebuilder
    }

    /// The same builder with a ball of the given radius, flagged as moved.
    pub fn ball_radius(&self, radius: u32) -> (builder: GameBuilder)
        ensures
            builder == (GameBuilder {
                ball: Ball { radius, has_moved: true, ..self.ball },
                ..*self
            }),
    {
        GameBuilder {
            left_paddle: self.left_paddle,
            right_paddle: self.right_paddle,
            ball: Ball {
                position: self.ball.position,
                radius,
                velocity: self.ball.velocity,
                has_moved: true,
            },
            x_pixels: self.x_pixels,
            y_pixels: self.y_pixels,
            time_tick: self.time_tick,
            initial_ball_velocity: self.initial_ball_velocity,
        }
    }

    /// The same builder with both paddles of the given size, flagged as
    /// moved.
    pub fn paddle_size(&self, size: Size) -> (builder: GameBuilder)
        ensures
            builder == (GameBuilder {
                left_paddle: Paddle {
                    x_size: size.width,
                    y_size: size.height,
                    has_moved: true,
                    ..self.left_paddle
                },
                right_paddle: Paddle {
                    x_size: size.width,
                    y_size: size.height,
                    has_moved: true,
                    ..self.right_paddle
                },
                ..*self
            }),
    {
        GameBuilder {
            left_paddle: Paddle {
                top_left_pos: self.left_paddle.top_left_pos,
                x_size: size.width,
                y_size: size.height,
                has_moved: true,
            },
            right_paddle: Paddle {
                top_left_pos: self.right_paddle.top_left_pos,
                x_size: size.width,
                y_size: size.height,
                has_moved: true,
            },
            ball: self.ball,
            x_pixels: self.x_pixels,
            y_pixels: self.y_pixels,
            time_tick: self.time_tick,
            initial_ball_velocity: self.initial_ball_velocity,
        }
    }

    /// The same builder with the given tick configuration.
    pub fn time_tick(&self, time_tick: TimeTick) -> (builder: GameBuilder)
        ensures
            builder == (GameBuilder { time_tick, ..*self }),
    {
        GameBuilder {
            left_paddle: self.left_paddle,
            right_paddle: self.right_paddle,
            ball: self.ball,
            x_pixels: self.x_pixels,
            y_pixels: self.y_pixels,
            time_tick,
            initial_ball_velocity: self.initial_ball_velocity,
        }
    }

    /// The same builder with the given velocity as that of the ball now and
    /// at the start of every round.
    pub fn initial_ball_velocity(&self, velocity: Velocity) -> (builder: GameBuilder)
        ensures
            builder == (GameBuilder {
                ball: Ball { velocity, ..self.ball },
                initial_ball_velocity: velocity,
                ..*self
            }),
    {
        GameBuilder {
            left_paddle: self.left_paddle,
            right_paddle: self.right_paddle,
            ball: Ball {
                position: self.ball.position,
                radius: self.ball.radius,
                velocity,
                has_moved: self.ball.has_moved,
            },
            x_pixels: self.x_pixels,
            y_pixels: self.y_pixels,
            time_tick: self.time_tick,
            initial_ball_velocity: velocity,
        }
    }

    /// The game that the builder describes, field by field.
    pub fn build(self) -> (game: Game)
        ensures
            game == (Game {
                left_paddle: self.left_paddle,
                right_paddle: self.right_paddle,
                x_pixels: self.x_pixels,
                y_pixels: self.y_pixels,
                ball: self.ball,
                time_tick: self.time_tick,
                initial_ball_velocity: self.initial_ball_velocity,
            }),
    {
        Game {
            left_paddle: self.left_paddle,
            right_paddle: self.right_paddle,
            x_pixels: self.x_pixels,
            y_pixels: self.y_pixels,
            ball: self.ball,
            time_tick: self.time_tick,
            initial_ball_velocity: self.initial_ball_velocity,
        }
    }
}

impl Default for GameBuilder {
    /// The default objects on an empty field.
    fn default() -> (builder: Self)
        ensures
            builder == GameBuilder::spec_default(),
    {
        GameBuilder {
            left_paddle: Paddle::default(),
            right_paddle: Paddle::default(),
            ball: Ball::default(),
            x_pixels: 0,
            y_pixels: 0,
            time_tick: TimeTick::default(),
            initial_ball_velocity: Velocity { vx: 0, vy: 0 },
        }
    }
}

} // verus!
