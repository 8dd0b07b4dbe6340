//! What holds of the game across calls.
//!
//! The operations of [`Game`] say in their contracts which game they leave
//! behind, as a function of the game they found. The statements here are
//! about those functions, and so about every run of the operations.

use vstd::prelude::*;
use crate::game::geometry::{Point, Rectangle};
use crate::game::input::{InpuDirection, LeftRightPosition};
use crate::game::physics::BouncableObject;
use crate::game::game_objects::{Game, GameObject, GameOver, GameState, ScreenObject};
use crate::game::game_objects::ball::Ball;
use crate::game::game_objects::paddle::Paddle;

verus! {

/// For a box with pixels, to lie within a rectangle is to have both corners,
/// `top_left` and `top_left + size`, from the top-left to the bottom-right
/// corner of that rectangle.
///
/// The box has its top-left corner at column `x` and row `y` and is `width`
/// by `height` pixels large.
pub proof fn within_is_between_the_corners(
    field: Rectangle,
    x: int,
    y: int,
    width: int,
    height: int,
)
    requires
        width > 0,
        height > 0,
    ensures
        field.holds_corners(x, y, width, height) <==> {
            &&& field.left() <= x
            &&& field.top() <= y
            &&& x + width <= field.right()
            &&& y + height <= field.bottom()
        },
{
}

/// A wall sends the ball back by as much as it went past.
///
/// A ball headed for the row `overshoot` above the top edge of the screen
/// ends up `overshoot` rows below that edge; one headed for the row
/// `overshoot` below the bottom edge ends up `overshoot` rows above that
/// edge. Either way `vy` is negated, `vx` is kept, and the ball is in the
/// column it was headed for.
pub proof fn wall_reflection(ball: Ball, screen: Rectangle, new_position: Point, overshoot: int)
    requires
        ball.can_bounce_off_walls(screen, new_position),
        overshoot >= 1,
        new_position.y == screen.top() - overshoot || new_position.y == screen.bottom()
            + overshoot,
    ensures
        new_position.y == screen.top() - overshoot ==> ball.bounced_off_walls(
            screen,
            new_position,
        ).position.y == screen.top() + overshoot,
        new_position.y == screen.bottom() + overshoot ==> ball.bounced_off_walls(
            screen,
            new_position,
        ).position.y == screen.bottom() - overshoot,
        ball.bounced_off_walls(screen, new_position).velocity.vy == -ball.velocity.vy,
        ball.bounced_off_walls(screen, new_position).velocity.vx == ball.velocity.vx,
        ball.bounced_off_walls(screen, new_position).position.x == new_position.x,
{
}

/// A ball between the walls, or on one, is not sent back: it is where it was
/// headed, with the velocity it had.
pub proof fn no_reflection_between_walls(ball: Ball, screen: Rectangle, new_position: Point)
    requires
        screen.top() <= new_position.y <= screen.bottom(),
    ensures
        ball.bounced_off_walls(screen, new_position) == ball.moved_to(new_position),
{
}

/// In play, too, a wall sends the ball back by as much as it went past.
///
/// If the ball is headed for the row `overshoot` above the top edge of the
/// field, the tick leaves it `overshoot` rows below that edge; if it is
/// headed for the row `overshoot` below the bottom edge, the tick leaves it
/// `overshoot` rows above that edge. Either way `vy` is negated. No paddle
/// changes the row or `vy`.
pub proof fn wall_reflection_in_play(game: Game, overshoot: int)
    requires
        game.wf(),
        game.ball_move_fits(),
        overshoot >= 1,
        game.ball_target().y == game.screen().top() - overshoot || game.ball_target().y
            == game.screen().bottom() + overshoot,
    ensures
        game.ball_target().y == game.screen().top() - overshoot ==> game.moved_ball().position.y
            == game.screen().top() + overshoot,
        game.ball_target().y == game.screen().bottom() + overshoot
            ==> game.moved_ball().position.y == game.screen().bottom() - overshoot,
        game.moved_ball().velocity.vy == -game.ball.velocity.vy,
        game.moved_ball().position.x == game.ball_target().x,
{
}

/// A ball that takes small steps never gets away from the field.
///
/// If the centre of the ball is on the field, from edge to edge, if one tick
/// carries it no farther up or down than the field is high, and if the
/// position it is headed for is within `i32`, then the move of the tick fits,
/// the ball is again between the top and the bottom edge afterwards, and,
/// while the round goes on, it is again on the field.
pub proof fn small_steps_keep_the_ball_on_the_field(game: Game)
    requires
        game.wf(),
        game.screen().left() <= game.ball.position.x <= game.screen().right(),
        game.screen().top() <= game.ball.position.y <= game.screen().bottom(),
        -game.y_pixels <= game.ball.velocity.vy * game.time_tick.time_step <= game.y_pixels,
        game.ball.position.y + game.ball.velocity.vy * game.time_tick.time_step <= i32::MAX,
        i32::MIN <= game.ball.velocity.vx * game.time_tick.time_step,
        game.ball.position.x + game.ball.velocity.vx * game.time_tick.time_step <= i32::MAX,
    ensures
        game.ball_move_fits(),
        game.screen().top() <= game.moved_ball().position.y <= game.screen().bottom(),
        game.screen().left() <= game.after_ball_move().ball.position.x <= game.screen().right(),
        game.screen().top() <= game.after_ball_move().ball.position.y <= game.screen().bottom(),
{
}

/// The paddle ahead sends back a ball whose centre is on it.
///
/// A ball that heads left with its centre on a pixel of the left paddle, or
/// right with its centre on a pixel of the right paddle, has `vx` negated.
/// Its `vy`, its position, its radius and its flag are as they were.
pub proof fn paddle_reflection_of_the_ball(ball: Ball, left_paddle: Paddle, right_paddle: Paddle)
    requires
        ball.can_bounce_off_paddles(left_paddle, right_paddle),
        (ball.velocity.vx < 0 && ball.touches(left_paddle)) || (ball.velocity.vx > 0
            && ball.touches(right_paddle)),
    ensures
        ball.bounced_off_paddles(left_paddle, right_paddle).velocity.vx == -ball.velocity.vx,
        ball.bounced_off_paddles(left_paddle, right_paddle).velocity.vy == ball.velocity.vy,
        ball.bounced_off_paddles(left_paddle, right_paddle).position == ball.position,
        ball.bounced_off_paddles(left_paddle, right_paddle).radius == ball.radius,
        ball.bounced_off_paddles(left_paddle, right_paddle).has_moved == ball.has_moved,
{
}

/// A paddle sends back the ball that comes at it, and the round goes on.
///
/// If the ball, once the walls have dealt with it, has its centre on the
/// paddle it is moving towards, then after the tick `vx` is negated, `vy`
/// and the position are what the walls left, and the tick does not end the
/// round.
pub proof fn paddle_reflection(game: Game)
    requires
        game.wf(),
        game.ball_move_fits(),
        ({
            let landed = game.ball.bounced_off_walls(game.screen(), game.ball_target());
            landed.touches(landed.paddle_ahead(game.left_paddle, game.right_paddle))
        }),
    ensures
        game.moved_ball().velocity.vx == -game.ball.velocity.vx,
        game.moved_ball().velocity.vy == game.ball.bounced_off_walls(
            game.screen(),
            game.ball_target(),
        ).velocity.vy,
        game.moved_ball().position == game.ball.bounced_off_walls(
            game.screen(),
            game.ball_target(),
        ).position,
        game.state_after_ball_move() is Ongoing,
        game.after_ball_move().ball == game.moved_ball(),
{
}

/// A ball that touches no paddle keeps its `vx`.
pub proof fn no_reflection_off_paddles(game: Game)
    requires
        ({
            let landed = game.ball.bounced_off_walls(game.screen(), game.ball_target());
            !landed.touches(landed.paddle_ahead(game.left_paddle, game.right_paddle))
        }),
    ensures
        game.moved_ball().velocity.vx == game.ball.velocity.vx,
{
}

/// A round ends exactly when the ball has left the field sideways, and then
/// for one player only.
///
/// With `x` the column of the ball after the tick: left of the left edge the
/// right player wins, right of the right edge the left player wins, and the
/// field cannot be left on both sides at once. From the one edge to the other
/// the round goes on.
/// Only a round that goes on changes the game, and then only the ball.
pub proof fn round_over(game: Game)
    ensures
        game.moved_ball().position.x < game.screen().left() <==> game.state_after_ball_move()
            == GameState::Finished(GameOver::RightWins),
        game.moved_ball().position.x > game.screen().right() <==> game.state_after_ball_move()
            == GameState::Finished(GameOver::LeftWins),
        !(game.moved_ball().position.x < game.screen().left() && game.moved_ball().position.x
            > game.screen().right()),
        game.state_after_ball_move() is Finished ==> game.after_ball_move() == game,
        game.state_after_ball_move() is Ongoing ==> game.after_ball_move() == (Game {
            ball: game.moved_ball(),
            ..game
        }),
{
}

/// The game after `count` equal requests to move the paddle on `side`.
pub open spec fn after_paddle_moves(
    game: Game,
    side: LeftRightPosition,
    direction: InpuDirection,
    count: nat,
) -> Game
    decreases count,
{
    if count == 0 {
        game
    } else {
        after_paddle_moves(game, side, direction, (count - 1) as nat).after_move_paddle(
            side,
            direction,
        )
    }
}

/// A request that would take the paddle out of the field changes nothing,
/// however often it is made.
pub proof fn rejected_paddle_moves_change_nothing(
    game: Game,
    side: LeftRightPosition,
    direction: InpuDirection,
    count: nat,
)
    requires
        !game.accepts_paddle_move(side, direction),
    ensures
        after_paddle_moves(game, side, direction, count) == game,
    decreases count,
{
    if count > 0 {
        rejected_paddle_moves_change_nothing(game, side, direction, (count - 1) as nat);
    }
}

/// A request that keeps the paddle within the field moves it by exactly the
/// signed step and flags it as moved; its column and size, the other paddle
/// and the ball are as they were, and the paddle still lies within the field.
pub proof fn accepted_paddle_move_takes_the_step(
    game: Game,
    side: LeftRightPosition,
    direction: InpuDirection,
)
    requires
        game.wf(),
        game.accepts_paddle_move(side, direction),
    ensures
        ({
            let before = game.paddle(side);
            let after = game.after_move_paddle(side, direction).paddle(side);
            &&& after.top_left_pos.y == before.top_left_pos.y + game.paddle_step(direction)
            &&& after.top_left_pos.x == before.top_left_pos.x
            &&& after.x_size == before.x_size
            &&& after.y_size == before.y_size
            &&& after.has_moved
            &&& after.lies_within(game.screen())
        }),
        game.after_move_paddle(side, direction) == game.with_paddle(
            side,
            game.after_move_paddle(side, direction).paddle(side),
        ),
{
}

/// Once the flags are taken off, nothing counts as moved; and after one
/// change of position, exactly the shapes of the object that changed do.
///
/// `game` is any game; the statements are about `game.after_reset()`, the
/// game right after `reset_position_update_indicators`. A change that is
/// refused leaves nothing flagged.
pub proof fn moved_content_after_one_change(
    game: Game,
    side: LeftRightPosition,
    direction: InpuDirection,
    position: Point,
)
    ensures
        game.after_reset().moved_content() == Seq::<ScreenObject>::empty(),
        ({
            let after = game.after_reset().after_move_paddle(side, direction);
            after.moved_content() == if game.after_reset().accepts_paddle_move(side, direction) {
                after.paddle(side).shapes()
            } else {
                Seq::empty()
            }
        }),
        ({
            let after = game.after_reset().after_set_paddle_position(side, position);
            after.moved_content() == if game.after_reset().accepts_paddle_at(side, position) {
                after.paddle(side).shapes()
            } else {
                Seq::empty()
            }
        }),
        ({
            let after = game.after_reset().after_set_ball_position(position);
            after.moved_content() == if game.after_reset().accepts_ball_at(position) {
                after.ball.shapes()
            } else {
                Seq::empty()
            }
        }),
        ({
            let after = game.after_reset().after_ball_move();
            after.moved_content() == if game.after_reset().state_after_ball_move() is Ongoing {
                after.ball.shapes()
            } else {
                Seq::empty()
            }
        }),
        ({
            let after = game.after_reset().after_new_game();
            after.moved_content() == after.ball.shapes()
        }),
{
}

/// To take the flags off changes no position, size or velocity, and so no
/// answer to whether a change is accepted.
pub proof fn reset_keeps_the_board(
    game: Game,
    side: LeftRightPosition,
    direction: InpuDirection,
    position: Point,
)
    ensures
        game.after_reset().content() == game.content(),
        game.after_reset().accepts_paddle_move(side, direction) == game.accepts_paddle_move(
            side,
            direction,
        ),
        game.after_reset().accepts_paddle_at(side, position) == game.accepts_paddle_at(
            side,
            position,
        ),
        game.after_reset().accepts_ball_at(position) == game.accepts_ball_at(position),
        game.after_reset().state_after_ball_move() == game.state_after_ball_move(),
        game.after_reset().wf() == game.wf(),
{
}

/// A new round after a finished one puts the ball at its start with the
/// initial velocity and leaves the paddles alone.
///
/// `game` is the game before the tick that ended the round.
pub proof fn round_reset(game: Game)
    requires
        game.state_after_ball_move() is Finished,
    ensures
        ({
            let restarted = game.after_ball_move().after_new_game();
            &&& restarted.ball.position == Game::ball_start()
            &&& restarted.ball.velocity == game.initial_ball_velocity
            &&& restarted.ball.radius == game.ball.radius
            &&& restarted.left_paddle == game.left_paddle
            &&& restarted.right_paddle == game.right_paddle
            &&& restarted.initial_ball_velocity == game.initial_ball_velocity
            &&& restarted.time_tick == game.time_tick
        }),
{
}

/// A well-formed game stays well formed, whatever is done to it: the paddles
/// never leave the field, and what the operations rely on keeps holding. The
/// ball may only be moved by a tick while its move fits.
pub proof fn well_formed_games_stay_well_formed(
    game: Game,
    side: LeftRightPosition,
    direction: InpuDirection,
    position: Point,
)
    requires
        game.wf(),
    ensures
        game.after_move_paddle(side, direction).wf(),
        game.after_set_paddle_position(side, position).wf(),
        game.after_set_ball_position(position).wf(),
        game.ball_move_fits() ==> game.after_ball_move().wf(),
        game.after_new_game().wf(),
        game.after_reset().wf(),
{
}

} // verus!
