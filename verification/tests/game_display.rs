use pong::game::game_objects::{Game, GameBuilder, GameState, ScreenObject};
use pong::game::geometry::{Circle, Point, Rectangle, Size};
use pong::game::input::{InpuDirection, LeftRightPosition};
use pong::game::physics::{TimeTick, Velocity};

fn game_in_play() -> Game {
    let mut game = GameBuilder::new(160, 128)
        .ball_radius(3)
        .paddle_size(Size { width: 6, height: 40 })
        .time_tick(TimeTick { max_paddle_movement: 5, max_ball_movement: 5, time_step: 1 })
        .initial_ball_velocity(Velocity { vx: 1, vy: 1 })
        .build();
    assert!(game.is_well_formed());
    assert_eq!(game.set_left_paddle_position(Point { x: 0, y: 44 }), Point { x: 0, y: 44 });
    assert_eq!(game.set_right_paddle_position(Point { x: 154, y: 44 }), Point { x: 154, y: 44 });
    assert_eq!(game.set_ball_position(Point { x: 80, y: 64 }), Point { x: 80, y: 64 });
    game
}

fn paddle_shape(x: i32, y: i32) -> ScreenObject {
    ScreenObject::Rectangle(Rectangle {
        top_left: Point { x, y },
        size: Size { width: 6, height: 40 },
    })
}

fn ball_shape(x: i32, y: i32) -> ScreenObject {
    ScreenObject::Circle(Circle { top_left: Point { x: x - 3, y: y - 3 }, diameter: 6 })
}

#[test]
fn content_is_left_paddle_right_paddle_ball() {
    let mut game = game_in_play();
    let before = game;
    let content = game.get_content_to_display();
    assert_eq!(content.len(), 3);
    assert_eq!(content[0], paddle_shape(0, 44));
    assert_eq!(content[1], paddle_shape(154, 44));
    assert_eq!(content[2], ball_shape(80, 64));
    assert_eq!(game, before);
}

#[test]
fn content_does_not_depend_on_the_flags() {
    let mut game = game_in_play();
    let flagged = game.get_content_to_display();
    game.reset_position_update_indicators();
    let plain = game.get_content_to_display();
    assert_eq!(flagged, plain);
}

#[test]
fn content_of_the_default_game() {
    let mut game = Game::builder().build();
    let content = game.get_content_to_display();
    assert_eq!(content.len(), 3);
    let pixel = ScreenObject::Rectangle(Rectangle {
        top_left: Point { x: 0, y: 0 },
        size: Size { width: 1, height: 1 },
    });
    assert_eq!(content[0], pixel);
    assert_eq!(content[1], pixel);
    assert_eq!(
        content[2],
        ScreenObject::Circle(Circle { top_left: Point { x: -1, y: -1 }, diameter: 2 })
    );
}

#[test]
fn everything_placed_counts_as_moved_ball_first() {
    let mut game = game_in_play();
    let before = game;
    let moved = game.get_moved_content();
    assert_eq!(moved.len(), 3);
    assert_eq!(moved[0], ball_shape(80, 64));
    assert_eq!(moved[1], paddle_shape(154, 44));
    assert_eq!(moved[2], paddle_shape(0, 44));
    assert_eq!(game, before);
}

#[test]
fn nothing_counts_as_moved_after_the_reset() {
    let mut game = game_in_play();
    game.reset_position_update_indicators();
    assert!(!game.ball.has_moved);
    assert!(!game.left_paddle.has_moved);
    assert!(!game.right_paddle.has_moved);
    assert!(game.get_moved_content().is_empty());
    // positions are as they were
    assert_eq!(game.ball.position, Point { x: 80, y: 64 });
    assert_eq!(game.left_paddle.top_left_pos, Point { x: 0, y: 44 });
    assert_eq!(game.right_paddle.top_left_pos, Point { x: 154, y: 44 });
}

#[test]
fn moved_paddle_alone_counts_as_moved() {
    let mut game = game_in_play();
    game.reset_position_update_indicators();
    game.move_paddle(LeftRightPosition::Left, InpuDirection::Down);
    let moved = game.get_moved_content();
    assert_eq!(moved.len(), 1);
    assert_eq!(moved[0], paddle_shape(0, 49));

    game.reset_position_update_indicators();
    game.move_paddle(LeftRightPosition::Right, InpuDirection::Up);
    let moved = game.get_moved_content();
    assert_eq!(moved.len(), 1);
    assert_eq!(moved[0], paddle_shape(154, 39));
}

#[test]
fn refused_paddle_move_flags_nothing() {
    let mut game = game_in_play();
    assert_eq!(game.set_left_paddle_position(Point { x: 0, y: 88 }), Point { x: 0, y: 88 });
    game.reset_position_update_indicators();
    game.move_paddle(LeftRightPosition::Left, InpuDirection::Down);
    game.move_paddle(LeftRightPosition::Right, InpuDirection::Stay);
    assert!(game.get_moved_content().is_empty());
}

#[test]
fn placed_objects_count_as_moved() {
    let mut game = game_in_play();
    game.reset_position_update_indicators();
    assert_eq!(game.set_ball_position(Point { x: 20, y: 30 }), Point { x: 20, y: 30 });
    let moved = game.get_moved_content();
    assert_eq!(moved.len(), 1);
    assert_eq!(moved[0], ball_shape(20, 30));

    game.reset_position_update_indicators();
    assert_eq!(game.set_right_paddle_position(Point { x: 100, y: 10 }), Point { x: 100, y: 10 });
    let moved = game.get_moved_content();
    assert_eq!(moved.len(), 1);
    assert_eq!(moved[0], paddle_shape(100, 10));

    game.reset_position_update_indicators();
    assert_eq!(game.set_ball_position(Point { x: 1, y: 1 }), Point { x: 20, y: 30 });
    assert_eq!(game.set_left_paddle_position(Point { x: 0, y: 200 }), Point { x: 0, y: 44 });
    assert!(game.get_moved_content().is_empty());
}

#[test]
fn ball_in_play_alone_counts_as_moved() {
    let mut game = game_in_play();
    game.reset_position_update_indicators();
    assert!(game.ball_can_move());
    assert_eq!(game.let_ball_move(), GameState::Ongoing);
    let moved = game.get_moved_content();
    assert_eq!(moved.len(), 1);
    assert_eq!(moved[0], ball_shape(81, 65));
}

#[test]
fn new_round_counts_the_ball_as_moved() {
    let mut game = game_in_play();
    game.reset_position_update_indicators();
    game.start_new_game();
    let moved = game.get_moved_content();
    assert_eq!(moved.len(), 1);
    assert_eq!(moved[0], ball_shape(50, 50));
}

#[test]
fn ball_and_paddle_moved_in_one_frame() {
    let mut game = game_in_play();
    game.reset_position_update_indicators();
    game.move_paddle(LeftRightPosition::Left, InpuDirection::Up);
    assert!(game.ball_can_move());
    assert_eq!(game.let_ball_move(), GameState::Ongoing);
    let moved = game.get_moved_content();
    assert_eq!(moved.len(), 2);
    assert_eq!(moved[0], ball_shape(81, 65));
    assert_eq!(moved[1], paddle_shape(0, 39));
}
