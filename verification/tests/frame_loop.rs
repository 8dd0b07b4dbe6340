use pong::game::game_objects::{Game, GameBuilder, GameOver, GameState, ScreenObject};
use pong::game::geometry::{Circle, Point, Rectangle, Size};
use pong::game::graphics::Graphics;
use pong::game::input::{
    direction_of, input_percentage, InpuDirection, LeftRightPosition, UserInteraction,
};
use pong::game::physics::{TimeTick, Velocity};

/// Players whose controls are stuck at a reading each.
struct StuckControls {
    left_millivolts: u16,
    right_millivolts: u16,
    asked: u32,
}

impl UserInteraction for StuckControls {
    fn get_input_direction(&mut self, user_position: LeftRightPosition) -> InpuDirection {
        self.asked += 1;
        let millivolts = match user_position {
            LeftRightPosition::Left => self.left_millivolts,
            LeftRightPosition::Right => self.right_millivolts,
        };
        direction_of(input_percentage(millivolts, 3300))
    }
}

/// A display that keeps what it was told to wipe out and to draw.
struct Recorder {
    cleared: Vec<Vec<ScreenObject>>,
    drawn: Vec<Vec<ScreenObject>>,
}

impl Graphics for Recorder {
    fn clear(&mut self, objects: &heapless::Vec<ScreenObject, 8>) {
        self.cleared.push(objects.iter().cloned().collect());
    }

    fn draw(&mut self, objects: &heapless::Vec<ScreenObject, 8>) {
        self.drawn.push(objects.iter().cloned().collect());
    }
}

fn paddle_shape(x: i32, y: i32) -> ScreenObject {
    ScreenObject::Rectangle(Rectangle {
        top_left: Point { x, y },
        size: Size { width: 6, height: 40 },
    })
}

fn ball_shape(x: i32, y: i32) -> ScreenObject {
    ScreenObject::Circle(Circle { top_left: Point { x: x - 3, y: y - 3 }, diameter: 6 })
}

fn board() -> Game {
    let game = GameBuilder::new(160, 128)
        .ball_radius(3)
        .paddle_size(Size { width: 6, height: 40 })
        .time_tick(TimeTick { max_paddle_movement: 5, max_ball_movement: 5, time_step: 1 })
        .initial_ball_velocity(Velocity { vx: 1, vy: 1 })
        .build();
    assert!(game.is_well_formed());
    game
}

/// One frame as a driver runs it: wipe out, draw, move the paddles, move the ball.
fn frame(
    game: &mut Game,
    display: &mut Recorder,
    controls: &mut StuckControls,
    on_screen: &mut heapless::Vec<ScreenObject, 8>,
) -> GameState {
    display.clear(on_screen);
    *on_screen = game.get_content_to_display();
    display.draw(on_screen);
    for side in [LeftRightPosition::Left, LeftRightPosition::Right] {
        let direction = controls.get_input_direction(side);
        game.move_paddle(side, direction);
    }
    assert!(game.ball_can_move());
    game.let_ball_move()
}

#[test]
fn frames_draw_what_the_game_holds() {
    let mut game = board();
    let mut display = Recorder { cleared: Vec::new(), drawn: Vec::new() };
    let mut controls = StuckControls { left_millivolts: 3000, right_millivolts: 1650, asked: 0 };
    let mut on_screen = game.get_content_to_display();
    game.start_new_game();

    assert_eq!(frame(&mut game, &mut display, &mut controls, &mut on_screen), GameState::Ongoing);
    assert_eq!(frame(&mut game, &mut display, &mut controls, &mut on_screen), GameState::Ongoing);

    assert_eq!(controls.asked, 4);
    // the first frame wipes out what was there before the round started
    assert_eq!(display.cleared[0], vec![paddle_shape(0, 0), paddle_shape(0, 0), ball_shape(0, 0)]);
    assert_eq!(display.drawn[0], vec![paddle_shape(0, 0), paddle_shape(0, 0), ball_shape(50, 50)]);
    // the second wipes out the first and shows the left paddle a step down
    assert_eq!(display.cleared[1], display.drawn[0]);
    assert_eq!(display.drawn[1], vec![paddle_shape(0, 5), paddle_shape(0, 0), ball_shape(51, 51)]);
    assert_eq!(game.left_paddle.top_left_pos, Point { x: 0, y: 10 });
    assert_eq!(game.right_paddle.top_left_pos, Point { x: 0, y: 0 });
    assert_eq!(game.ball.position, Point { x: 52, y: 52 });
}

#[test]
fn rounds_follow_each_other() {
    let mut game = board();
    let mut display = Recorder { cleared: Vec::new(), drawn: Vec::new() };
    let mut controls = StuckControls { left_millivolts: 0, right_millivolts: 3300, asked: 0 };
    let mut on_screen = game.get_content_to_display();
    game.start_new_game();

    // from (50, 50) with velocity (1, 1): the ball reaches the bottom edge, row 128,
    // and is turned round by the tick after; the right edge is crossed in the 111th
    // tick, and nothing is in the way
    let mut ticks = 0;
    let winner = loop {
        ticks += 1;
        match frame(&mut game, &mut display, &mut controls, &mut on_screen) {
            GameState::Ongoing => assert!(ticks < 1000),
            GameState::Finished(winner) => break winner,
        }
    };
    assert_eq!(winner, GameOver::LeftWins);
    assert_eq!(ticks, 111);
    assert_eq!(game.ball.position, Point { x: 160, y: 96 });
    assert_eq!(game.ball.velocity, Velocity { vx: 1, vy: -1 });
    // the right paddle went down as far as it could, the left one never left the top
    assert_eq!(game.right_paddle.top_left_pos, Point { x: 0, y: 85 });
    assert_eq!(game.left_paddle.top_left_pos, Point { x: 0, y: 0 });

    game.start_new_game();
    assert_eq!(game.ball.position, Point { x: 50, y: 50 });
    assert_eq!(game.ball.velocity, Velocity { vx: 1, vy: 1 });
    assert_eq!(game.right_paddle.top_left_pos, Point { x: 0, y: 85 });
    assert_eq!(frame(&mut game, &mut display, &mut controls, &mut on_screen), GameState::Ongoing);
    assert_eq!(game.ball.position, Point { x: 51, y: 51 });
}
