use rollback_pong::fixed::{Vec2, UNIT};
use rollback_pong::input::{PaddleInput, PaddleInputs};
use rollback_pong::pong::{
    setup_court, Ball, Match, Paddle, PongConfig, PongError, PongState, Score, Side, Velocity,
    Vertical, BALL_SIZE, PADDLE_HEIGHT, PADDLE_WIDTH,
};
use rollback_pong::stepper::{
    ball_collision, ball_movement, ball_scoring, paddle_movement, run, serve, step,
};

const NOTHING: PaddleInput = PaddleInput { move_up: false, move_down: false, serve: false };
const UP: PaddleInput = PaddleInput { move_up: true, move_down: false, serve: false };
const DOWN: PaddleInput = PaddleInput { move_up: false, move_down: true, serve: false };
const SERVE: PaddleInput = PaddleInput { move_up: false, move_down: false, serve: true };
const UP_AND_SERVE: PaddleInput = PaddleInput { move_up: true, move_down: false, serve: true };
const DOWN_AND_SERVE: PaddleInput = PaddleInput { move_up: false, move_down: true, serve: true };
const EVERYTHING: PaddleInput = PaddleInput { move_up: true, move_down: true, serve: true };

fn both(input: PaddleInput) -> PaddleInputs {
    PaddleInputs { left: input, right: input }
}

fn left_only(input: PaddleInput) -> PaddleInputs {
    PaddleInputs { left: input, right: NOTHING }
}

fn fresh() -> Match {
    setup_court(PongConfig::standard()).unwrap()
}

/// A match in play with the ball at the given place and heading.
fn in_play(x: i64, y: i64, toward: Side, vertical: Vertical) -> Match {
    let mut game = fresh();
    game.state = PongState::Playing;
    game.ball.position = Vec2 { x: x * UNIT, y: y * UNIT };
    game.ball.velocity = Velocity { speed: game.config.ball_speed, toward, vertical };
    assert!(game.validate());
    game
}

#[test]
fn a_fresh_match_is_laid_out_as_configured() {
    let game = fresh();
    assert!(game.validate());
    assert_eq!(game.state, PongState::Serve(Side::Left));
    assert_eq!(game.score, Score { left: 0, right: 0 });
    assert_eq!(game.left.position, Vec2 { x: -640_000, y: 0 });
    assert_eq!(game.right.position, Vec2 { x: 640_000, y: 0 });
    assert_eq!(game.left.size, Vec2 { x: PADDLE_WIDTH, y: PADDLE_HEIGHT });
    assert_eq!(game.right.size, Vec2 { x: 17_000, y: 80_000 });
    assert_eq!(game.left.handle, 0);
    assert_eq!(game.right.handle, 1);
    assert_eq!(game.left.side, Side::Left);
    assert_eq!(game.right.side, Side::Right);
    assert_eq!(game.left.speed, 10_000);
    assert_eq!(game.ball.position, Vec2 { x: 0, y: 0 });
    assert_eq!(game.ball.size, Vec2 { x: BALL_SIZE, y: BALL_SIZE });
    assert_eq!(game.ball.velocity.speed, 0);
    assert_eq!(game.ball.velocity.vector(), Vec2 { x: 0, y: 0 });
}

#[test]
fn a_court_too_low_for_a_paddle_is_refused() {
    let mut config = PongConfig::standard();
    config.court_size.y = PADDLE_HEIGHT - 1;
    assert!(!config.validate());
    assert_eq!(setup_court(config), Err(PongError::PreconditionViolation));
    config.court_size.y = PADDLE_HEIGHT;
    assert!(setup_court(config).is_ok());
}

#[test]
fn a_configuration_out_of_range_is_refused() {
    let standard = PongConfig::standard();
    let mut config = standard;
    config.court_size.x = 0;
    assert_eq!(setup_court(config), Err(PongError::PreconditionViolation));
    let mut config = standard;
    config.ball_speed = -1;
    assert_eq!(setup_court(config), Err(PongError::PreconditionViolation));
    let mut config = standard;
    config.paddle_speed = 1_000_000_001;
    assert_eq!(setup_court(config), Err(PongError::PreconditionViolation));
    let mut config = standard;
    config.players_distance_percentage = 1001;
    assert_eq!(setup_court(config), Err(PongError::PreconditionViolation));
}

#[test]
fn validate_tells_states_that_a_tick_cannot_start_from() {
    let mut game = fresh();
    game.left.position.y = 460_001;
    assert!(!game.validate());
    game.left.position.y = 460_000;
    assert!(game.validate());
    game.state = PongState::Playing;
    assert!(!game.validate());
    game.ball.velocity.speed = 20_000;
    assert!(game.validate());
    game.right.side = Side::Left;
    assert!(!game.validate());
}

#[test]
fn serving_upward_from_the_left() {
    let game = fresh();
    let next = step(&game, &left_only(UP_AND_SERVE));
    assert_eq!(next.state, PongState::Playing);
    assert_eq!(
        next.ball.velocity,
        Velocity { speed: 20_000, toward: Side::Right, vertical: Vertical::Up }
    );
    let vector = next.ball.velocity.vector();
    assert_eq!(vector, Vec2 { x: 14_142, y: 14_142 });
    let x = vector.x as f64 / UNIT as f64;
    let y = vector.y as f64 / UNIT as f64;
    assert!((x - 14.14).abs() < 0.01);
    assert!((y - 14.14).abs() < 0.01);
    let length = (x * x + y * y).sqrt();
    assert!((length - 20.0).abs() < 0.002);
    // The paddle has moved first, and the ball rides on it when served.
    assert_eq!(next.left.position, Vec2 { x: -640_000, y: 10_000 });
    assert_eq!(next.ball.position, Vec2 { x: -512_000, y: 10_000 });
    assert_eq!(next.score, Score { left: 0, right: 0 });
}

#[test]
fn an_unobstructed_ball_scores_for_the_left() {
    let mut game = in_play(0, 300, Side::Right, Vertical::Level);
    game.left.position.y = -400 * UNIT;
    assert!(game.validate());
    let mut ticks = 0;
    while game.state == PongState::Playing {
        assert_eq!(game.score, Score { left: 0, right: 0 });
        game = step(&game, &both(NOTHING));
        ticks += 1;
        assert!(ticks <= 40);
    }
    assert_eq!(ticks, 40);
    assert_eq!(game.score, Score { left: 1, right: 0 });
    assert_eq!(game.state, PongState::Serve(Side::Right));
    assert_eq!(game.ball.position, Vec2 { x: 800_000, y: 300_000 });
}

#[test]
fn a_ball_past_the_left_edge_scores_for_the_right() {
    let mut game = in_play(0, -300, Side::Left, Vertical::Level);
    let mut ticks = 0;
    while game.state == PongState::Playing {
        game = step(&game, &both(NOTHING));
        ticks += 1;
        assert!(ticks <= 40);
    }
    assert_eq!(ticks, 40);
    assert_eq!(game.score, Score { left: 0, right: 1 });
    assert_eq!(game.state, PongState::Serve(Side::Left));
}

#[test]
fn a_ball_high_on_the_paddle_bounces_steeply_up() {
    let game = in_play(610, 30, Side::Right, Vertical::Level);
    let next = step(&game, &both(NOTHING));
    assert_eq!(next.ball.position, Vec2 { x: 630_000, y: 30_000 });
    assert_eq!(
        next.ball.velocity,
        Velocity { speed: 20_000, toward: Side::Left, vertical: Vertical::Up }
    );
    assert_eq!(next.ball.velocity.vector(), Vec2 { x: -14_142, y: 14_142 });
    assert_eq!(next.state, PongState::Playing);
}

#[test]
fn a_ball_low_on_the_paddle_bounces_steeply_down() {
    let game = in_play(-610, -30, Side::Left, Vertical::Level);
    let next = step(&game, &both(NOTHING));
    assert_eq!(
        next.ball.velocity,
        Velocity { speed: 20_000, toward: Side::Right, vertical: Vertical::Down }
    );
}

#[test]
fn a_ball_near_the_middle_of_the_paddle_bounces_level() {
    // Exactly a quarter of the paddle's height off the centre is still level.
    for offset in [0, 20, -20, 10] {
        let game = in_play(610, offset, Side::Right, Vertical::Up);
        let next = step(&game, &both(NOTHING));
        assert_eq!(next.ball.velocity.toward, Side::Left);
        if next.ball.position.y == offset * UNIT + 14_142 {
            let moved = next.ball.position.y;
            let expected = if 4 * (0 - moved) > 80_000 {
                Vertical::Down
            } else if 4 * (0 - moved) < -80_000 {
                Vertical::Up
            } else {
                Vertical::Level
            };
            assert_eq!(next.ball.velocity.vertical, expected);
        }
    }
    let game = in_play(610, 20, Side::Right, Vertical::Level);
    let next = step(&game, &both(NOTHING));
    assert_eq!(
        next.ball.velocity,
        Velocity { speed: 20_000, toward: Side::Left, vertical: Vertical::Level }
    );
    let game = in_play(610, 21, Side::Right, Vertical::Level);
    let next = step(&game, &both(NOTHING));
    assert_eq!(next.ball.velocity.vertical, Vertical::Up);
}

#[test]
fn the_court_turns_the_ball_back_at_top_and_bottom() {
    let game = in_play(0, 485, Side::Right, Vertical::Up);
    let next = step(&game, &both(NOTHING));
    assert_eq!(next.ball.position, Vec2 { x: 14_142, y: 499_142 });
    assert_eq!(next.ball.velocity.vertical, Vertical::Down);
    assert_eq!(next.ball.velocity.toward, Side::Right);
    assert_eq!(next.ball.velocity.speed, 20_000);

    let game = in_play(0, -485, Side::Left, Vertical::Down);
    let next = step(&game, &both(NOTHING));
    assert_eq!(next.ball.velocity.vertical, Vertical::Up);
    assert_eq!(next.ball.velocity.toward, Side::Left);

    // A level ball stays level at the edge.
    let game = in_play(0, 495, Side::Right, Vertical::Level);
    let next = step(&game, &both(NOTHING));
    assert_eq!(next.ball.velocity.vertical, Vertical::Level);
}

#[test]
fn the_edge_of_a_paddle_reverses_the_vertical_sense() {
    // The ball comes down onto the top edge of the right paddle.
    let mut game = in_play(640, 60, Side::Right, Vertical::Down);
    game.ball.position.x = 640_000 - 14_142;
    game.ball.position.y = 50_000 + 14_142 - 2_000;
    assert!(game.validate());
    let next = step(&game, &both(NOTHING));
    assert_eq!(next.ball.position, Vec2 { x: 640_000, y: 48_000 });
    assert_eq!(
        next.ball.velocity,
        Velocity { speed: 20_000, toward: Side::Right, vertical: Vertical::Up }
    );

    // And up against the bottom edge of the left one.
    let mut game = in_play(-640, -60, Side::Left, Vertical::Up);
    game.ball.position.x = -640_000 + 14_142;
    game.ball.position.y = -50_000 - 14_142 + 2_000;
    let next = step(&game, &both(NOTHING));
    assert_eq!(next.ball.position, Vec2 { x: -640_000, y: -48_000 });
    assert_eq!(
        next.ball.velocity,
        Velocity { speed: 20_000, toward: Side::Left, vertical: Vertical::Down }
    );

    // A paddle that comes up under a rising ball turns it down.
    let mut game = in_play(640, 60, Side::Right, Vertical::Up);
    game.ball.position.x = 640_000 - 14_142;
    game.ball.position.y = 58_000 - 14_142;
    game.right.position.y = 10_000;
    assert!(game.validate());
    let next = step(&game, &both(NOTHING));
    assert_eq!(next.ball.position, Vec2 { x: 640_000, y: 58_000 });
    assert_eq!(next.ball.velocity.vertical, Vertical::Down);
}

#[test]
fn a_ball_that_flew_too_far_is_brought_back_into_the_court() {
    let mut ball = fresh().ball;
    ball.position = Vec2 { x: 900_000, y: -700_000 };
    ball.velocity = Velocity { speed: 20_000, toward: Side::Right, vertical: Vertical::Down };
    let game = fresh();
    let bounced = ball_collision(&ball, game.config.court_size, &game.left, &game.right);
    assert_eq!(bounced.position, Vec2 { x: 800_000, y: -500_000 });
    assert_eq!(bounced.velocity.speed, 20_000);
}

#[test]
fn paddles_move_by_their_speed_and_stop_at_the_edge() {
    let game = fresh();
    let height = game.config.court_size.y;
    let moved = paddle_movement(&game.left, &left_only(UP), height);
    assert_eq!(moved.position, Vec2 { x: -640_000, y: 10_000 });
    let moved = paddle_movement(&game.left, &left_only(DOWN), height);
    assert_eq!(moved.position.y, -10_000);
    let moved = paddle_movement(&game.left, &left_only(NOTHING), height);
    assert_eq!(moved.position.y, 0);
    // The right paddle reads slot 1.
    let moved = paddle_movement(&game.right, &left_only(UP), height);
    assert_eq!(moved.position.y, 0);
    let moved = paddle_movement(&game.right, &both(UP), height);
    assert_eq!(moved.position.y, 10_000);

    let mut paddle = game.left;
    for _ in 0..100 {
        paddle = paddle_movement(&paddle, &left_only(UP), height);
        assert!(paddle.position.y <= 460_000);
    }
    assert_eq!(paddle.position.y, 460_000);
    for _ in 0..200 {
        paddle = paddle_movement(&paddle, &left_only(DOWN), height);
        assert!(paddle.position.y >= -460_000);
    }
    assert_eq!(paddle.position.y, -460_000);
}

#[test]
fn with_both_directions_held_a_paddle_moves_up() {
    let game = fresh();
    let moved = paddle_movement(&game.left, &left_only(EVERYTHING), game.config.court_size.y);
    assert_eq!(moved.position.y, 10_000);
}

#[test]
fn paddles_stay_within_bounds_under_any_inputs() {
    let mut game = fresh();
    let pattern = [UP, UP, EVERYTHING, DOWN, UP_AND_SERVE, UP, UP, NOTHING, DOWN_AND_SERVE, UP];
    for tick in 0..2000usize {
        let inputs = PaddleInputs {
            left: pattern[tick % pattern.len()],
            right: pattern[(tick * 7 + 3) % pattern.len()],
        };
        game = step(&game, &inputs);
        for paddle in [game.left, game.right] {
            assert!(2 * paddle.position.y <= 1_000_000 - 80_000);
            assert!(2 * paddle.position.y >= -(1_000_000 - 80_000));
        }
        assert!(game.validate());
    }
}

#[test]
fn the_ball_keeps_its_speed_through_every_bounce() {
    let mut game = fresh();
    let mut bounces = 0;
    let mut heading = game.ball.velocity;
    let mut total = 0;
    for tick in 0..5000usize {
        let left = if tick % 3 == 0 { UP_AND_SERVE } else { DOWN_AND_SERVE };
        let right = if tick % 5 < 3 { DOWN_AND_SERVE } else { UP_AND_SERVE };
        let before = game;
        game = step(&game, &PaddleInputs { left, right });
        if game.state == PongState::Playing {
            assert_eq!(game.ball.velocity.speed, 20_000);
            let vector = game.ball.velocity.vector();
            let squared = vector.x * vector.x + vector.y * vector.y;
            assert!(squared <= 400_000_000);
            assert!(squared > 399_900_000);
        }
        if before.state == PongState::Playing {
            assert_eq!(game.ball.velocity.speed, before.ball.velocity.speed);
            if game.ball.velocity != heading {
                bounces += 1;
            }
        }
        heading = game.ball.velocity;
        assert!(game.score.left >= before.score.left);
        assert!(game.score.right >= before.score.right);
        let gained = (game.score.left - before.score.left) + (game.score.right - before.score.right);
        assert!(gained <= 1);
        total += gained;
    }
    assert!(bounces > 0);
    assert_eq!(total, game.score.left + game.score.right);
    assert!(total > 0);
}

#[test]
fn a_held_ball_rides_on_the_serving_paddle() {
    let mut game = fresh();
    for _ in 0..5 {
        game = step(&game, &left_only(DOWN));
    }
    assert_eq!(game.state, PongState::Serve(Side::Left));
    assert_eq!(game.left.position.y, -50_000);
    assert_eq!(game.ball.position, Vec2 { x: -512_000, y: -50_000 });
    assert_eq!(game.ball.velocity.speed, 0);
    // The other player's serve key does nothing.
    game = step(&game, &PaddleInputs { left: NOTHING, right: SERVE });
    assert_eq!(game.state, PongState::Serve(Side::Left));
}

#[test]
fn serves_go_away_from_the_serving_paddle() {
    let game = fresh();
    let served = serve(&game, Side::Left, &left_only(SERVE));
    assert_eq!(
        served.ball.velocity,
        Velocity { speed: 20_000, toward: Side::Right, vertical: Vertical::Level }
    );
    assert_eq!(served.ball.velocity.vector(), Vec2 { x: 20_000, y: 0 });
    let served = serve(&game, Side::Left, &left_only(DOWN_AND_SERVE));
    assert_eq!(served.ball.velocity.vertical, Vertical::Down);
    assert_eq!(served.ball.velocity.vector(), Vec2 { x: 14_142, y: -14_142 });
    let served = serve(&game, Side::Left, &left_only(EVERYTHING));
    assert_eq!(served.ball.velocity.vertical, Vertical::Level);

    let served = serve(&game, Side::Right, &both(UP_AND_SERVE));
    assert_eq!(served.state, PongState::Playing);
    assert_eq!(
        served.ball.velocity,
        Velocity { speed: 20_000, toward: Side::Left, vertical: Vertical::Up }
    );
    assert_eq!(served.ball.position, Vec2 { x: 512_000, y: 0 });

    let held = serve(&game, Side::Right, &left_only(SERVE));
    assert_eq!(held.state, PongState::Serve(Side::Left));
    assert_eq!(held.ball.position, Vec2 { x: 512_000, y: 0 });
    assert_eq!(held.ball.velocity, game.ball.velocity);
}

#[test]
fn a_served_ball_does_not_fly_in_the_tick_of_the_serve() {
    let game = fresh();
    let next = step(&game, &left_only(SERVE));
    assert_eq!(next.state, PongState::Playing);
    assert_eq!(next.ball.position, Vec2 { x: -512_000, y: 0 });
    let after = step(&next, &both(NOTHING));
    assert_eq!(after.ball.position, Vec2 { x: -492_000, y: 0 });
}

#[test]
fn the_ball_flies_by_its_vector() {
    let mut ball = fresh().ball;
    ball.position = Vec2 { x: 100, y: -200 };
    ball.velocity = Velocity { speed: 20_000, toward: Side::Left, vertical: Vertical::Up };
    let moved = ball_movement(&ball);
    assert_eq!(moved.position, Vec2 { x: 100 - 14_142, y: -200 + 14_142 });
    assert_eq!(moved.velocity, ball.velocity);
    ball.velocity = Velocity { speed: 20_000, toward: Side::Right, vertical: Vertical::Level };
    assert_eq!(ball_movement(&ball).position, Vec2 { x: 20_100, y: -200 });
    ball.velocity = Velocity { speed: 0, toward: Side::Right, vertical: Vertical::Down };
    assert_eq!(ball_movement(&ball).position, ball.position);
}

#[test]
fn scoring_gives_one_point_and_the_serve() {
    let game = fresh();
    let court = game.config.court_size;
    let score = Score { left: 3, right: 4 };
    let mut ball = game.ball;
    ball.position = Vec2 { x: -795_000, y: 0 };
    assert_eq!(
        ball_scoring(&ball, court, score),
        (Score { left: 3, right: 5 }, PongState::Serve(Side::Left))
    );
    ball.position = Vec2 { x: 795_000, y: 0 };
    assert_eq!(
        ball_scoring(&ball, court, score),
        (Score { left: 4, right: 4 }, PongState::Serve(Side::Right))
    );
    ball.position = Vec2 { x: 790_000, y: 0 };
    assert_eq!(ball_scoring(&ball, court, score), (score, PongState::Playing));
    ball.position = Vec2 { x: 0, y: 495_000 };
    assert_eq!(ball_scoring(&ball, court, score), (score, PongState::Playing));
}

#[test]
fn a_full_score_stays_full() {
    let game = fresh();
    let mut ball = game.ball;
    ball.position = Vec2 { x: -800_000, y: 0 };
    let score = Score { left: 0, right: u64::MAX };
    assert_eq!(
        ball_scoring(&ball, game.config.court_size, score),
        (score, PongState::Serve(Side::Left))
    );
}

#[test]
fn the_same_tick_twice_gives_the_same_state() {
    let mut game = fresh();
    for tick in 0..300usize {
        let inputs = PaddleInputs {
            left: if tick % 2 == 0 { UP_AND_SERVE } else { DOWN },
            right: if tick % 3 == 0 { DOWN_AND_SERVE } else { UP },
        };
        let first = step(&game, &inputs);
        let second = step(&game, &inputs);
        assert_eq!(first, second);
        game = first;
    }
}

#[test]
fn a_run_is_one_tick_after_another() {
    let game = fresh();
    let inputs = vec![
        left_only(UP_AND_SERVE),
        both(NOTHING),
        both(UP),
        left_only(DOWN),
        both(DOWN_AND_SERVE),
    ];
    let mut expected = game;
    for one in inputs.iter() {
        expected = step(&expected, one);
    }
    assert_eq!(run(&game, &inputs), expected);
    assert_eq!(run(&game, &Vec::new()), game);
}

#[test]
fn paddle_and_ball_records_can_be_checked_alone() {
    let game = fresh();
    assert!(game.left.validate(1_000_000));
    assert!(game.ball.validate());
    let paddle = Paddle { handle: 2, ..game.left };
    assert!(!paddle.validate(1_000_000));
    let ball = Ball { size: Vec2 { x: 0, y: 1 }, ..game.ball };
    assert!(!ball.validate());
    assert_eq!(game.paddle(Side::Left), game.left);
    assert_eq!(game.paddle(Side::Right), game.right);
}
