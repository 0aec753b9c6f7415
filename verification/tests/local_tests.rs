use rollback_pong::fixed::Vec2;
use rollback_pong::input::{Keys, PaddleInput, PaddleInputs};
use rollback_pong::local::{ai_input, keyboard_input, local_tick, LocalConfig, LocalGameType};
use rollback_pong::pong::{setup_court, Match, PongConfig, PongState, Side, Velocity, Vertical};
use rollback_pong::stepper::step;

const NOTHING: PaddleInput = PaddleInput { move_up: false, move_down: false, serve: false };
const NO_KEYS: Keys = Keys { w: false, s: false, up: false, down: false, space: false };

fn fresh() -> Match {
    setup_court(PongConfig::standard()).unwrap()
}

fn blank() -> PaddleInputs {
    PaddleInputs { left: NOTHING, right: NOTHING }
}

/// A match in play with the ball flying level toward the right.
fn ball_at(x: i64, y: i64) -> Match {
    let mut game = fresh();
    game.state = PongState::Playing;
    game.ball.position = Vec2 { x, y };
    game.ball.velocity = Velocity { speed: 20_000, toward: Side::Right, vertical: Vertical::Level };
    game
}

#[test]
fn a_single_player_has_letters_and_arrows() {
    let kept = PaddleInput { move_up: true, move_down: false, serve: true };
    let before = PaddleInputs { left: kept, right: kept };
    let read = keyboard_input(&NO_KEYS, LocalGameType::SinglePlayer, &before);
    assert_eq!(read, PaddleInputs { left: NOTHING, right: kept });
    let read = keyboard_input(&Keys { up: true, ..NO_KEYS }, LocalGameType::SinglePlayer, &blank());
    assert_eq!(read.left, PaddleInput { move_up: true, move_down: false, serve: false });
    let read = keyboard_input(&Keys { w: true, ..NO_KEYS }, LocalGameType::SinglePlayer, &blank());
    assert_eq!(read.left, PaddleInput { move_up: true, move_down: false, serve: false });
    let keys = Keys { s: true, space: true, ..NO_KEYS };
    let read = keyboard_input(&keys, LocalGameType::SinglePlayer, &blank());
    assert_eq!(read.left, PaddleInput { move_up: false, move_down: true, serve: true });
    let keys = Keys { down: true, ..NO_KEYS };
    let read = keyboard_input(&keys, LocalGameType::SinglePlayer, &blank());
    assert_eq!(read.left, PaddleInput { move_up: false, move_down: true, serve: false });
    assert_eq!(read.right, NOTHING);
}

#[test]
fn two_players_share_the_keyboard() {
    let kept = PaddleInput { move_up: true, move_down: true, serve: true };
    let before = PaddleInputs { left: kept, right: kept };
    let read = keyboard_input(&NO_KEYS, LocalGameType::MultiPlayer, &before);
    assert_eq!(read, blank());
    let keys = Keys { w: true, down: true, ..NO_KEYS };
    let read = keyboard_input(&keys, LocalGameType::MultiPlayer, &before);
    assert_eq!(read.left, PaddleInput { move_up: true, move_down: false, serve: false });
    assert_eq!(read.right, PaddleInput { move_up: false, move_down: true, serve: false });
    let keys = Keys { s: true, up: true, space: true, ..NO_KEYS };
    let read = keyboard_input(&keys, LocalGameType::MultiPlayer, &before);
    assert_eq!(read.left, PaddleInput { move_up: false, move_down: true, serve: true });
    assert_eq!(read.right, PaddleInput { move_up: true, move_down: false, serve: true });
}

#[test]
fn the_opponent_moves_toward_a_ball_it_sees() {
    let config = LocalConfig::standard();
    let decided = ai_input(&ball_at(0, 100_000), &config, &blank());
    assert_eq!(decided.left, NOTHING);
    assert_eq!(decided.right, PaddleInput { move_up: true, move_down: false, serve: true });
    let decided = ai_input(&ball_at(0, -100_000), &config, &blank());
    assert_eq!(decided.right, PaddleInput { move_up: false, move_down: true, serve: true });
}

#[test]
fn the_opponent_keeps_its_input_when_the_ball_is_close_to_level() {
    let config = LocalConfig::standard();
    let kept = PaddleInputs {
        left: NOTHING,
        right: PaddleInput { move_up: false, move_down: true, serve: false },
    };
    // Half the paddle's height off is not yet more than half.
    assert_eq!(ai_input(&ball_at(0, 40_000), &config, &kept), kept);
    assert_eq!(ai_input(&ball_at(0, -40_000), &config, &kept), kept);
    assert_eq!(ai_input(&ball_at(0, 0), &config, &kept), kept);
    let decided = ai_input(&ball_at(0, 40_001), &config, &kept);
    assert_eq!(decided.right, PaddleInput { move_up: true, move_down: false, serve: true });
}

#[test]
fn the_opponent_ignores_a_ball_that_is_far_or_flies_away() {
    let config = LocalConfig::standard();
    let kept = PaddleInputs {
        left: PaddleInput { move_up: true, move_down: false, serve: false },
        right: PaddleInput { move_up: false, move_down: true, serve: false },
    };
    // The opponent sees 800 wide; its paddle stands at 640.
    assert_eq!(ai_input(&ball_at(-160_001, 300_000), &config, &kept), kept);
    let decided = ai_input(&ball_at(-160_000, 300_000), &config, &kept);
    assert_eq!(decided.right, PaddleInput { move_up: true, move_down: false, serve: true });
    assert_eq!(decided.left, kept.left);

    let mut leaving = ball_at(600_000, 300_000);
    leaving.ball.velocity.toward = Side::Left;
    assert_eq!(ai_input(&leaving, &config, &kept), kept);
    leaving.ball.velocity.vertical = Vertical::Down;
    assert_eq!(ai_input(&leaving, &config, &kept), kept);
}

#[test]
fn the_opponent_attends_to_a_ball_at_rest() {
    let config = LocalConfig::standard();
    let mut game = fresh();
    game.state = PongState::Serve(Side::Right);
    game.ball.position = Vec2 { x: 512_000, y: 200_000 };
    let decided = ai_input(&game, &config, &blank());
    assert_eq!(decided.right, PaddleInput { move_up: true, move_down: false, serve: true });
    // A ball that rests with its record pointing left does not fly left.
    game.ball.velocity = Velocity { speed: 0, toward: Side::Left, vertical: Vertical::Level };
    let decided = ai_input(&game, &config, &blank());
    assert_eq!(decided.right, PaddleInput { move_up: true, move_down: false, serve: true });
}

#[test]
fn a_blind_opponent_sees_only_what_is_level_with_its_paddle() {
    let mut config = LocalConfig::standard();
    config.ai_handicap.view_percentage = 0;
    assert_eq!(ai_input(&ball_at(600_000, 300_000), &config, &blank()), blank());
    let decided = ai_input(&ball_at(640_000, 300_000), &config, &blank());
    assert!(decided.right.serve);
}

#[test]
fn a_local_tick_reads_decides_and_steps() {
    let config = LocalConfig::standard();
    let game = fresh();
    let keys = Keys { w: true, space: true, ..NO_KEYS };
    let (next, used) = local_tick(&game, &keys, LocalGameType::SinglePlayer, &config, &blank());
    assert_eq!(used.left, PaddleInput { move_up: true, move_down: false, serve: true });
    assert_eq!(used.right, NOTHING);
    assert_eq!(next, step(&game, &used));
    assert_eq!(next.state, PongState::Playing);

    let keys = Keys { up: true, space: true, ..NO_KEYS };
    let (next, used) = local_tick(&game, &keys, LocalGameType::MultiPlayer, &config, &blank());
    assert_eq!(used.left, PaddleInput { move_up: false, move_down: false, serve: true });
    assert_eq!(used.right, PaddleInput { move_up: true, move_down: false, serve: true });
    assert_eq!(next.right.position.y, 10_000);
    assert_eq!(next.left.position.y, 0);
}

#[test]
fn a_match_against_the_opponent_plays_on() {
    let config = LocalConfig::standard();
    let mut game = fresh();
    let mut inputs = blank();
    let mut right_moved = false;
    for tick in 0..3000usize {
        let keys = Keys { w: tick % 40 < 20, s: tick % 40 >= 20, space: true, ..NO_KEYS };
        let (next, used) = local_tick(&game, &keys, LocalGameType::SinglePlayer, &config, &inputs);
        assert!(next.validate());
        if next.right.position.y != game.right.position.y {
            right_moved = true;
        }
        game = next;
        inputs = used;
    }
    assert!(right_moved);
    assert!(game.score.left + game.score.right > 0);
}
