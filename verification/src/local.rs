//! A match played at one machine: by two players who share the keyboard, or by
//! one player against a scripted opponent on the right.

use vstd::prelude::*;
use crate::fixed::{scale, scale_spec, UNIT};
use crate::input::{Keys, PaddleInput, PaddleInputs};
use crate::pong::Match;
use crate::stepper::{step, step_spec};

verus! {

/// Who steers the right paddle of a local match.
#[derive(Clone, Copy, Debug, PartialEq, Eq, Structural)]
pub enum LocalGameType {
    /// The scripted opponent does.
    SinglePlayer,
    /// A second player at the same keyboard does.
    MultiPlayer,
}

/// How far the scripted opponent sees.
#[derive(Clone, Copy, Debug, PartialEq, Eq, Structural)]
pub struct AiHandicap {
    /// The distance at which it notices the ball, as a part of the court's
    /// width in thousandths of it.
    pub view_percentage: i64,
}

/// What is fixed for a local match besides the match's own configuration.
#[derive(Clone, Copy, Debug, PartialEq, Eq, Structural)]
pub struct LocalConfig {
    pub ai_handicap: AiHandicap,
}

impl LocalConfig {
    /// The opponent sees a part of the court's width, between none and all
    /// of it.
    pub open spec fn wf(self) -> bool {
        0 <= self.ai_handicap.view_percentage <= UNIT
    }

    /// An opponent that sees half the court's width.
    pub fn standard() -> (config: LocalConfig)
        ensures
            config == (LocalConfig { ai_handicap: AiHandicap { view_percentage: 500 } }),
            config.wf(),
    {
        LocalConfig { ai_handicap: AiHandicap { view_percentage: 500 } }
    }
}

/// The inputs after the keyboard was read. Slot 0 is read afresh: `W` moves up,
/// `S` moves down, the space bar serves, and against the scripted opponent the
/// arrow keys move as well. With two players slot 1 is read afresh from the
/// arrow keys and the space bar; against the scripted opponent it is left as it
/// was.
pub open spec fn keyboard_input_spec(
    keys: Keys,
    game_type: LocalGameType,
    inputs: PaddleInputs,
) -> PaddleInputs {
    match game_type {
        LocalGameType::SinglePlayer => PaddleInputs {
            left: PaddleInput {
                move_up: keys.w || keys.up,
                move_down: keys.s || keys.down,
                serve: keys.space,
            },
            right: inputs.right,
        },
        LocalGameType::MultiPlayer => PaddleInputs {
            left: PaddleInput { move_up: keys.w, move_down: keys.s, serve: keys.space },
            right: PaddleInput { move_up: keys.up, move_down: keys.down, serve: keys.space },
        },
    }
}

/// Reads the keyboard into the inputs of a local match.
pub fn keyboard_input(keys: &Keys, game_type: LocalGameType, inputs: &PaddleInputs) -> (read:
    PaddleInputs)
    ensures
        read == keyboard_input_spec(*keys, game_type, *inputs),
{
    match game_type {
        LocalGameType::SinglePlayer => PaddleInputs {
            left: PaddleInput {
                move_up: keys.w || keys.up,
                move_down: keys.s || keys.down,
                serve: keys.space,
            },
            right: inputs.right,
        },
        LocalGameType::MultiPlayer => PaddleInputs {
            left: PaddleInput { move_up: keys.w, move_down: keys.s, serve: keys.space },
            right: PaddleInput { move_up: keys.up, move_down: keys.down, serve: keys.space },
        },
    }
}

/// The distance between two coordinates.
pub open spec fn distance_spec(first: int, second: int) -> int {
    if first >= second {
        first - second
    } else {
        second - first
    }
}

/// Whether the scripted opponent attends to the ball: it does not fly to the
/// left, and it is no further from the right paddle along the court than the
/// opponent sees.
pub open spec fn ai_attends_spec(game: Match, config: LocalConfig) -> bool {
    &&& game.ball.velocity.vector_spec().x >= 0
    &&& distance_spec(game.ball.position.x as int, game.right.position.x as int) <= scale_spec(
        game.config.court_size.x as int,
        config.ai_handicap.view_percentage as int,
    )
}

/// The inputs after the scripted opponent has had its say. Where it attends to
/// the ball and the ball's centre lies more than half the paddle's height
/// above or below the right paddle's, slot 1 asks to serve and to move toward
/// the ball. In every other case the inputs stay as they were.
pub open spec fn ai_input_spec(
    game: Match,
    config: LocalConfig,
    inputs: PaddleInputs,
) -> PaddleInputs {
    if ai_attends_spec(game, config) && 2 * distance_spec(
        game.ball.position.y as int,
        game.right.position.y as int,
    ) > game.right.size.y {
        PaddleInputs {
            left: inputs.left,
            right: PaddleInput {
                move_up: game.ball.position.y > game.right.position.y,
                move_down: game.ball.position.y < game.right.position.y,
                serve: true,
            },
        }
    } else {
        inputs
    }
}

fn distance(first: i64, second: i64) -> (apart: i64)
    requires
        -crate::fixed::MAX_EXTENT <= first <= crate::fixed::MAX_EXTENT,
        -crate::fixed::MAX_EXTENT <= second <= crate::fixed::MAX_EXTENT,
    ensures
        apart == distance_spec(first as int, second as int),
        0 <= apart <= 2 * crate::fixed::MAX_EXTENT,
{
    if first >= second {
        first - second
    } else {
        second - first
    }
}

/// Lets the scripted opponent set the right paddle's input.
pub fn ai_input(game: &Match, config: &LocalConfig, inputs: &PaddleInputs) -> (decided:
    PaddleInputs)
    requires
        game.wf(),
        config.wf(),
    ensures
        decided == ai_input_spec(*game, *config, *inputs),
{
    let ball = game.ball.position;
    let paddle = game.right.position;
    if game.ball.velocity.vector().x < 0 {
        return *inputs;
    }
    let view: i64 = scale(game.config.court_size.x, config.ai_handicap.view_percentage);
    if distance(ball.x, paddle.x) > view {
        return *inputs;
    }
    if 2 * distance(ball.y, paddle.y) > game.right.size.y {
        PaddleInputs {
            left: inputs.left,
            right: PaddleInput {
                move_up: ball.y > paddle.y,
                move_down: ball.y < paddle.y,
                serve: true,
            },
        }
    } else {
        *inputs
    }
}

/// The inputs that one tick of a local match is simulated with: the keyboard
/// is read, and against the scripted opponent that opponent then decides.
pub open spec fn local_inputs_spec(
    game: Match,
    keys: Keys,
    game_type: LocalGameType,
    config: LocalConfig,
    inputs: PaddleInputs,
) -> PaddleInputs {
    let read = keyboard_input_spec(keys, game_type, inputs);
    match game_type {
        LocalGameType::SinglePlayer => ai_input_spec(game, config, read),
        LocalGameType::MultiPlayer => read,
    }
}

/// Runs one tick of a local match. Hands back the match one tick later and the
/// inputs it was simulated with, which the next tick starts from.
pub fn local_tick(
    game: &Match,
    keys: &Keys,
    game_type: LocalGameType,
    config: &LocalConfig,
    inputs: &PaddleInputs,
) -> (next: (Match, PaddleInputs))
    requires
        game.wf(),
        config.wf(),
    ensures
        next.1 == local_inputs_spec(*game, *keys, game_type, *config, *inputs),
        next.0 == step_spec(*game, next.1),
        next.0.wf(),
{
    let read = keyboard_input(keys, game_type, inputs);
    let used = match game_type {
        LocalGameType::SinglePlayer => ai_input(game, config, &read),
        LocalGameType::MultiPlayer => read,
    };
    (step(game, &used), used)
}

} // verus!
