//! A checksum of the match, by which two peers can tell that their states
//! differ without sending the states.

use vstd::prelude::*;
use crate::pong::{Match, Paddle, PongState, Side, Vertical};

verus! {

/// The checksum before any word has gone into it.
pub const CHECKSUM_SEED: u64 = 0xcbf2_9ce4_8422_2325;

/// The factor by which the checksum is stirred after each word.
pub const CHECKSUM_PRIME: u64 = 0x0000_0100_0000_01b3;

/// What is added to a coordinate to make a word of it.
pub const WORD_OFFSET: i64 = 4_000_000_000;

/// The checksum with one more word in it.
pub open spec fn mix_spec(sum: u64, word: u64) -> u64 {
    (sum ^ word).wrapping_mul(CHECKSUM_PRIME)
}

/// The word that stands for a length, a position or a speed.
pub open spec fn word_spec(value: i64) -> u64 {
    (value + WORD_OFFSET) as u64
}

/// The word that stands for a side.
pub open spec fn side_word_spec(side: Side) -> u64 {
    match side {
        Side::Left => 0,
        Side::Right => 1,
    }
}

/// The word that stands for a vertical sense.
pub open spec fn vertical_word_spec(vertical: Vertical) -> u64 {
    match vertical {
        Vertical::Down => 0,
        Vertical::Level => 1,
        Vertical::Up => 2,
    }
}

/// The word that stands for a phase.
pub open spec fn state_word_spec(state: PongState) -> u64 {
    match state {
        PongState::Serve(Side::Left) => 0,
        PongState::Serve(Side::Right) => 1,
        PongState::Playing => 2,
    }
}

/// The checksum with a paddle's record in it.
pub open spec fn mix_paddle_spec(sum: u64, paddle: Paddle) -> u64 {
    let sum = mix_spec(sum, side_word_spec(paddle.side));
    let sum = mix_spec(sum, paddle.handle as u64);
    let sum = mix_spec(sum, word_spec(paddle.position.x));
    let sum = mix_spec(sum, word_spec(paddle.position.y));
    let sum = mix_spec(sum, word_spec(paddle.size.x));
    let sum = mix_spec(sum, word_spec(paddle.size.y));
    mix_spec(sum, word_spec(paddle.speed))
}

/// The checksum of a match: every field of it goes in, in a fixed order, so
/// that equal matches have equal checksums on every machine.
pub open spec fn checksum_spec(game: Match) -> u64 {
    let sum = mix_spec(CHECKSUM_SEED, word_spec(game.config.court_size.x));
    let sum = mix_spec(sum, word_spec(game.config.court_size.y));
    let sum = mix_spec(sum, word_spec(game.config.players_distance_percentage));
    let sum = mix_spec(sum, word_spec(game.config.paddle_speed));
    let sum = mix_spec(sum, word_spec(game.config.ball_speed));
    let sum = mix_paddle_spec(sum, game.left);
    let sum = mix_paddle_spec(sum, game.right);
    let sum = mix_spec(sum, word_spec(game.ball.position.x));
    let sum = mix_spec(sum, word_spec(game.ball.position.y));
    let sum = mix_spec(sum, word_spec(game.ball.size.x));
    let sum = mix_spec(sum, word_spec(game.ball.size.y));
    let sum = mix_spec(sum, word_spec(game.ball.velocity.speed));
    let sum = mix_spec(sum, side_word_spec(game.ball.velocity.toward));
    let sum = mix_spec(sum, vertical_word_spec(game.ball.velocity.vertical));
    let sum = mix_spec(sum, game.score.left);
    let sum = mix_spec(sum, game.score.right);
    mix_spec(sum, state_word_spec(game.state))
}

fn mix(sum: u64, word: u64) -> (mixed: u64)
    ensures
        mixed == mix_spec(sum, word),
{
    (sum ^ word).wrapping_mul(CHECKSUM_PRIME)
}

fn word(value: i64) -> (word: u64)
    requires
        -WORD_OFFSET <= value <= WORD_OFFSET,
    ensures
        word == word_spec(value),
{
    (value + WORD_OFFSET) as u64
}

fn side_word(side: Side) -> (word: u64)
    ensures
        word == side_word_spec(side),
{
    match side {
        Side::Left => 0,
        Side::Right => 1,
    }
}

fn mix_paddle(sum: u64, paddle: &Paddle, court_height: i64) -> (mixed: u64)
    requires
        0 < court_height <= crate::fixed::MAX_EXTENT,
        paddle.wf(court_height as int),
    ensures
        mixed == mix_paddle_spec(sum, *paddle),
{
    let sum = mix(sum, side_word(paddle.side));
    let sum = mix(sum, paddle.handle as u64);
    let sum = mix(sum, word(paddle.position.x));
    let sum = mix(sum, word(paddle.position.y));
    let sum = mix(sum, word(paddle.size.x));
    let sum = mix(sum, word(paddle.size.y));
    mix(sum, word(paddle.speed))
}

/// Computes the checksum of a match.
pub fn checksum(game: &Match) -> (sum: u64)
    requires
        game.wf(),
    ensures
        sum == checksum_spec(*game),
{
    let sum = mix(CHECKSUM_SEED, word(game.config.court_size.x));
    let sum = mix(sum, word(game.config.court_size.y));
    let sum = mix(sum, word(game.config.players_distance_percentage));
    let sum = mix(sum, word(game.config.paddle_speed));
    let sum = mix(sum, word(game.config.ball_speed));
    let sum = mix_paddle(sum, &game.left, game.config.court_size.y);
    let sum = mix_paddle(sum, &game.right, game.config.court_size.y);
    let sum = mix(sum, word(game.ball.position.x));
    let sum = mix(sum, word(game.ball.position.y));
    let sum = mix(sum, word(game.ball.size.x));
    let sum = mix(sum, word(game.ball.size.y));
    let sum = mix(sum, word(game.ball.velocity.speed));
    let sum = mix(sum, side_word(game.ball.velocity.toward));
    let sum = mix(
        sum,
        match game.ball.velocity.vertical {
            Vertical::Down => 0,
            Vertical::Level => 1,
            Vertical::Up => 2,
        },
    );
    let sum = mix(sum, game.score.left);
    let sum = mix(sum, game.score.right);
    mix(
        sum,
        match game.state {
            PongState::Serve(Side::Left) => 0,
            PongState::Serve(Side::Right) => 1,
            PongState::Playing => 2,
        },
    )
}

/// Matches whose checksums differ are not the same match.
pub proof fn lemma_checksum_tells_apart(first: Match, second: Match)
    requires
        checksum_spec(first) != checksum_spec(second),
    ensures
        first != second,
{
}

} // verus!
