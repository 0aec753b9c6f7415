//! One tick of the match: paddles move; a serving side holds or serves the
//! ball; a ball in play flies, bounces and scores.

use vstd::prelude::*;
use crate::collide::{collide, collide_spec, Collision};
use crate::fixed::{
    clamp, clamp_spec, diagonal_spec, lemma_diagonal_exists, scale, scale_spec, Vec2, MAX_EXTENT,
};
use crate::input::{PaddleInput, PaddleInputs};
use crate::pong::{
    paddle_reach, paddle_reach_spec, Ball, Match, Paddle, PongState, Score, Side, Velocity,
    Vertical,
};

verus! {

/// How far from the centre line a held ball rides, as a part of its paddle's
/// distance in thousandths of it.
pub const SERVE_OFFSET: i64 = 800;

/// The sense in which an input moves a paddle: up where `move_up` is held, else
/// down where `move_down` is held, else not at all.
pub open spec fn direction_spec(input: PaddleInput) -> int {
    if input.move_up {
        1
    } else if input.move_down {
        -1
    } else {
        0
    }
}

/// The paddle after one tick under `input`: moved by its speed in the input's
/// direction, then held within its reach of the court.
pub open spec fn paddle_movement_spec(
    paddle: Paddle,
    input: PaddleInput,
    court_height: int,
) -> Paddle {
    let reach = paddle_reach_spec(court_height, paddle.size.y as int);
    Paddle {
        position: Vec2 {
            x: paddle.position.x,
            y: clamp_spec(
                paddle.position.y + direction_spec(input) * paddle.speed,
                -reach,
                reach,
            ) as i64,
        },
        ..paddle
    }
}

/// Moves one paddle for one tick.
pub fn paddle_movement(paddle: &Paddle, inputs: &PaddleInputs, court_height: i64) -> (moved: Paddle)
    requires
        0 < court_height <= MAX_EXTENT,
        paddle.wf(court_height as int),
    ensures
        moved == paddle_movement_spec(
            *paddle,
            inputs.slot_spec(paddle.handle as int),
            court_height as int,
        ),
        moved.wf(court_height as int),
        -(court_height - moved.size.y) <= 2 * moved.position.y <= court_height - moved.size.y,
{
    let input = inputs.slot(paddle.handle);
    let reach: i64 = paddle_reach(court_height, paddle.size.y);
    let target: i64 = if input.move_up {
        paddle.position.y + paddle.speed
    } else if input.move_down {
        paddle.position.y - paddle.speed
    } else {
        paddle.position.y
    };
    Paddle {
        side: paddle.side,
        handle: paddle.handle,
        position: Vec2 { x: paddle.position.x, y: clamp(target, -reach, reach) },
        size: paddle.size,
        speed: paddle.speed,
    }
}

/// The vertical sense of a serve: up where only `move_up` is held, down where
/// only `move_down` is held, level otherwise.
pub open spec fn serve_vertical_spec(input: PaddleInput) -> Vertical {
    if input.move_up && !input.move_down {
        Vertical::Up
    } else if !input.move_up && input.move_down {
        Vertical::Down
    } else {
        Vertical::Level
    }
}

/// The half of the court that lies across the centre line from a paddle.
pub open spec fn away_from_spec(paddle: Paddle) -> Side {
    if paddle.position.x >= 0 {
        Side::Left
    } else {
        Side::Right
    }
}

/// The match after the serving side's part of a tick. The ball rides on that
/// side's paddle, level with it and `SERVE_OFFSET` of the way out from the
/// centre line. Where the paddle's slot holds `serve`, the ball takes the
/// configured speed, away from the paddle and in the input's vertical sense,
/// and play begins.
pub open spec fn serve_spec(game: Match, side: Side, inputs: PaddleInputs) -> Match {
    let paddle = game.paddle_spec(side);
    let input = inputs.slot_spec(paddle.handle as int);
    let position = Vec2 {
        x: scale_spec(paddle.position.x as int, SERVE_OFFSET as int) as i64,
        y: paddle.position.y,
    };
    if input.serve {
        Match {
            ball: Ball {
                position,
                velocity: Velocity {
                    speed: game.config.ball_speed,
                    toward: away_from_spec(paddle),
                    vertical: serve_vertical_spec(input),
                },
                ..game.ball
            },
            state: PongState::Playing,
            ..game
        }
    } else {
        Match { ball: Ball { position, ..game.ball }, ..game }
    }
}

/// Runs the serving side's part of a tick.
pub fn serve(game: &Match, side: Side, inputs: &PaddleInputs) -> (next: Match)
    requires
        game.wf(),
    ensures
        next == serve_spec(*game, side, *inputs),
        next.wf(),
{
    let paddle = game.paddle(side);
    let input = inputs.slot(paddle.handle);
    let position = Vec2 { x: scale(paddle.position.x, SERVE_OFFSET), y: paddle.position.y };
    if input.serve {
        let toward = if paddle.position.x >= 0 {
            Side::Left
        } else {
            Side::Right
        };
        let vertical = if input.move_up && !input.move_down {
            Vertical::Up
        } else if !input.move_up && input.move_down {
            Vertical::Down
        } else {
            Vertical::Level
        };
        Match {
            config: game.config,
            left: game.left,
            right: game.right,
            ball: Ball {
                position,
                size: game.ball.size,
                velocity: Velocity { speed: game.config.ball_speed, toward, vertical },
            },
            score: game.score,
            state: PongState::Playing,
        }
    } else {
        Match {
            config: game.config,
            left: game.left,
            right: game.right,
            ball: Ball { position, size: game.ball.size, velocity: game.ball.velocity },
            score: game.score,
            state: game.state,
        }
    }
}

/// The ball after flying for one tick.
pub open spec fn ball_movement_spec(ball: Ball) -> Ball {
    let step = ball.velocity.vector_spec();
    Ball {
        position: Vec2 {
            x: (ball.position.x + step.x) as i64,
            y: (ball.position.y + step.y) as i64,
        },
        ..ball
    }
}

/// A ball that has flown for a tick and has not yet been brought back into the
/// court.
pub open spec fn in_flight(ball: Ball) -> bool {
    &&& 0 < ball.size.x <= MAX_EXTENT
    &&& 0 < ball.size.y <= MAX_EXTENT
    &&& -2 * MAX_EXTENT <= ball.position.x <= 2 * MAX_EXTENT
    &&& -2 * MAX_EXTENT <= ball.position.y <= 2 * MAX_EXTENT
    &&& ball.velocity.wf()
}

/// Lets the ball fly for one tick.
pub fn ball_movement(ball: &Ball) -> (moved: Ball)
    requires
        ball.wf(),
    ensures
        moved == ball_movement_spec(*ball),
        in_flight(moved),
{
    let step = ball.velocity.vector();
    Ball {
        position: Vec2 { x: ball.position.x + step.x, y: ball.position.y + step.y },
        size: ball.size,
        velocity: ball.velocity,
    }
}

/// A point brought back into a court centred on the origin.
pub open spec fn clamp_into_court_spec(position: Vec2, court_size: Vec2) -> Vec2 {
    Vec2 {
        x: clamp_spec(position.x as int, -(court_size.x / 2), court_size.x / 2) as i64,
        y: clamp_spec(position.y as int, -(court_size.y / 2), court_size.y / 2) as i64,
    }
}

/// The velocity after the ball has met the court's edge: at the top edge it
/// points down or level, at the bottom edge up or level.
pub open spec fn bounce_off_court_spec(velocity: Velocity, hit: Option<Collision>) -> Velocity {
    match hit {
        Some(Collision::Top) => Velocity {
            vertical: match velocity.vertical {
                Vertical::Up => Vertical::Down,
                other => other,
            },
            ..velocity
        },
        Some(Collision::Bottom) => Velocity {
            vertical: match velocity.vertical {
                Vertical::Down => Vertical::Up,
                other => other,
            },
            ..velocity
        },
        _ => velocity,
    }
}

/// The vertical sense in which a paddle's face sends the ball: down where the
/// ball's centre lies more than a quarter of the paddle's height below the
/// paddle's, up where it lies more than a quarter above, level between.
pub open spec fn deflection_spec(ball_y: int, paddle: Paddle) -> Vertical {
    let offset = paddle.position.y - ball_y;
    if 4 * offset > paddle.size.y {
        Vertical::Down
    } else if 4 * offset < -paddle.size.y {
        Vertical::Up
    } else {
        Vertical::Level
    }
}

/// The opposite vertical sense.
pub open spec fn reversed_spec(vertical: Vertical) -> Vertical {
    match vertical {
        Vertical::Down => Vertical::Up,
        Vertical::Level => Vertical::Level,
        Vertical::Up => Vertical::Down,
    }
}

/// The velocity after the ball has met a paddle. A face sends it away from the
/// paddle in the sense that `deflection_spec` gives; the top and the bottom edge
/// reverse its vertical sense. The magnitude stays.
pub open spec fn bounce_off_paddle_spec(
    velocity: Velocity,
    hit: Option<Collision>,
    ball_y: int,
    paddle: Paddle,
) -> Velocity {
    match hit {
        Some(Collision::Left) => Velocity {
            toward: Side::Left,
            vertical: deflection_spec(ball_y, paddle),
            ..velocity
        },
        Some(Collision::Right) => Velocity {
            toward: Side::Right,
            vertical: deflection_spec(ball_y, paddle),
            ..velocity
        },
        Some(Collision::Top) | Some(Collision::Bottom) => Velocity {
            vertical: reversed_spec(velocity.vertical),
            ..velocity
        },
        _ => velocity,
    }
}

/// The ball after the collisions of one tick: brought back into the court,
/// then turned by the court's top or bottom edge, then by the left paddle, then
/// by the right one.
pub open spec fn ball_collision_spec(
    ball: Ball,
    court_size: Vec2,
    left: Paddle,
    right: Paddle,
) -> Ball {
    let position = clamp_into_court_spec(ball.position, court_size);
    let origin = Vec2 { x: 0, y: 0 };
    let off_court = bounce_off_court_spec(
        ball.velocity,
        collide_spec(position, ball.size, origin, court_size),
    );
    let off_left = bounce_off_paddle_spec(
        off_court,
        collide_spec(position, ball.size, left.position, left.size),
        position.y as int,
        left,
    );
    let off_right = bounce_off_paddle_spec(
        off_left,
        collide_spec(position, ball.size, right.position, right.size),
        position.y as int,
        right,
    );
    Ball { position, velocity: off_right, ..ball }
}

fn bounce_off_court(velocity: Velocity, hit: Option<Collision>) -> (turned: Velocity)
    ensures
        turned == bounce_off_court_spec(velocity, hit),
        turned.speed == velocity.speed,
{
    match hit {
        Some(Collision::Top) => Velocity {
            speed: velocity.speed,
            toward: velocity.toward,
            vertical: match velocity.vertical {
                Vertical::Up => Vertical::Down,
                other => other,
            },
        },
        Some(Collision::Bottom) => Velocity {
            speed: velocity.speed,
            toward: velocity.toward,
            vertical: match velocity.vertical {
                Vertical::Down => Vertical::Up,
                other => other,
            },
        },
        _ => velocity,
    }
}

fn deflection(ball_y: i64, paddle: &Paddle) -> (vertical: Vertical)
    requires
        -MAX_EXTENT <= ball_y <= MAX_EXTENT,
        -MAX_EXTENT <= paddle.position.y <= MAX_EXTENT,
        0 <= paddle.size.y <= MAX_EXTENT,
    ensures
        vertical == deflection_spec(ball_y as int, *paddle),
{
    let offset: i64 = paddle.position.y - ball_y;
    if 4 * offset > paddle.size.y {
        Vertical::Down
    } else if 4 * offset < -paddle.size.y {
        Vertical::Up
    } else {
        Vertical::Level
    }
}

fn bounce_off_paddle(
    velocity: Velocity,
    hit: Option<Collision>,
    ball_y: i64,
    paddle: &Paddle,
) -> (turned: Velocity)
    requires
        -MAX_EXTENT <= ball_y <= MAX_EXTENT,
        -MAX_EXTENT <= paddle.position.y <= MAX_EXTENT,
        0 <= paddle.size.y <= MAX_EXTENT,
    ensures
        turned == bounce_off_paddle_spec(velocity, hit, ball_y as int, *paddle),
        turned.speed == velocity.speed,
{
    match hit {
        Some(Collision::Left) => Velocity {
            speed: velocity.speed,
            toward: Side::Left,
            vertical: deflection(ball_y, paddle),
        },
        Some(Collision::Right) => Velocity {
            speed: velocity.speed,
            toward: Side::Right,
            vertical: deflection(ball_y, paddle),
        },
        Some(Collision::Top) | Some(Collision::Bottom) => Velocity {
            speed: velocity.speed,
            toward: velocity.toward,
            vertical: match velocity.vertical {
                Vertical::Down => Vertical::Up,
                Vertical::Level => Vertical::Level,
                Vertical::Up => Vertical::Down,
            },
        },
        _ => velocity,
    }
}

/// Resolves the collisions of one tick.
pub fn ball_collision(
    ball: &Ball,
    court_size: Vec2,
    left: &Paddle,
    right: &Paddle,
) -> (bounced: Ball)
    requires
        in_flight(*ball),
        0 < court_size.x <= MAX_EXTENT,
        0 < court_size.y <= MAX_EXTENT,
        left.wf(court_size.y as int),
        right.wf(court_size.y as int),
    ensures
        bounced == ball_collision_spec(*ball, court_size, *left, *right),
        bounced.wf(),
        bounced.velocity.speed == ball.velocity.speed,
        -court_size.x <= 2 * bounced.position.x <= court_size.x,
        -court_size.y <= 2 * bounced.position.y <= court_size.y,
{
    let half_width: i64 = court_size.x / 2;
    let half_height: i64 = court_size.y / 2;
    let position = Vec2 {
        x: clamp(ball.position.x, -half_width, half_width),
        y: clamp(ball.position.y, -half_height, half_height),
    };
    let origin = Vec2 { x: 0, y: 0 };
    let off_court = bounce_off_court(
        ball.velocity,
        collide(position, ball.size, origin, court_size),
    );
    let off_left = bounce_off_paddle(
        off_court,
        collide(position, ball.size, left.position, left.size),
        position.y,
        left,
    );
    let off_right = bounce_off_paddle(
        off_left,
        collide(position, ball.size, right.position, right.size),
        position.y,
        right,
    );
    Ball { position, size: ball.size, velocity: off_right }
}

/// A count raised by one, unless it already is the largest that can be held.
pub open spec fn one_more(count: u64) -> u64 {
    if count < u64::MAX {
        (count + 1) as u64
    } else {
        count
    }
}

/// The score and the phase after scoring. A ball that overlaps the court's
/// left edge gives the right side a point and the left side the serve; one that
/// overlaps the right edge gives the left side a point and the right side the
/// serve; any other ball changes nothing.
pub open spec fn ball_scoring_spec(ball: Ball, court_size: Vec2, score: Score) -> (
    Score,
    PongState,
) {
    match collide_spec(ball.position, ball.size, Vec2 { x: 0, y: 0 }, court_size) {
        Some(Collision::Left) => (
            Score { left: score.left, right: one_more(score.right) },
            PongState::Serve(Side::Left),
        ),
        Some(Collision::Right) => (
            Score { left: one_more(score.left), right: score.right },
            PongState::Serve(Side::Right),
        ),
        _ => (score, PongState::Playing),
    }
}

/// Scores a ball in play.
pub fn ball_scoring(ball: &Ball, court_size: Vec2, score: Score) -> (outcome: (Score, PongState))
    requires
        ball.wf(),
        0 < court_size.x <= MAX_EXTENT,
        0 < court_size.y <= MAX_EXTENT,
    ensures
        outcome == ball_scoring_spec(*ball, court_size, score),
{
    match collide(ball.position, ball.size, Vec2 { x: 0, y: 0 }, court_size) {
        Some(Collision::Left) => (
            Score { left: score.left, right: score.right.saturating_add(1) },
            PongState::Serve(Side::Left),
        ),
        Some(Collision::Right) => (
            Score { left: score.left.saturating_add(1), right: score.right },
            PongState::Serve(Side::Right),
        ),
        _ => (score, PongState::Playing),
    }
}

/// The match one tick later. Both paddles move first. Then the phase in which
/// the tick began decides: a serving side holds or serves the ball; a ball in
/// play flies, collides and scores.
#[verifier::opaque]
pub open spec fn step_spec(game: Match, inputs: PaddleInputs) -> Match {
    let court = game.config.court_size;
    let left = paddle_movement_spec(
        game.left,
        inputs.slot_spec(game.left.handle as int),
        court.y as int,
    );
    let right = paddle_movement_spec(
        game.right,
        inputs.slot_spec(game.right.handle as int),
        court.y as int,
    );
    let moved = Match { left, right, ..game };
    match game.state {
        PongState::Serve(side) => serve_spec(moved, side, inputs),
        PongState::Playing => {
            let ball = ball_collision_spec(ball_movement_spec(game.ball), court, left, right);
            let (score, state) = ball_scoring_spec(ball, court, game.score);
            Match { ball, score, state, ..moved }
        },
    }
}

/// Advances the match by one tick. The result depends on the two arguments and
/// on nothing else.
pub fn step(game: &Match, inputs: &PaddleInputs) -> (next: Match)
    requires
        game.wf(),
    ensures
        next == step_spec(*game, *inputs),
        next.wf(),
{
    reveal(step_spec);
    let court = game.config.court_size;
    let left = paddle_movement(&game.left, inputs, court.y);
    let right = paddle_movement(&game.right, inputs, court.y);
    let moved = Match {
        config: game.config,
        left,
        right,
        ball: game.ball,
        score: game.score,
        state: game.state,
    };
    match game.state {
        PongState::Serve(side) => serve(&moved, side, inputs),
        PongState::Playing => {
            let flown = ball_movement(&game.ball);
            let ball = ball_collision(&flown, court, &left, &right);
            let (score, state) = ball_scoring(&ball, court, game.score);
            Match { config: game.config, left, right, ball, score, state }
        },
    }
}

/// The match after a run of ticks, one for each entry of `inputs`, in order.
pub open spec fn simulate(game: Match, inputs: Seq<PaddleInputs>) -> Match
    decreases inputs.len(),
{
    if inputs.len() == 0 {
        game
    } else {
        step_spec(simulate(game, inputs.drop_last()), inputs.last())
    }
}

/// Two ticks that start from the same state under the same inputs end in the
/// same state, field for field.
pub proof fn lemma_step_deterministic(
    first: Match,
    first_inputs: PaddleInputs,
    second: Match,
    second_inputs: PaddleInputs,
)
    requires
        first == second,
        first_inputs == second_inputs,
    ensures
        step_spec(first, first_inputs) == step_spec(second, second_inputs),
{
}

/// A tick takes a valid state to a valid state.
pub proof fn lemma_step_wf(game: Match, inputs: PaddleInputs)
    requires
        game.wf(),
    ensures
        step_spec(game, inputs).wf(),
        step_spec(game, inputs).config == game.config,
{
    reveal(step_spec);
}

/// A run of ticks takes a valid state to a valid state under the same
/// configuration.
pub proof fn lemma_simulate_wf(game: Match, inputs: Seq<PaddleInputs>)
    requires
        game.wf(),
    ensures
        simulate(game, inputs).wf(),
        simulate(game, inputs).config == game.config,
    decreases inputs.len(),
{
    if inputs.len() > 0 {
        lemma_simulate_wf(game, inputs.drop_last());
        lemma_step_wf(simulate(game, inputs.drop_last()), inputs.last());
    }
}

/// Runs one tick for each entry of `inputs`, in order.
pub fn run(game: &Match, inputs: &Vec<PaddleInputs>) -> (last: Match)
    requires
        game.wf(),
    ensures
        last == simulate(*game, inputs@),
        last.wf(),
{
    let mut current = *game;
    let mut done: usize = 0;
    while done < inputs.len()
        invariant
            done <= inputs.len(),
            current.wf(),
            current == simulate(*game, inputs@.take(done as int)),
        decreases inputs.len() - done,
    {
        assert(inputs@.take(done + 1).drop_last() == inputs@.take(done as int));
        current = step(&current, &inputs[done]);
        done = done + 1;
    }
    assert(inputs@.take(done as int) == inputs@);
    current
}

/// The speed of the ball changes only when it is served, and then to the
/// configured speed; while the ball is in play it is the configured speed
/// before and after every tick, whatever the ball bounced off.
pub proof fn lemma_speed_conserved(game: Match, inputs: PaddleInputs)
    requires
        game.wf(),
    ensures
        game.state is Playing ==> step_spec(game, inputs).ball.velocity.speed
            == game.ball.velocity.speed,
        game.state is Playing ==> step_spec(game, inputs).ball.velocity.speed
            == game.config.ball_speed,
        step_spec(game, inputs).state is Playing ==> step_spec(game, inputs).ball.velocity.speed
            == game.config.ball_speed,
        step_spec(game, inputs).ball.velocity.speed != game.ball.velocity.speed ==> {
            &&& game.state matches PongState::Serve(side)
            &&& inputs.slot_spec(game.paddle_spec(side).handle as int).serve
            &&& step_spec(game, inputs).ball.velocity.speed == game.config.ball_speed
        },
{
    reveal(step_spec);
}

/// The displacement of one tick is never longer than the speed, and shorter by
/// less than two thousandths: its squared length lies within `4 d + 2` of the
/// squared speed, where `d` is the displacement along one axis.
pub proof fn lemma_vector_magnitude(velocity: Velocity)
    requires
        velocity.wf(),
    ensures
        ({
            let step = velocity.vector_spec();
            let squared = step.x * step.x + step.y * step.y;
            let along = if step.x >= 0 {
                step.x as int
            } else {
                -step.x
            };
            &&& squared <= velocity.speed * velocity.speed
            &&& velocity.speed * velocity.speed < squared + 4 * along + 2
            &&& velocity.vertical is Level ==> squared == velocity.speed * velocity.speed
        }),
{
    let speed = velocity.speed as int;
    lemma_diagonal_exists(speed);
    let along = diagonal_spec(speed);
    assert(0 <= along <= speed) by {
        if along > speed {
            assert(2 * along * along > speed * speed) by (nonlinear_arith)
                requires
                    0 <= speed < along,
            ;
        }
    }
    let step = velocity.vector_spec();
    match velocity.vertical {
        Vertical::Level => {
            assert(step.y == 0);
            assert(step.x == speed || step.x == -speed);
            assert(step.x * step.x == speed * speed) by (nonlinear_arith)
                requires
                    step.x == speed || step.x == -speed,
            ;
        },
        _ => {
            assert(step.x == along || step.x == -along);
            assert(step.y == along || step.y == -along);
            assert(step.x * step.x + step.y * step.y == 2 * along * along) by (nonlinear_arith)
                requires
                    step.x == along || step.x == -along,
                    step.y == along || step.y == -along,
            ;
            assert(2 * (along + 1) * (along + 1) == 2 * along * along + 4 * along + 2)
                by (nonlinear_arith);
        },
    }
}

/// After a tick each paddle's centre lies within half the court's height less
/// half the paddle's height of the centre line, whatever the inputs were.
pub proof fn lemma_paddle_bound(game: Match, inputs: PaddleInputs)
    requires
        game.wf(),
    ensures
        ({
            let next = step_spec(game, inputs);
            let height = game.config.court_size.y;
            &&& -(height - next.left.size.y) <= 2 * next.left.position.y <= height
                - next.left.size.y
            &&& -(height - next.right.size.y) <= 2 * next.right.position.y <= height
                - next.right.size.y
        }),
{
    reveal(step_spec);
}

/// After any run of ticks from a valid state each paddle's centre lies within
/// its reach of the centre line.
pub proof fn lemma_paddle_bound_always(game: Match, inputs: Seq<PaddleInputs>)
    requires
        game.wf(),
    ensures
        ({
            let last = simulate(game, inputs);
            let height = game.config.court_size.y;
            &&& -(height - last.left.size.y) <= 2 * last.left.position.y <= height
                - last.left.size.y
            &&& -(height - last.right.size.y) <= 2 * last.right.position.y <= height
                - last.right.size.y
        }),
{
    lemma_simulate_wf(game, inputs);
}

/// What a tick does to the score. While a side is about to serve, nothing. In
/// play, with `hit` the side of the court that the ball overlaps once it has
/// flown and bounced: at the left edge the right side gains exactly one point
/// and the left side is to serve; at the right edge the left side gains exactly
/// one point and the right side is to serve; otherwise nothing changes and play
/// goes on. Never do both sides gain in one tick. (A count that already is
/// `u64::MAX` stays.)
pub proof fn lemma_scoring(game: Match, inputs: PaddleInputs)
    requires
        game.wf(),
    ensures
        ({
            let next = step_spec(game, inputs);
            let hit = collide_spec(
                next.ball.position,
                next.ball.size,
                Vec2 { x: 0, y: 0 },
                game.config.court_size,
            );
            &&& !(game.state is Playing) ==> next.score == game.score
            &&& game.state is Playing && hit == Some(Collision::Left) ==> {
                &&& next.score.right == one_more(game.score.right)
                &&& next.score.left == game.score.left
                &&& next.state == PongState::Serve(Side::Left)
            }
            &&& game.state is Playing && hit == Some(Collision::Right) ==> {
                &&& next.score.left == one_more(game.score.left)
                &&& next.score.right == game.score.right
                &&& next.state == PongState::Serve(Side::Right)
            }
            &&& game.state is Playing && hit != Some(Collision::Left) && hit != Some(
                Collision::Right,
            ) ==> next.score == game.score && next.state == PongState::Playing
            &&& next.score.left == game.score.left || next.score.right == game.score.right
            &&& game.score.left <= next.score.left <= game.score.left + 1
            &&& game.score.right <= next.score.right <= game.score.right + 1
        }),
{
    reveal(step_spec);
}

/// The phase changes in two ways only. A side that is about to serve begins
/// play, in a tick in which the slot of its paddle holds `serve`. And play ends
/// with a point: the side that lost it is to serve next.
pub proof fn lemma_phase_changes(game: Match, inputs: PaddleInputs)
    requires
        game.wf(),
    ensures
        ({
            let next = step_spec(game, inputs);
            &&& game.state matches PongState::Serve(side) ==> {
                if inputs.slot_spec(game.paddle_spec(side).handle as int).serve {
                    next.state == PongState::Playing
                } else {
                    next.state == game.state
                }
            }
            &&& game.state is Playing ==> {
                ||| next.state == PongState::Playing && next.score == game.score
                ||| next.state == PongState::Serve(Side::Left) && next.score.left
                    == game.score.left && next.score.right == one_more(game.score.right)
                ||| next.state == PongState::Serve(Side::Right) && next.score.right
                    == game.score.right && next.score.left == one_more(game.score.left)
            }
        }),
{
    reveal(step_spec);
}

/// A ball that reaches past the court's left edge, and past neither its top
/// nor its bottom edge, overlaps the court on the left; likewise on the right.
/// And a ball that overlaps the court on the left does reach past its left edge.
pub proof fn lemma_crossing(ball: Ball, court_size: Vec2)
    requires
        ball.wf(),
        0 < ball.size.x < court_size.x <= MAX_EXTENT,
        0 < court_size.y <= MAX_EXTENT,
        -court_size.x <= 2 * ball.position.x <= court_size.x,
        -court_size.y <= 2 * ball.position.y <= court_size.y,
    ensures
        ({
            let hit = collide_spec(ball.position, ball.size, Vec2 { x: 0, y: 0 }, court_size);
            let past_left = 2 * ball.position.x - ball.size.x < -court_size.x;
            let past_right = 2 * ball.position.x + ball.size.x > court_size.x;
            let past_bottom = 2 * ball.position.y - ball.size.y < -court_size.y;
            let past_top = 2 * ball.position.y + ball.size.y > court_size.y;
            &&& past_left && !past_bottom && !past_top ==> hit == Some(Collision::Left)
            &&& past_right && !past_bottom && !past_top ==> hit == Some(Collision::Right)
            &&& hit == Some(Collision::Left) ==> past_left
            &&& hit == Some(Collision::Right) ==> past_right
        }),
{
}

} // verus!
