//! The state of one match: court, paddles, ball, score and the serve/play phase.

use vstd::prelude::*;
use crate::fixed::{diagonal, diagonal_spec, scale, scale_spec, Vec2, MAX_EXTENT, UNIT};

verus! {

/// Width of a paddle, in thousandths.
pub const PADDLE_WIDTH: i64 = 17_000;

/// Height of a paddle, in thousandths.
pub const PADDLE_HEIGHT: i64 = 80_000;

/// Width and height of the ball, in thousandths.
pub const BALL_SIZE: i64 = 20_000;

/// Why an operation of this library refused to go on.
#[derive(Clone, Copy, Debug, PartialEq, Eq, Structural)]
pub enum PongError {
    /// The match cannot be set up as configured. Fatal, and raised before any
    /// tick runs.
    PreconditionViolation,
    /// The peers can no longer be brought to the same state. Fatal to the
    /// session.
    DesyncFatal,
    /// No input from the peer within the prediction window. Not fatal: the
    /// caller may wait or give the session up.
    StallCondition,
    /// A frame from the wire that cannot be decoded. It is dropped.
    MalformedFrame,
    /// The peer has left the session.
    Disconnected,
}

/// One half of the court, and the player who defends it.
#[derive(Clone, Copy, Debug, PartialEq, Eq, Structural)]
pub enum Side {
    Left,
    Right,
}

/// Which parts of a tick run: while a side is about to serve the ball rides on
/// that side's paddle, while playing it flies.
#[derive(Clone, Copy, Debug, PartialEq, Eq, Structural)]
pub enum PongState {
    Serve(Side),
    Playing,
}

/// The vertical sense of the ball's flight.
#[derive(Clone, Copy, Debug, PartialEq, Eq, Structural)]
pub enum Vertical {
    Down,
    Level,
    Up,
}

/// The ball's velocity, held as a magnitude and one of six directions. A bounce
/// changes the direction and never the magnitude.
#[derive(Clone, Copy, Debug, PartialEq, Eq, Structural)]
pub struct Velocity {
    /// Thousandths covered per tick.
    pub speed: i64,
    /// The half of the court that the ball flies toward.
    pub toward: Side,
    pub vertical: Vertical,
}

impl Velocity {
    /// The speed is within `MAX_EXTENT`.
    pub open spec fn wf(self) -> bool {
        0 <= self.speed <= MAX_EXTENT
    }

    /// What the ball covers in one tick: the whole speed along the court when
    /// it flies level, the diagonal step along both axes otherwise.
    pub open spec fn vector_spec(self) -> Vec2 {
        let along = match self.vertical {
            Vertical::Level => self.speed as int,
            _ => diagonal_spec(self.speed as int),
        };
        Vec2 {
            x: (match self.toward {
                Side::Left => -along,
                Side::Right => along,
            }) as i64,
            y: (match self.vertical {
                Vertical::Down => -along,
                Vertical::Level => 0,
                Vertical::Up => along,
            }) as i64,
        }
    }

    /// A ball at rest.
    pub fn at_rest() -> (velocity: Velocity)
        ensures
            velocity == (Velocity { speed: 0, toward: Side::Right, vertical: Vertical::Level }),
    {
        Velocity { speed: 0, toward: Side::Right, vertical: Vertical::Level }
    }

    /// The displacement of one tick.
    pub fn vector(&self) -> (step: Vec2)
        requires
            self.wf(),
        ensures
            step == self.vector_spec(),
            -self.speed <= step.x <= self.speed,
            -self.speed <= step.y <= self.speed,
    {
        let along: i64 = match self.vertical {
            Vertical::Level => self.speed,
            _ => diagonal(self.speed),
        };
        Vec2 {
            x: match self.toward {
                Side::Left => -along,
                Side::Right => along,
            },
            y: match self.vertical {
                Vertical::Down => -along,
                Vertical::Level => 0,
                Vertical::Up => along,
            },
        }
    }
}

/// What is fixed when a match is set up and never changes during it.
#[derive(Clone, Copy, Debug, PartialEq, Eq, Structural)]
pub struct PongConfig {
    /// Width and height of the court, in thousandths.
    pub court_size: Vec2,
    /// How far from the centre line the paddles stand, as a part of the court's
    /// width in thousandths of it.
    pub players_distance_percentage: i64,
    /// Thousandths a paddle moves per tick.
    pub paddle_speed: i64,
    /// Thousandths the ball moves per tick.
    pub ball_speed: i64,
}

impl PongConfig {
    /// A court that holds a paddle, and lengths and speeds within `MAX_EXTENT`.
    pub open spec fn wf(self) -> bool {
        &&& 0 < self.court_size.x <= MAX_EXTENT
        &&& PADDLE_HEIGHT <= self.court_size.y <= MAX_EXTENT
        &&& 0 <= self.players_distance_percentage <= UNIT
        &&& 0 <= self.paddle_speed <= MAX_EXTENT
        &&& 0 <= self.ball_speed <= MAX_EXTENT
    }

    /// A court of 1600 by 1000, paddles at four tenths of its width from the
    /// centre, moving 10 per tick, and a ball moving 20 per tick.
    pub fn standard() -> (config: PongConfig)
        ensures
            config == (PongConfig {
                court_size: Vec2 { x: 1_600_000, y: 1_000_000 },
                players_distance_percentage: 400,
                paddle_speed: 10_000,
                ball_speed: 20_000,
            }),
            config.wf(),
    {
        PongConfig {
            court_size: Vec2 { x: 1_600_000, y: 1_000_000 },
            players_distance_percentage: 400,
            paddle_speed: 10_000,
            ball_speed: 20_000,
        }
    }

    /// Tells whether a match can be set up with this configuration.
    pub fn validate(&self) -> (valid: bool)
        ensures
            valid == self.wf(),
    {
        0 < self.court_size.x && self.court_size.x <= MAX_EXTENT && PADDLE_HEIGHT
            <= self.court_size.y && self.court_size.y <= MAX_EXTENT && 0
            <= self.players_distance_percentage && self.players_distance_percentage <= UNIT && 0
            <= self.paddle_speed && self.paddle_speed <= MAX_EXTENT && 0 <= self.ball_speed
            && self.ball_speed <= MAX_EXTENT
    }
}

/// How far above or below the centre line a paddle's centre may travel in a
/// court of the given height.
pub open spec fn paddle_reach_spec(court_height: int, paddle_height: int) -> int {
    (court_height - paddle_height) / 2
}

/// Computes how far from the centre line a paddle's centre may travel.
pub fn paddle_reach(court_height: i64, paddle_height: i64) -> (reach: i64)
    requires
        0 <= paddle_height <= court_height,
    ensures
        reach == paddle_reach_spec(court_height as int, paddle_height as int),
        0 <= reach,
        2 * reach <= court_height - paddle_height,
{
    (court_height - paddle_height) / 2
}

/// One player's paddle.
#[derive(Clone, Copy, Debug, PartialEq, Eq, Structural)]
pub struct Paddle {
    pub side: Side,
    /// The input slot that steers this paddle.
    pub handle: usize,
    /// Centre of the paddle.
    pub position: Vec2,
    pub size: Vec2,
    /// Thousandths moved per tick while a direction is held.
    pub speed: i64,
}

impl Paddle {
    /// The paddle fits the court, stands within its reach, and is steered by
    /// one of the two input slots.
    pub open spec fn wf(self, court_height: int) -> bool {
        &&& self.handle < 2
        &&& 0 < self.size.x <= MAX_EXTENT
        &&& 0 < self.size.y <= court_height
        &&& 0 <= self.speed <= MAX_EXTENT
        &&& -MAX_EXTENT <= self.position.x <= MAX_EXTENT
        &&& -paddle_reach_spec(court_height, self.size.y as int) <= self.position.y
            <= paddle_reach_spec(court_height, self.size.y as int)
    }

    /// Tells whether the paddle is one that a tick can move in a court of the
    /// given height.
    pub fn validate(&self, court_height: i64) -> (valid: bool)
        ensures
            valid == self.wf(court_height as int),
    {
        if self.handle < 2 && 0 < self.size.x && self.size.x <= MAX_EXTENT && 0 < self.size.y
            && self.size.y <= court_height && 0 <= self.speed && self.speed <= MAX_EXTENT
            && -MAX_EXTENT <= self.position.x && self.position.x <= MAX_EXTENT {
            let reach: i64 = paddle_reach(court_height, self.size.y);
            -reach <= self.position.y && self.position.y <= reach
        } else {
            false
        }
    }
}

/// The ball.
#[derive(Clone, Copy, Debug, PartialEq, Eq, Structural)]
pub struct Ball {
    /// Centre of the ball.
    pub position: Vec2,
    pub size: Vec2,
    pub velocity: Velocity,
}

impl Ball {
    /// The ball has a size, lies within `MAX_EXTENT` of the centre, and its
    /// speed is within `MAX_EXTENT` too.
    pub open spec fn wf(self) -> bool {
        &&& 0 < self.size.x <= MAX_EXTENT
        &&& 0 < self.size.y <= MAX_EXTENT
        &&& -MAX_EXTENT <= self.position.x <= MAX_EXTENT
        &&& -MAX_EXTENT <= self.position.y <= MAX_EXTENT
        &&& self.velocity.wf()
    }

    /// Tells whether the ball is one that a tick can move.
    pub fn validate(&self) -> (valid: bool)
        ensures
            valid == self.wf(),
    {
        0 < self.size.x && self.size.x <= MAX_EXTENT && 0 < self.size.y && self.size.y
            <= MAX_EXTENT && -MAX_EXTENT <= self.position.x && self.position.x <= MAX_EXTENT
            && -MAX_EXTENT <= self.position.y && self.position.y <= MAX_EXTENT && 0
            <= self.velocity.speed && self.velocity.speed <= MAX_EXTENT
    }
}

/// Points won so far. Neither count ever goes down.
#[derive(Clone, Copy, Debug, PartialEq, Eq, Structural)]
pub struct Score {
    pub left: u64,
    pub right: u64,
}

/// Everything one tick reads and writes.
#[derive(Clone, Copy, Debug, PartialEq, Eq, Structural)]
pub struct Match {
    pub config: PongConfig,
    pub left: Paddle,
    pub right: Paddle,
    pub ball: Ball,
    pub score: Score,
    pub state: PongState,
}

impl Match {
    /// The configuration is valid, each paddle is on its own side's record and
    /// within its reach, the ball is within `MAX_EXTENT` of the centre, and a
    /// ball in play flies at the configured speed.
    pub open spec fn wf(self) -> bool {
        &&& self.config.wf()
        &&& self.left.side == Side::Left
        &&& self.right.side == Side::Right
        &&& self.left.wf(self.config.court_size.y as int)
        &&& self.right.wf(self.config.court_size.y as int)
        &&& self.ball.wf()
        &&& self.state is Playing ==> self.ball.velocity.speed == self.config.ball_speed
    }

    /// Tells whether this state is one that a tick can start from.
    pub fn validate(&self) -> (valid: bool)
        ensures
            valid == self.wf(),
    {
        if !self.config.validate() {
            return false;
        }
        let sides = match (self.left.side, self.right.side) {
            (Side::Left, Side::Right) => true,
            _ => false,
        };
        let speed_settled = match self.state {
            PongState::Playing => self.ball.velocity.speed == self.config.ball_speed,
            PongState::Serve(_) => true,
        };
        sides && self.left.validate(self.config.court_size.y) && self.right.validate(
            self.config.court_size.y,
        ) && self.ball.validate() && speed_settled
    }

    /// The paddle that defends the given side.
    pub open spec fn paddle_spec(self, side: Side) -> Paddle {
        match side {
            Side::Left => self.left,
            Side::Right => self.right,
        }
    }

    /// The paddle that defends the given side.
    pub fn paddle(&self, side: Side) -> (paddle: Paddle)
        ensures
            paddle == self.paddle_spec(side),
    {
        match side {
            Side::Left => self.left,
            Side::Right => self.right,
        }
    }
}

/// The match as it stands before the first tick: paddles level with the centre
/// at the configured distance from it, the left one on input slot 0 and the
/// right one on slot 1, the ball at rest in the middle, no points, and the left
/// side about to serve.
pub open spec fn initial_match(config: PongConfig) -> Match {
    let distance = scale_spec(
        config.court_size.x as int,
        config.players_distance_percentage as int,
    );
    Match {
        config,
        left: Paddle {
            side: Side::Left,
            handle: 0,
            position: Vec2 { x: (-distance) as i64, y: 0 },
            size: Vec2 { x: PADDLE_WIDTH, y: PADDLE_HEIGHT },
            speed: config.paddle_speed,
        },
        right: Paddle {
            side: Side::Right,
            handle: 1,
            position: Vec2 { x: distance as i64, y: 0 },
            size: Vec2 { x: PADDLE_WIDTH, y: PADDLE_HEIGHT },
            speed: config.paddle_speed,
        },
        ball: Ball {
            position: Vec2 { x: 0, y: 0 },
            size: Vec2 { x: BALL_SIZE, y: BALL_SIZE },
            velocity: Velocity { speed: 0, toward: Side::Right, vertical: Vertical::Level },
        },
        score: Score { left: 0, right: 0 },
        state: PongState::Serve(Side::Left),
    }
}

/// Sets up a match. Fails, before any tick, exactly when the configuration is
/// not valid.
pub fn setup_court(config: PongConfig) -> (outcome: Result<Match, PongError>)
    ensures
        config.wf() ==> outcome == Ok::<Match, PongError>(initial_match(config)),
        config.wf() ==> initial_match(config).wf(),
        !config.wf() ==> outcome == Err::<Match, PongError>(PongError::PreconditionViolation),
{
    if !config.validate() {
        return Err(PongError::PreconditionViolation);
    }
    let distance: i64 = scale(config.court_size.x, config.players_distance_percentage);
    Ok(
        Match {
            config,
            left: Paddle {
                side: Side::Left,
                handle: 0,
                position: Vec2 { x: -distance, y: 0 },
                size: Vec2 { x: PADDLE_WIDTH, y: PADDLE_HEIGHT },
                speed: config.paddle_speed,
            },
            right: Paddle {
                side: Side::Right,
                handle: 1,
                position: Vec2 { x: distance, y: 0 },
                size: Vec2 { x: PADDLE_WIDTH, y: PADDLE_HEIGHT },
                speed: config.paddle_speed,
            },
            ball: Ball {
                position: Vec2 { x: 0, y: 0 },
                size: Vec2 { x: BALL_SIZE, y: BALL_SIZE },
                velocity: Velocity::at_rest(),
            },
            score: Score { left: 0, right: 0 },
            state: PongState::Serve(Side::Left),
        },
    )
}

} // verus!
