//! A two-player paddle-and-ball match that two machines can play in step.
//!
//! The match advances in fixed ticks and in whole thousandths of a length
//! unit, so that the same inputs give the same state on every machine. A
//! networked session runs ahead of the peer's confirmed input on a prediction
//! and simulates again from a saved state where the prediction was wrong.
//!
//! - [`fixed`], [`collide`]: lengths and overlapping rectangles.
//! - [`input`], [`wire`]: what a player asks of a paddle, and how it travels.
//! - [`pong`], [`stepper`]: the state of a match and one tick of it.
//! - [`input_queue`], [`rollback`], [`checksum`], [`online`]: a session
//!   between two peers.
//! - [`local`]: a match at one keyboard, against a second player or a scripted
//!   opponent.

pub mod checksum;
pub mod collide;
pub mod fixed;
pub mod input;
pub mod input_queue;
pub mod local;
pub mod online;
pub mod pong;
pub mod rollback;
pub mod stepper;
pub mod wire;
