//! The fixed dimensions and speeds of the arena.
use vstd::prelude::*;

verus! {

/// Horizontal distance of each paddle's centre from the arena centre.
pub const PADDLE_OFFSET: i64 = 525_000;

/// Height of the top wall; the bottom wall lies at its negation.
pub const WALL_Y: i64 = 340_000;

/// Distance of the two scoring boundaries from the arena centre.
pub const GOAL_X: i64 = 620_000;

/// Vertical speed of a moving paddle, in units per second.
pub const PADDLE_SPEED: i64 = 200;

/// A paddle's centre stays within this distance of the horizontal centre line.
pub const PADDLE_LIMIT: i64 = 300_000;

/// Half the width of a paddle.
pub const PADDLE_HALF_WIDTH: i64 = 10_000;

/// Half the height of a paddle.
pub const PADDLE_HALF_HEIGHT: i64 = 60_000;

/// Half the side of the square ball.
pub const BALL_HALF_SIZE: i64 = 15_000;

/// The longest time step, in milliseconds, that the ball is integrated over.
pub const MAX_STEP_MS: u64 = 200;

/// The largest speed, per axis, that a ball may have.
pub const MAX_SPEED: i64 = 100_000;

/// The farthest a ball can move along one axis in one step.
pub const MAX_TRAVEL: i64 = 20_000_000;

/// The computer's paddle reacts only while the ball is right of this line.
pub const HEURISTIC_RANGE_X: i64 = 250_000;

/// The highest centre of a ball that still touches a paddle's top.
pub const BALL_REACH_Y: i64 = PADDLE_LIMIT + PADDLE_HALF_HEIGHT + BALL_HALF_SIZE;

/// The largest half-extent of a box that collision tests accept.
pub const MAX_HALF_EXTENT: i64 = 1_000_000_000;

} // verus!
