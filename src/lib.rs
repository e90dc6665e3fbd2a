//! A two-paddle ball game, simulated frame by frame on integers.
//!
//! Lengths are in milli-units of the arena (1000 milli-units make one unit),
//! time is in milliseconds and velocities are in units per second, which is
//! the same as milli-units per millisecond: a velocity times a time step is
//! the distance travelled, exactly.
pub mod arena;
pub mod collision;
pub mod paddle;
pub mod scoreboard;
pub mod ball;
pub mod game;
