//! Core of a two-player pong simulation: fixed-timestep motion
//! integration, axis-aligned collision between a ball and two paddles,
//! a serve state machine with a respawn delay, and a running score.
//!
//! All geometry lives on an integer grid of subunits (see
//! [`config::COORD_SCALE`]), and velocities are fixed-point integers
//! (see [`config::VEL_SCALE`]), so every tick is exact integer
//! arithmetic. A host that draws the field converts to its own units
//! at the boundary.

pub mod collision;
pub mod config;
pub mod display;
pub mod input;
pub mod laws;
pub mod motion;
pub mod score;
pub mod serve;
pub mod sim;
pub mod state;

pub use config::SimConfig;
pub use state::{Ball, BallMode, InputSnapshot, Paddle, Score, ServeTimer, Side, SimState};
