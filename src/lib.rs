//! Discrete-time grid simulation of a growing, chain-segmented creature,
//! with the session state machine that gates when the simulation runs.
//!
//! All quantities are integers: time is counted in milliseconds, speeds in
//! thousandths of a move per second and multipliers in percent.

pub mod grid;
pub mod creature;
pub mod input;
pub mod food;
pub mod level;
pub mod collision;
pub mod engine;
pub mod state;
pub mod session;
pub mod spawn;
pub mod score;
