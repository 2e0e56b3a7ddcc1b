//! Simulation core of a reflex trainer: a session state machine that drives
//! one timed target, fed by a command source and drawn through a render sink.
//!
//! Everything here works on plain values. Positions are whole distance units
//! on an integer grid and time is counted in microseconds, so every rule of
//! the game is decided by exact integer arithmetic.

pub mod actor;
pub mod command;
pub mod geometry;
pub mod render;
pub mod session;
pub mod target;
