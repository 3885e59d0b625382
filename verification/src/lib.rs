//! Game logic of the Neon Blue pinball machine: attract-mode screen cycling,
//! city coverage, exclusive and non-exclusive modes, skill shots and scoring.
//! Each playfield system is a plain state machine here; it takes the events
//! of the machine and answers with the actions the host must perform.
pub mod dmd;
pub mod signals;
pub mod effects;
pub mod game;
mod chance;
