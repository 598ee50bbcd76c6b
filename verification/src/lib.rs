//! A verified core for a two-player Pong-style match: paddles, a bouncing
//! ball, and the round state machine that scores goals and freezes play.
//!
//! All geometry is carried in whole *subpixels*, hundredths of a pixel, so
//! that every rule constant of the game (paddle speed, ball speed, spin,
//! per-hit acceleration) is an exact integer and every tick of the
//! simulation is provable arithmetic. Rendering, input polling and the
//! windowing shell live outside this crate; they hand in per-tick key
//! states and read back positions, scores and the round flag.

pub mod geometry;
pub mod entity;
pub mod gamestate;
pub mod laws;
