//! The rules of Rong, a two-player Pong: how the rackets answer the keys, how
//! the ball travels and scores, and what a frame shows.
//!
//! Nothing here opens a window or reads a clock. A frame driver hands in the
//! elapsed time, the held keys and the size of the screen, and takes back the
//! new state and the scene to paint.
//!
//! Lengths are whole numbers of [`units::UNITS_PER_PIXEL`]-ths of a pixel and
//! times are whole ticks, [`units::TICKS_PER_SECOND`] to the second, so that a
//! speed in pixels per second is also a speed in units per tick and motion is
//! exact integer arithmetic.

pub mod units;
pub mod geometry;
pub mod racket;
pub mod ball;
pub mod state;
pub mod render;
