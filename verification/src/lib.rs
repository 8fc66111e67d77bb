//! Rules of a small arcade round: falling trash is grabbed with the pointer
//! and dropped into a can before a countdown runs out.
//!
//! The engine that draws, simulates and plays sound is not part of this
//! crate. Every function here takes plain values that a frame loop has read
//! from the engine and returns the decisions the loop has to carry out.
//!
//! What a round leaves to chance is drawn from a generator that the caller
//! makes from a seed, so that a round can be played again draw for draw.
//!
//! All quantities are integers. Frame times are whole microseconds, lengths
//! are 256ths of a world unit, and the round clock counts in hundredths of a
//! microsecond so that a multiplier given in hundredths stays exact.

pub mod level;
pub mod score;
pub mod state;
pub mod ui;
