//! Gameplay core of a rhythm platformer: a beat clock, declarative songs,
//! a grid of platforms, the session phases and the player's hop machine.
//!
//! The core draws nothing and plays nothing: each step takes plain values
//! and says what is to be spawned, shown and heard.
//!
//! Every quantity is a whole number of a fixed unit, so that each step is
//! exact: time in microseconds, lengths in thousandths of a world unit, input
//! axes in thousandths of full tilt, speeds in thousandths per second.

mod chance;
pub mod clock;
pub mod effects;
pub mod falling;
pub mod frame;
pub mod grid;
pub mod hazards;
pub mod music;
pub mod pickups;
pub mod player;
pub mod songbook;
pub mod stage;
pub mod tether;
