//! Deterministic core of a claw-and-rope mining game.
//!
//! Every quantity is an integer. Lengths and coordinates are thousandths of a
//! pixel, angles thousandths of a degree, times milliseconds, masses and patrol
//! speeds thousandths of their unit, and probabilities millionths.

pub mod animation;
pub mod assets;
pub mod audio;
pub mod bonus;
pub mod config;
pub mod entity;
pub mod explosive;
pub mod hook;
pub mod level;
pub mod player;
pub mod random;
pub mod screens;
pub mod shop;
pub mod stats;
pub mod timer;
pub mod utils;
