//! Game rules of a retro top-down racing game: scoring, combos, lives,
//! difficulty, power-ups, achievements, game modes, settings and the
//! screen-to-screen state machine.
//!
//! All quantities are integers with fixed units:
//! - times and durations are milliseconds (`u64` for elapsed play time,
//!   `i64` for countdown timers, which may run below zero, and `u32` for the
//!   length of one frame);
//! - multipliers, volumes and colour channels are percentages (`100` is 1.0);
//! - positions and sizes are thousandths of a pixel.

pub mod timer;
pub mod game_mode;
pub mod text;
pub mod game;
pub mod life;
pub mod settings;
pub mod save;
pub mod geometry;
pub mod obstacle;
pub mod player;
pub mod road;
pub mod random;
pub mod graphics;
pub mod powerup;
pub mod achievement;
pub mod audio;

