//! Digital-rain stream engine: columns of glyphs fall down a terminal
//! screen, each with a bright head and a dim trail. The engine owns the
//! per-column state, advances it one tick at a time, and emits the draw
//! and clear commands that a terminal front end must apply.

pub mod alphabet;
pub mod column;
pub mod command;
pub mod engine;
pub mod laws;
pub mod rng;
