//! Core of a minimal 2D Pong-style simulation: per-tick motion integration,
//! circle-vs-axis-aligned-box collision detection, and velocity reflection.
//! Coordinates are integers; all functions carry verified contracts.

pub mod geometry;
pub mod collision;
pub mod world;
