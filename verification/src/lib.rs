//! The simulation core of a small 2D world viewer: a grid of randomly textured
//! tiles, the mapping from held keys to a walking direction, the choice of
//! the character's animation frame, and the rule that a world holds exactly
//! one player and one camera.
//!
//! Positions, speeds and camera smoothing are floating-point work and are left
//! to the program around this library. What stands here works on integers and
//! is proved against the contracts written on each function.

pub mod grid;
pub mod input;
pub mod player;
mod random;
pub mod world;
