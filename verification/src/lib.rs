//! Conway's Game of Life on a fixed-size toroidal grid.
//!
//! The core is the `world` module: a dense two-dimensional cell array with
//! bounds-checked accessors, random population, and the per-generation
//! transition rule. The `render` module holds the narrow interface through
//! which a driver hands each generation to a display backend.

pub mod none_render;
pub mod piston_render;
pub mod render;
pub mod world;
