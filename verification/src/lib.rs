//! Conway's Game of Life on a bounded grid.
//!
//! [`generation`] holds the mathematical model: a generation is a rectangle
//! of cell states, and [`generation::step`] is the transition from one
//! generation to the next. [`grid::Grid`] is the executable value that stores
//! one generation, and [`world::World`] is the engine that advances it.
//! [`patterns`] proves what the rule does to a few well-known shapes.

pub mod generation;
pub mod grid;
pub mod patterns;
mod random;
pub mod world;

pub use crate::grid::Grid;
pub use crate::world::World;
