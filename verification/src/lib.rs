//! A two-dimensional falling-sand material simulator.
//!
//! A rectangular grid of cells, each holding one material sample with a
//! temperature, is advanced tick by tick: heat diffuses between neighbouring
//! cells, every cell's phase follows from its temperature, and mass moves
//! under gravity according to phase.

pub mod material;
pub mod registry;
pub mod cell;
pub mod model;
pub mod grid;
pub mod motion;
pub mod solver;
pub mod motion_laws;
pub mod heat;
pub mod heat_laws;
pub mod render;
pub mod simulation;
pub mod tick_laws;
