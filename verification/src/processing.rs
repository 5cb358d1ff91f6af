//! The tile engine: geometry, the joining of band tiles, the index
//! calculators, and the planning of a run.

pub mod grid;
pub mod indices;
pub mod join;
pub mod options;
pub mod parallel;
pub mod tile;

pub use parallel::ParallelProcessor;
