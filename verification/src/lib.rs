//! Tile-based computation of spectral indices over aligned raster bands.

pub mod batch;
pub mod processing;
pub mod utils;
