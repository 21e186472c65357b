//! The 3D engine: its command FIFO, polygon types, clipping planes and
//! texture palette cache.
pub mod commandfifo;
pub mod types;
pub mod clip;
pub mod palette;
pub mod drawing;
pub mod raster;
pub mod render;
pub mod math;
pub mod matrix;
