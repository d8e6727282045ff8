//! Procedural generation of a night-time city skyline.
//!
//! The crate lays out buildings and their windows, rasterizes them onto an
//! RGB canvas with clipping at the canvas edge, and scatters stars over a
//! grid of cells.
pub mod building;
pub mod canvas;
pub mod common;
pub mod constants;
pub mod math;
pub mod nightsky;
pub mod random;
pub mod skyline;
pub mod window;
