//! Verified models of a family of 2D drawing demos.
//!
//! Each demo is a fixed script of drawing commands (paths, fills, strokes,
//! gradients, patterns, text, transforms) aimed at a raster surface of fixed
//! dimensions. The library builds those scripts as plain data with exact
//! rational coordinates, proves what each script contains, and models the
//! drawing state and the pixel effect of the solid-color subset. Rendering
//! the scripts and writing PNG files is left to an unverified front end.

pub mod cmd;
pub mod demos;
pub mod ramp;
pub mod raster;
mod rng;
pub mod scalar;
pub mod state;
pub mod text;
