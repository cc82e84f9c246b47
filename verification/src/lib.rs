//! Verified geometry core of a bar-spectrum audio visualizer.
//!
//! Each animation frame maps an array of frequency magnitudes (bytes,
//! bass to treble) to the vertex data of 128 glowing bars. All geometry
//! is computed in exact fixed-point subpixel units (`SCALE` units per
//! pixel), so every coordinate, gamma value and color channel that the
//! renderer emits is pinned down by a contract. The embedding
//! application converts these integers to GPU floats and issues the
//! draw call; nothing here touches the GPU.

pub mod gamma;
pub mod geometry;
pub mod layout;
pub mod model;
pub mod shading;

use vstd::prelude::*;

verus! {

/// Fixed-point subpixel units per pixel. Chosen so that every layout
/// fraction the renderer uses (5% padding, 90%/128 slots, 70% bar
/// width, 35% maximum bar height, half of each) is a whole number of
/// units per pixel.
pub const SCALE: i64 = 819200;

/// Number of bars in the spectrum.
pub const NUM_BARS: usize = 128;

/// Largest accepted viewport dimension, in pixels. Far beyond any
/// drawable surface; keeps every subpixel coordinate and every
/// intermediate product comfortably inside 64-bit arithmetic.
pub const MAX_DIM: u32 = 1_000_000;

} // verus!
