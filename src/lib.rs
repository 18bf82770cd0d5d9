//! Rendering logic of a small ray tracer: the raster that a camera sweeps,
//! nearest-hit resolution over a scene's elements, the shadow decision for a
//! light, and the display channels of a shaded pixel.
//!
//! Geometry and shading arithmetic are carried out by the host in floating
//! point. What reaches this library are plain values: pixel indices, distance
//! keys (see [`distance`]) and channel levels.
pub mod color;
pub mod distance;
pub mod raster;
pub mod shadow;
pub mod trace;
