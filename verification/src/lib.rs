//! Verified core of a Monte-Carlo path tracer.
//!
//! The renderer's integer and byte logic lives here: 8-bit colours, the
//! PPM pixel buffer and its serialisation, the Perlin permutation tables
//! with their gradient indexing, and the progress-bar cells. The
//! floating-point geometry, materials and the radiance integrator are
//! driven by an unverified front end that feeds its results through the
//! types of this crate.

pub mod color;
pub mod image;
pub mod perlin;
pub mod progress;
pub mod texture;
