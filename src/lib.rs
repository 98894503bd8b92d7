//! Film-grain synthesis: grain populations generated from film-stock
//! physics, post-generation effects, and a rasterizer that composites the
//! grains into an RGBA buffer, with an optional accelerated backend and a
//! CPU fallback.
//!
//! All quantities are fixed point: positions and sizes in thousandths of a
//! pixel, ratios and opacities in thousandths (permille).

pub mod fixed;
pub mod model;
pub mod random;
pub mod generate;
pub mod cluster;
pub mod canvas;
pub mod raster;
pub mod effects;
pub mod backend;
pub mod pipeline;
pub mod composite;
