//! A software triangle rasterizer: scanline fill of indexed triangle lists
//! into an in-memory color buffer, with backface culling and exact
//! fixed-point subpixel geometry.

pub mod buffer;
pub mod fps;
pub mod geom;
pub mod laws;
pub mod num;
pub mod raster;
pub mod stages;
