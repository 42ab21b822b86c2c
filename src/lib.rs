//! Geometry, region selection and annotation rasterization for a
//! screenshot capture-and-annotate tool.

pub mod capture;
pub mod error;
pub mod geometry;
pub mod raster;
pub mod session;
