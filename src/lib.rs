//! Pixel grids and their plain-text PPM image serialization.

pub mod canvas;
pub mod channels;
pub mod decimal;
pub mod ppm;
