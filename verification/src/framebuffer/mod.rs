//! The display side: refresh selection, pixel arithmetic and dithering.

pub mod controller;
pub mod dither;
pub mod pixel;
pub mod refresh;
