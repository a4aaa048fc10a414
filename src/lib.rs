//! Perceptual distance between colors of a 16-bit 5/6/5 display buffer.
//!
//! The verified part of the library holds the color types, the metric's
//! handle and the widening of a packed 5/6/5 color to eight bits per channel.
pub mod color;
pub mod metric;

pub use color::{Rgb565, Rgb888};
pub use metric::CIEDE2000;
