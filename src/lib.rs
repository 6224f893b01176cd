//! Falling-character rain rendered into a double-buffered cell grid, with a
//! post-processing filter chain and a crossfade between two animated sources.
//!
//! Fractions are integers in thousandths (`1000` is one), times are integer
//! microseconds, and every random decision draws from an explicit `StdRng`.

mod random;
mod text;

pub mod buffer;
pub mod chars;
pub mod color;
pub mod column;
pub mod config;
pub mod crt;
pub mod css_colors;
pub mod effects;
pub mod field;
pub mod overlay;
pub mod palette;
pub mod transition;
