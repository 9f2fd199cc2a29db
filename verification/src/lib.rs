//! Wrap text in ANSI terminal color escape sequences.

pub mod brush;
pub mod color;
pub mod fold;

pub use brush::Brush;
pub use color::Color;
