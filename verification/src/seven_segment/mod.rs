//! 7-segment displays: one digit register per digit position.

pub mod display;
pub mod fonts;

pub use display::SevenSegment;
pub use fonts::{standard_font, Font, STANDARD_FONT_DATA};
