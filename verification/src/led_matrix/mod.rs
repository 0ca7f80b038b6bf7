//! LED matrix displays: 8x8 panels driven row by row.

pub mod bitmaps;
pub mod buffer;
pub mod display;
pub mod fonts;
pub mod framebuffer;
pub mod graphics;
pub mod icons;
pub mod packing;
pub mod scroll;
pub mod symbols;

pub use display::LedMatrix;
