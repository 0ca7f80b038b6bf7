//! Verified encoder for chains of MAX7219 LED display controllers.
//!
//! The crate turns register writes, framebuffer contents and scrolling text
//! into the exact byte frames that have to travel over the serial bus. It
//! never touches the bus itself: every operation hands back the frames to
//! transmit, one frame per bus transaction, in transmission order.

pub mod driver;
pub mod error;
pub mod led_matrix;
pub mod registers;
pub mod seven_segment;

pub use driver::Max7219;
pub use error::Error;
pub use led_matrix::LedMatrix;
pub use registers::{DecodeMode, Register};
pub use seven_segment::SevenSegment;

use vstd::prelude::*;

verus! {

/// Maximum number of daisy-chained devices supported.
pub const MAX_DISPLAYS: usize = 8;

/// Number of digit (row) registers controlled by one device.
pub const NUM_DIGITS: u8 = 8;

} // verus!
