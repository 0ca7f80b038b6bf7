//! Drawing single pixels by display coordinates.
//!
//! A pixel is addressed by its position on the whole display, `x` counting
//! columns from the left across all panels and `y` counting rows from the
//! top. Whether a position lies on the display is decided by the bounding
//! box of `embedded-graphics-core`, so that drawing here clips exactly as the
//! drawing primitives of that crate expect.

use embedded_graphics_core::geometry::{Point, Size};
use embedded_graphics_core::primitives::Rectangle;
use vstd::prelude::*;

verus! {

/// One pixel to draw: a position on the display and whether it is lit.
#[derive(Debug, Clone, Copy, PartialEq, Eq, Structural)]
pub struct Pixel {
    /// Column on the whole display, counted from the left edge.
    pub x: i32,
    /// Row, counted from the top edge.
    pub y: i32,
    /// Whether the pixel is lit.
    pub on: bool,
}

/// Whether the position `(x, y)` lies in the rectangle of `width` by `height`
/// pixels whose top left corner is the origin.
pub open spec fn in_bounds(width: int, height: int, x: int, y: int) -> bool {
    0 <= x < width && 0 <= y < height
}

/// Whether the bounding box of a display of `width` by `height` pixels
/// contains the position `(x, y)`.
///
/// Calls `Rectangle::contains` of `embedded-graphics-core` on the rectangle
/// with its top left corner at the origin and the given size. The contract
/// claims that this is the test `0 <= x < width && 0 <= y < height`; with a
/// width or height of zero the rectangle contains nothing. The sizes are
/// limited to what the crate can add to an `i32` coordinate.
#[verifier::external_body]
pub(crate) fn bounding_box_contains(width: u32, height: u32, x: i32, y: i32) -> (inside: bool)
    requires
        width <= i32::MAX,
        height <= i32::MAX,
    ensures
        inside == in_bounds(width as int, height as int, x as int, y as int),
{
    Rectangle::new(Point::zero(), Size::new(width, height)).contains(Point::new(x, y))
}

} // verus!
