//! The 8x8 patterns of the predefined icons and symbols, one byte per row,
//! top row first.

use vstd::prelude::*;

verus! {

/// Heart shape
pub const HEART: [u8; 8] = [
    0b00000000,
    0b01100110,
    0b11111111,
    0b11111111,
    0b11111111,
    0b01111110,
    0b00111100,
    0b00011000,
];

/// Smiley face
pub const SMILEY: [u8; 8] = [
    0b00111100,
    0b01000010,
    0b10100101,
    0b10000001,
    0b10100101,
    0b10011001,
    0b01000010,
    0b00111100,
];

/// Sad face
pub const SAD_FACE: [u8; 8] = [
    0b00111100,
    0b01000010,
    0b10100101,
    0b10000001,
    0b10011001,
    0b10100101,
    0b01000010,
    0b00111100,
];

/// Upward pointing arrow
pub const ARROW_UP: [u8; 8] = [
    0b00000000,
    0b00010000,
    0b00111000,
    0b01111100,
    0b11111110,
    0b00010000,
    0b00010000,
    0b00010000,
];

/// Downward pointing arrow
pub const ARROW_DOWN: [u8; 8] = [
    0b00010000,
    0b00010000,
    0b00010000,
    0b11111110,
    0b01111100,
    0b00111000,
    0b00010000,
    0b00000000,
];

/// Left pointing arrow
pub const ARROW_LEFT: [u8; 8] = [
    0b00001000,
    0b00011000,
    0b00111000,
    0b01111111,
    0b00111000,
    0b00011000,
    0b00001000,
    0b00000000,
];

/// Right pointing arrow
pub const ARROW_RIGHT: [u8; 8] = [
    0b00001000,
    0b00001100,
    0b00001110,
    0b11111111,
    0b00001110,
    0b00001100,
    0b00001000,
    0b00000000,
];

/// Checkmark
pub const CHECKMARK: [u8; 8] = [
    0b00000001,
    0b00000010,
    0b00000100,
    0b10001000,
    0b01010000,
    0b00100000,
    0b00000000,
    0b00000000,
];

/// X mark
pub const X_MARK: [u8; 8] = [
    0b10000001,
    0b01000010,
    0b00100100,
    0b00011000,
    0b00011000,
    0b00100100,
    0b01000010,
    0b10000001,
];

/// Musical note
pub const MUSIC_NOTE: [u8; 8] = [
    0b00011100,
    0b00010100,
    0b00011100,
    0b00010100,
    0b11010100,
    0b11110100,
    0b01110000,
    0b00100000,
];

/// Filled circle
pub const CIRCLE: [u8; 8] = [
    0b00111100,
    0b01111110,
    0b11111111,
    0b11111111,
    0b11111111,
    0b11111111,
    0b01111110,
    0b00111100,
];

} // verus!
