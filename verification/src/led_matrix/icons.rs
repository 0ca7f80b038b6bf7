//! Predefined 8x8 icons for LED matrix

use crate::led_matrix::bitmaps::{
    ARROW_DOWN, ARROW_LEFT, ARROW_RIGHT, ARROW_UP, CHECKMARK, CIRCLE, HEART, MUSIC_NOTE, SMILEY,
    X_MARK,
};
use crate::led_matrix::buffer::MatrixBuffer;
use vstd::prelude::*;

verus! {

/// Predefined 8x8 icon patterns.
///
/// To convert an `Icon` into a displayable buffer, use `.to_buffer()`.
#[derive(Debug, Clone, Copy)]
pub enum Icon {
    /// Heart shape
    Heart,
    /// Smiley face
    Smiley,
    /// Upward pointing arrow
    ArrowUp,
    /// Downward pointing arrow
    ArrowDown,
    /// Left pointing arrow
    ArrowLeft,
    /// Right pointing arrow
    ArrowRight,
    /// Checkmark symbol
    Checkmark,
    /// X mark symbol
    XMark,
    /// Musical note symbol
    MusicNote,
    /// circle
    Circle,
}

impl Icon {
    /// The pattern of the icon, one byte per row, top row first.
    pub open spec fn bitmap(&self) -> [u8; 8] {
        match self {
            Icon::Heart => HEART,
            Icon::Smiley => SMILEY,
            Icon::ArrowUp => ARROW_UP,
            Icon::ArrowDown => ARROW_DOWN,
            Icon::ArrowLeft => ARROW_LEFT,
            Icon::ArrowRight => ARROW_RIGHT,
            Icon::Checkmark => CHECKMARK,
            Icon::XMark => X_MARK,
            Icon::MusicNote => MUSIC_NOTE,
            Icon::Circle => CIRCLE,
        }
    }

    /// Convert the icon into a `MatrixBuffer` holding its pattern.
    pub fn to_buffer(&self) -> (buffer: MatrixBuffer)
        ensures
            buffer@ == self.bitmap()@,
    {
        match self {
            Icon::Heart => MatrixBuffer::from_data(HEART),
            Icon::Smiley => MatrixBuffer::from_data(SMILEY),
            Icon::ArrowUp => MatrixBuffer::from_data(ARROW_UP),
            Icon::ArrowDown => MatrixBuffer::from_data(ARROW_DOWN),
            Icon::ArrowLeft => MatrixBuffer::from_data(ARROW_LEFT),
            Icon::ArrowRight => MatrixBuffer::from_data(ARROW_RIGHT),
            Icon::Checkmark => MatrixBuffer::from_data(CHECKMARK),
            Icon::XMark => MatrixBuffer::from_data(X_MARK),
            Icon::MusicNote => MatrixBuffer::from_data(MUSIC_NOTE),
            Icon::Circle => MatrixBuffer::from_data(CIRCLE),
        }
    }
}

} // verus!
