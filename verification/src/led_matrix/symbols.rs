//! Predefined 8x8 symbols for LED matrix

use crate::led_matrix::bitmaps::{
    ARROW_DOWN, ARROW_LEFT, ARROW_RIGHT, ARROW_UP, CHECKMARK, CIRCLE, HEART, MUSIC_NOTE, SAD_FACE,
    SMILEY, X_MARK,
};
use crate::led_matrix::buffer::MatrixBuffer;
use vstd::prelude::*;

verus! {

/// Predefined 8x8 symbols.
///
/// To convert a `Symbol` into a displayable buffer, use `.to_buffer()`.
#[derive(Debug, Clone, Copy)]
pub enum Symbol {
    /// Heart shape
    Heart,
    /// Smiley face
    Smiley,
    /// Sad face
    SadFace,
    /// Upward pointing arrow
    ArrowUp,
    /// Downward pointing arrow
    ArrowDown,
    /// Left pointing arrow
    ArrowLeft,
    /// Right pointing arrow
    ArrowRight,
    /// Checkmark symbol
    Checkmark,
    /// X mark symbol
    XMark,
    /// Musical note symbol
    MusicNote,
    /// circle
    Circle,
}

impl Symbol {
    /// The pattern of the symbol, one byte per row, top row first.
    pub open spec fn bitmap(&self) -> [u8; 8] {
        match self {
            Symbol::Heart => HEART,
            Symbol::Smiley => SMILEY,
            Symbol::SadFace => SAD_FACE,
            Symbol::ArrowUp => ARROW_UP,
            Symbol::ArrowDown => ARROW_DOWN,
            Symbol::ArrowLeft => ARROW_LEFT,
            Symbol::ArrowRight => ARROW_RIGHT,
            Symbol::Checkmark => CHECKMARK,
            Symbol::XMark => X_MARK,
            Symbol::MusicNote => MUSIC_NOTE,
            Symbol::Circle => CIRCLE,
        }
    }

    /// Convert the symbol into a `MatrixBuffer` holding its pattern.
    pub fn to_buffer(&self) -> (buffer: MatrixBuffer)
        ensures
            buffer@ == self.bitmap()@,
    {
        match self {
            Symbol::Heart => MatrixBuffer::from_data(HEART),
            Symbol::Smiley => MatrixBuffer::from_data(SMILEY),
            Symbol::SadFace => MatrixBuffer::from_data(SAD_FACE),
            Symbol::ArrowUp => MatrixBuffer::from_data(ARROW_UP),
            Symbol::ArrowDown => MatrixBuffer::from_data(ARROW_DOWN),
            Symbol::ArrowLeft => MatrixBuffer::from_data(ARROW_LEFT),
            Symbol::ArrowRight => MatrixBuffer::from_data(ARROW_RIGHT),
            Symbol::Checkmark => MatrixBuffer::from_data(CHECKMARK),
            Symbol::XMark => MatrixBuffer::from_data(X_MARK),
            Symbol::MusicNote => MatrixBuffer::from_data(MUSIC_NOTE),
            Symbol::Circle => MatrixBuffer::from_data(CIRCLE),
        }
    }
}

} // verus!
