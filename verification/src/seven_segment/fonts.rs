//! Fonts for 7-segment displays: segment patterns looked up by character.

use vstd::prelude::*;
use vstd::slice::slice_index_get;

verus! {

/// 7-segment font: a table of characters, each with its segment pattern.
///
/// The bits of a pattern are the segments `DP A B C D E F G`, most
/// significant first:
///
/// ```text
///   A
/// F   B
///   G
/// E   C
///   D    DP
/// ```
pub struct Font {
    char_map: &'static [(char, u8)],
}

/// The segment pattern of the first entry for `ch` at or after index `start`;
/// blank (0) without one.
pub open spec fn find_segments(entries: Seq<(char, u8)>, ch: char, start: int) -> u8
    decreases entries.len() - start,
{
    if start < 0 || start >= entries.len() {
        0x00
    } else if entries[start].0 == ch {
        entries[start].1
    } else {
        find_segments(entries, ch, start + 1)
    }
}

/// The segment pattern that the standard font shows for `ch`.
pub open spec fn standard_segments(ch: char) -> u8 {
    find_segments(STANDARD_FONT_DATA@, ch, 0)
}

impl Font {
    /// The table of the font, in lookup order.
    pub closed spec fn entries(&self) -> Seq<(char, u8)> {
        self.char_map@
    }

    /// The segment pattern that the font shows for `ch`: that of the first
    /// entry for `ch`, or blank for a character without an entry.
    pub open spec fn segments(&self, ch: char) -> u8 {
        find_segments(self.entries(), ch, 0)
    }

    /// Create a new font from character mappings
    pub fn new(char_map: &'static [(char, u8)]) -> (font: Self)
        ensures
            font.entries() == char_map@,
    {
        Self { char_map }
    }

    /// Get segment pattern for a character
    ///
    /// Unknown characters are shown blank.
    pub fn get_char(&self, ch: char) -> (segments: u8)
        ensures
            segments == self.segments(ch),
    {
        let mut i: usize = 0;
        while i < self.char_map.len()
            invariant
                i <= self.char_map@.len(),
                find_segments(self.char_map@, ch, 0) == find_segments(
                    self.char_map@,
                    ch,
                    i as int,
                ),
            decreases self.char_map@.len() - i,
        {
            let entry = slice_index_get(self.char_map, i);
            if entry.0 == ch {
                return entry.1;
            }
            i += 1;
        }
        0x00
    }
}

/// The standard 7-segment font.
pub fn standard_font() -> (font: Font)
    ensures
        font.entries() == STANDARD_FONT_DATA@,
{
    Font::new(vstd::array::array_as_slice(&STANDARD_FONT_DATA))
}

/// The table of the standard 7-segment font.
pub const STANDARD_FONT_DATA: [(char, u8); 22] = [
    ('0', 0b01111110),
    ('1', 0b00110000),
    ('2', 0b01101101),
    ('3', 0b01111001),
    ('4', 0b00110011),
    ('5', 0b01011011),
    ('6', 0b01011111),
    ('7', 0b01110000),
    ('8', 0b01111111),
    ('9', 0b01111011),
    ('A', 0b01110111),
    ('B', 0b00011111),
    ('C', 0b01001110),
    ('D', 0b00111101),
    ('E', 0b01001111),
    ('F', 0b01000111),
    ('H', 0b00110111),
    ('L', 0b00001110),
    ('P', 0b01100111),
    ('U', 0b00111110),
    ('-', 0b00000001),
    (' ', 0b00000000),
];

} // verus!
