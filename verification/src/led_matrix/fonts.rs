//! Fonts for LED matrix displays: 8x8 glyphs looked up by character.

use vstd::prelude::*;
use vstd::slice::slice_index_get;

verus! {

/// The glyph drawn for a character that a font has no entry for, and no
/// entry for `'?'` either: all pixels off.
pub const BLANK_GLYPH: [u8; 8] = [0, 0, 0, 0, 0, 0, 0, 0];

/// A font for 8x8 LED matrices: a table of glyphs, each with the character
/// that it draws.
///
/// A glyph is eight row bytes, top row first, leftmost column in the most
/// significant bit.
pub struct LedFont {
    char_map: &'static [([u8; 8], char)],
}

/// The glyph of the first entry for `ch` at or after index `start`, if there
/// is one.
pub open spec fn find_glyph(entries: Seq<([u8; 8], char)>, ch: char, start: int) -> Option<
    [u8; 8],
>
    decreases entries.len() - start,
{
    if start < 0 || start >= entries.len() {
        None
    } else if entries[start].1 == ch {
        Some(entries[start].0)
    } else {
        find_glyph(entries, ch, start + 1)
    }
}

/// The glyph that a font with the table `entries` draws for `ch`: that of the
/// first entry for `ch`; without one, that of the first entry for `'?'`;
/// without that too, the blank glyph.
pub open spec fn glyph_in(entries: Seq<([u8; 8], char)>, ch: char) -> [u8; 8] {
    match find_glyph(entries, ch, 0) {
        Some(bitmap) => bitmap,
        None => match find_glyph(entries, '?', 0) {
            Some(bitmap) => bitmap,
            None => BLANK_GLYPH,
        },
    }
}

/// The glyph that the standard font draws for `ch`.
pub open spec fn standard_glyph(ch: char) -> [u8; 8] {
    glyph_in(STANDARD_LED_FONT_DATA@, ch)
}

impl LedFont {
    /// The table of the font, in lookup order.
    pub closed spec fn entries(&self) -> Seq<([u8; 8], char)> {
        self.char_map@
    }

    /// The glyph that the font draws for `ch`.
    pub open spec fn glyph(&self, ch: char) -> [u8; 8] {
        glyph_in(self.entries(), ch)
    }

    /// Create a new font from a table of glyphs.
    pub fn new(char_map: &'static [([u8; 8], char)]) -> (font: Self)
        ensures
            font.entries() == char_map@,
    {
        Self { char_map }
    }

    /// Looks `ch` up in the table.
    fn find(&self, ch: char) -> (found: Option<[u8; 8]>)
        ensures
            found == find_glyph(self.entries(), ch, 0),
    {
        let mut i: usize = 0;
        while i < self.char_map.len()
            invariant
                i <= self.char_map@.len(),
                find_glyph(self.char_map@, ch, 0) == find_glyph(self.char_map@, ch, i as int),
            decreases self.char_map@.len() - i,
        {
            let entry = slice_index_get(self.char_map, i);
            if entry.1 == ch {
                return Some(entry.0);
            }
            i += 1;
        }
        None
    }

    /// Get the glyph for a character.
    ///
    /// A character without an entry is drawn as `'?'`, or blank where the
    /// font has no `'?'` either.
    pub fn get_char(&self, ch: char) -> (bitmap: [u8; 8])
        ensures
            bitmap == self.glyph(ch),
    {
        match self.find(ch) {
            Some(bitmap) => bitmap,
            None => match self.find('?') {
                Some(bitmap) => bitmap,
                None => BLANK_GLYPH,
            },
        }
    }
}

/// The standard font.
pub fn standard_led_font() -> (font: LedFont)
    ensures
        font.entries() == STANDARD_LED_FONT_DATA@,
{
    LedFont::new(vstd::array::array_as_slice(&STANDARD_LED_FONT_DATA))
}

/// The glyphs of the standard font: the printable ASCII characters, each as
/// eight row bytes, top row first, leftmost column in the most significant bit.
pub const STANDARD_LED_FONT_DATA: [([u8; 8], char); 95] = [
    (
        [
            0b00000000,
            0b00000000,
            0b00000000,
            0b00000000,
            0b00000000,
            0b00000000,
            0b00000000,
            0b00000000,
        ],
        ' ',
    ),
    (
        [
            0b00011000,
            0b00011000,
            0b00011000,
            0b00011000,
            0b00000000,
            0b00000000,
            0b00011000,
            0b00000000,
        ],
        '!',
    ),
    (
        [
            0b01100110,
            0b01100110,
            0b01100110,
            0b00000000,
            0b00000000,
            0b00000000,
            0b00000000,
            0b00000000,
        ],
        '"',
    ),
    (
        [
            0b01100110,
            0b01100110,
            0b11111111,
            0b01100110,
            0b11111111,
            0b01100110,
            0b01100110,
            0b00000000,
        ],
        '#',
    ),
    (
        [
            0b00011000,
            0b00111110,
            0b01100000,
            0b00111100,
            0b00000110,
            0b01111100,
            0b00011000,
            0b00000000,
        ],
        '$',
    ),
    (
        [
            0b01100010,
            0b01100110,
            0b00001100,
            0b00011000,
            0b00110000,
            0b01100110,
            0b01000110,
            0b00000000,
        ],
        '%',
    ),
    (
        [
            0b00111100,
            0b01100110,
            0b00111100,
            0b00111000,
            0b01100111,
            0b01100110,
            0b00111111,
            0b00000000,
        ],
        '&',
    ),
    (
        [
            0b00000110,
            0b00001100,
            0b00011000,
            0b00000000,
            0b00000000,
            0b00000000,
            0b00000000,
            0b00000000,
        ],
        '\'',
    ),
    (
        [
            0b00001100,
            0b00011000,
            0b00110000,
            0b00110000,
            0b00110000,
            0b00011000,
            0b00001100,
            0b00000000,
        ],
        '(',
    ),
    (
        [
            0b00110000,
            0b00011000,
            0b00001100,
            0b00001100,
            0b00001100,
            0b00011000,
            0b00110000,
            0b00000000,
        ],
        ')',
    ),
    (
        [
            0b00000000,
            0b01100110,
            0b00111100,
            0b11111111,
            0b00111100,
            0b01100110,
            0b00000000,
            0b00000000,
        ],
        '*',
    ),
    (
        [
            0b00000000,
            0b00011000,
            0b00011000,
            0b01111110,
            0b00011000,
            0b00011000,
            0b00000000,
            0b00000000,
        ],
        '+',
    ),
    (
        [
            0b00000000,
            0b00000000,
            0b00000000,
            0b00000000,
            0b00000000,
            0b00011000,
            0b00011000,
            0b00110000,
        ],
        ',',
    ),
    (
        [
            0b00000000,
            0b00000000,
            0b00000000,
            0b01111110,
            0b00000000,
            0b00000000,
            0b00000000,
            0b00000000,
        ],
        '-',
    ),
    (
        [
            0b00000000,
            0b00000000,
            0b00000000,
            0b00000000,
            0b00000000,
            0b00011000,
            0b00011000,
            0b00000000,
        ],
        '.',
    ),
    (
        [
            0b00000000,
            0b00000011,
            0b00000110,
            0b00001100,
            0b00011000,
            0b00110000,
            0b01100000,
            0b00000000,
        ],
        '/',
    ),
    (
        [
            0b00111100,
            0b01100110,
            0b01101110,
            0b01110110,
            0b01100110,
            0b01100110,
            0b00111100,
            0b00000000,
        ],
        '0',
    ),
    (
        [
            0b00011000,
            0b00111000,
            0b00011000,
            0b00011000,
            0b00011000,
            0b00011000,
            0b01111110,
            0b00000000,
        ],
        '1',
    ),
    (
        [
            0b00111100,
            0b01100110,
            0b00000110,
            0b00001100,
            0b00110000,
            0b01100000,
            0b01111110,
            0b00000000,
        ],
        '2',
    ),
    (
        [
            0b00111100,
            0b01100110,
            0b00000110,
            0b00011100,
            0b00000110,
            0b01100110,
            0b00111100,
            0b00000000,
        ],
        '3',
    ),
    (
        [
            0b00000110,
            0b00001110,
            0b00011110,
            0b01100110,
            0b01111111,
            0b00000110,
            0b00000110,
            0b00000000,
        ],
        '4',
    ),
    (
        [
            0b01111110,
            0b01100000,
            0b01111100,
            0b00000110,
            0b00000110,
            0b01100110,
            0b00111100,
            0b00000000,
        ],
        '5',
    ),
    (
        [
            0b00111100,
            0b01100110,
            0b01100000,
            0b01111100,
            0b01100110,
            0b01100110,
            0b00111100,
            0b00000000,
        ],
        '6',
    ),
    (
        [
            0b01111110,
            0b01100110,
            0b00001100,
            0b00011000,
            0b00011000,
            0b00011000,
            0b00011000,
            0b00000000,
        ],
        '7',
    ),
    (
        [
            0b00111100,
            0b01100110,
            0b01100110,
            0b00111100,
            0b01100110,
            0b01100110,
            0b00111100,
            0b00000000,
        ],
        '8',
    ),
    (
        [
            0b00111100,
            0b01100110,
            0b01100110,
            0b00111110,
            0b00000110,
            0b01100110,
            0b00111100,
            0b00000000,
        ],
        '9',
    ),
    (
        [
            0b00000000,
            0b00000000,
            0b00011000,
            0b00000000,
            0b00000000,
            0b00011000,
            0b00000000,
            0b00000000,
        ],
        ':',
    ),
    (
        [
            0b00000000,
            0b00000000,
            0b00011000,
            0b00000000,
            0b00000000,
            0b00011000,
            0b00011000,
            0b00110000,
        ],
        ';',
    ),
    (
        [
            0b00001110,
            0b00011000,
            0b00110000,
            0b01100000,
            0b00110000,
            0b00011000,
            0b00001110,
            0b00000000,
        ],
        '<',
    ),
    (
        [
            0b00000000,
            0b00000000,
            0b01111110,
            0b00000000,
            0b01111110,
            0b00000000,
            0b00000000,
            0b00000000,
        ],
        '=',
    ),
    (
        [
            0b01110000,
            0b00011000,
            0b00001100,
            0b00000110,
            0b00001100,
            0b00011000,
            0b01110000,
            0b00000000,
        ],
        '>',
    ),
    (
        [
            0b00111100,
            0b01100110,
            0b00000110,
            0b00001100,
            0b00011000,
            0b00000000,
            0b00011000,
            0b00000000,
        ],
        '?',
    ),
    (
        [
            0b00111100,
            0b01100110,
            0b01101110,
            0b01101110,
            0b01100000,
            0b01100010,
            0b00111100,
            0b00000000,
        ],
        '@',
    ),
    (
        [
            0b00011000,
            0b00111100,
            0b01100110,
            0b01111110,
            0b01100110,
            0b01100110,
            0b01100110,
            0b00000000,
        ],
        'A',
    ),
    (
        [
            0b01111100,
            0b01100110,
            0b01100110,
            0b01111100,
            0b01100110,
            0b01100110,
            0b01111100,
            0b00000000,
        ],
        'B',
    ),
    (
        [
            0b00111100,
            0b01100110,
            0b01100000,
            0b01100000,
            0b01100000,
            0b01100110,
            0b00111100,
            0b00000000,
        ],
        'C',
    ),
    (
        [
            0b01111000,
            0b01101100,
            0b01100110,
            0b01100110,
            0b01100110,
            0b01101100,
            0b01111000,
            0b00000000,
        ],
        'D',
    ),
    (
        [
            0b01111110,
            0b01100000,
            0b01100000,
            0b01111000,
            0b01100000,
            0b01100000,
            0b01111110,
            0b00000000,
        ],
        'E',
    ),
    (
        [
            0b01111110,
            0b01100000,
            0b01100000,
            0b01111000,
            0b01100000,
            0b01100000,
            0b01100000,
            0b00000000,
        ],
        'F',
    ),
    (
        [
            0b00111100,
            0b01100110,
            0b01100000,
            0b01101110,
            0b01100110,
            0b01100110,
            0b00111100,
            0b00000000,
        ],
        'G',
    ),
    (
        [
            0b01100110,
            0b01100110,
            0b01100110,
            0b01111110,
            0b01100110,
            0b01100110,
            0b01100110,
            0b00000000,
        ],
        'H',
    ),
    (
        [
            0b00111100,
            0b00011000,
            0b00011000,
            0b00011000,
            0b00011000,
            0b00011000,
            0b00111100,
            0b00000000,
        ],
        'I',
    ),
    (
        [
            0b00011110,
            0b00001100,
            0b00001100,
            0b00001100,
            0b00001100,
            0b01101100,
            0b00111000,
            0b00000000,
        ],
        'J',
    ),
    (
        [
            0b01100110,
            0b01101100,
            0b01111000,
            0b01110000,
            0b01111000,
            0b01101100,
            0b01100110,
            0b00000000,
        ],
        'K',
    ),
    (
        [
            0b01100000,
            0b01100000,
            0b01100000,
            0b01100000,
            0b01100000,
            0b01100000,
            0b01111110,
            0b00000000,
        ],
        'L',
    ),
    (
        [
            0b01100011,
            0b01110111,
            0b01111111,
            0b01101011,
            0b01100011,
            0b01100011,
            0b01100011,
            0b00000000,
        ],
        'M',
    ),
    (
        [
            0b01100110,
            0b01110110,
            0b01111110,
            0b01111110,
            0b01101110,
            0b01100110,
            0b01100110,
            0b00000000,
        ],
        'N',
    ),
    (
        [
            0b00111100,
            0b01100110,
            0b01100110,
            0b01100110,
            0b01100110,
            0b01100110,
            0b00111100,
            0b00000000,
        ],
        'O',
    ),
    (
        [
            0b01111100,
            0b01100110,
            0b01100110,
            0b01111100,
            0b01100000,
            0b01100000,
            0b01100000,
            0b00000000,
        ],
        'P',
    ),
    (
        [
            0b00111100,
            0b01100110,
            0b01100110,
            0b01100110,
            0b01100110,
            0b00111100,
            0b00001110,
            0b00000000,
        ],
        'Q',
    ),
    (
        [
            0b01111100,
            0b01100110,
            0b01100110,
            0b01111100,
            0b01111000,
            0b01101100,
            0b01100110,
            0b00000000,
        ],
        'R',
    ),
    (
        [
            0b00111100,
            0b01100110,
            0b01100000,
            0b00111100,
            0b00000110,
            0b01100110,
            0b00111100,
            0b00000000,
        ],
        'S',
    ),
    (
        [
            0b01111110,
            0b00011000,
            0b00011000,
            0b00011000,
            0b00011000,
            0b00011000,
            0b00011000,
            0b00000000,
        ],
        'T',
    ),
    (
        [
            0b01100110,
            0b01100110,
            0b01100110,
            0b01100110,
            0b01100110,
            0b01100110,
            0b00111100,
            0b00000000,
        ],
        'U',
    ),
    (
        [
            0b01100110,
            0b01100110,
            0b01100110,
            0b01100110,
            0b01100110,
            0b00111100,
            0b00011000,
            0b00000000,
        ],
        'V',
    ),
    (
        [
            0b01100011,
            0b01100011,
            0b01100011,
            0b01101011,
            0b01111111,
            0b01110111,
            0b01100011,
            0b00000000,
        ],
        'W',
    ),
    (
        [
            0b01100110,
            0b01100110,
            0b00111100,
            0b00011000,
            0b00111100,
            0b01100110,
            0b01100110,
            0b00000000,
        ],
        'X',
    ),
    (
        [
            0b01100110,
            0b01100110,
            0b01100110,
            0b00111100,
            0b00011000,
            0b00011000,
            0b00011000,
            0b00000000,
        ],
        'Y',
    ),
    (
        [
            0b01111110,
            0b00000110,
            0b00001100,
            0b00011000,
            0b00110000,
            0b01100000,
            0b01111110,
            0b00000000,
        ],
        'Z',
    ),
    (
        [
            0b00111100,
            0b00110000,
            0b00110000,
            0b00110000,
            0b00110000,
            0b00110000,
            0b00111100,
            0b00000000,
        ],
        '[',
    ),
    (
        [
            0b00000000,
            0b01100000,
            0b00110000,
            0b00011000,
            0b00001100,
            0b00000110,
            0b00000011,
            0b00000000,
        ],
        '\\',
    ),
    (
        [
            0b00111100,
            0b00001100,
            0b00001100,
            0b00001100,
            0b00001100,
            0b00001100,
            0b00111100,
            0b00000000,
        ],
        ']',
    ),
    (
        [
            0b00011000,
            0b00111100,
            0b01100110,
            0b00000000,
            0b00000000,
            0b00000000,
            0b00000000,
            0b00000000,
        ],
        '^',
    ),
    (
        [
            0b00000000,
            0b00000000,
            0b00000000,
            0b00000000,
            0b00000000,
            0b00000000,
            0b00000000,
            0b11111111,
        ],
        '_',
    ),
    (
        [
            0b00110000,
            0b00011000,
            0b00001100,
            0b00000000,
            0b00000000,
            0b00000000,
            0b00000000,
            0b00000000,
        ],
        '`',
    ),
    (
        [
            0b00000000,
            0b00000000,
            0b00111100,
            0b00000110,
            0b00111110,
            0b01100110,
            0b00111110,
            0b00000000,
        ],
        'a',
    ),
    (
        [
            0b00000000,
            0b01100000,
            0b01100000,
            0b01111100,
            0b01100110,
            0b01100110,
            0b01111100,
            0b00000000,
        ],
        'b',
    ),
    (
        [
            0b00000000,
            0b00000000,
            0b00111100,
            0b01100000,
            0b01100000,
            0b01100000,
            0b00111100,
            0b00000000,
        ],
        'c',
    ),
    (
        [
            0b00000000,
            0b00000110,
            0b00000110,
            0b00111110,
            0b01100110,
            0b01100110,
            0b00111110,
            0b00000000,
        ],
        'd',
    ),
    (
        [
            0b00000000,
            0b00000000,
            0b00111100,
            0b01100110,
            0b01111110,
            0b01100000,
            0b00111100,
            0b00000000,
        ],
        'e',
    ),
    (
        [
            0b00000000,
            0b00001110,
            0b00011000,
            0b00111110,
            0b00011000,
            0b00011000,
            0b00011000,
            0b00000000,
        ],
        'f',
    ),
    (
        [
            0b00000000,
            0b00000000,
            0b00111110,
            0b01100110,
            0b01100110,
            0b00111110,
            0b00000110,
            0b01111100,
        ],
        'g',
    ),
    (
        [
            0b00000000,
            0b01100000,
            0b01100000,
            0b01111100,
            0b01100110,
            0b01100110,
            0b01100110,
            0b00000000,
        ],
        'h',
    ),
    (
        [
            0b00000000,
            0b00011000,
            0b00000000,
            0b00111000,
            0b00011000,
            0b00011000,
            0b00111100,
            0b00000000,
        ],
        'i',
    ),
    (
        [
            0b00000000,
            0b00000110,
            0b00000000,
            0b00000110,
            0b00000110,
            0b00000110,
            0b00000110,
            0b00111100,
        ],
        'j',
    ),
    (
        [
            0b00000000,
            0b01100000,
            0b01100000,
            0b01101100,
            0b01111000,
            0b01101100,
            0b01100110,
            0b00000000,
        ],
        'k',
    ),
    (
        [
            0b00000000,
            0b00111000,
            0b00011000,
            0b00011000,
            0b00011000,
            0b00011000,
            0b00111100,
            0b00000000,
        ],
        'l',
    ),
    (
        [
            0b00000000,
            0b00000000,
            0b01100110,
            0b01111111,
            0b01111111,
            0b01101011,
            0b01100011,
            0b00000000,
        ],
        'm',
    ),
    (
        [
            0b00000000,
            0b00000000,
            0b01111100,
            0b01100110,
            0b01100110,
            0b01100110,
            0b01100110,
            0b00000000,
        ],
        'n',
    ),
    (
        [
            0b00000000,
            0b00000000,
            0b00111100,
            0b01100110,
            0b01100110,
            0b01100110,
            0b00111100,
            0b00000000,
        ],
        'o',
    ),
    (
        [
            0b00000000,
            0b00000000,
            0b01111100,
            0b01100110,
            0b01100110,
            0b01111100,
            0b01100000,
            0b01100000,
        ],
        'p',
    ),
    (
        [
            0b00000000,
            0b00000000,
            0b00111110,
            0b01100110,
            0b01100110,
            0b00111110,
            0b00000110,
            0b00000110,
        ],
        'q',
    ),
    (
        [
            0b00000000,
            0b00000000,
            0b01111100,
            0b01100110,
            0b01100000,
            0b01100000,
            0b01100000,
            0b00000000,
        ],
        'r',
    ),
    (
        [
            0b00000000,
            0b00000000,
            0b00111110,
            0b01100000,
            0b00111100,
            0b00000110,
            0b01111100,
            0b00000000,
        ],
        's',
    ),
    (
        [
            0b00000000,
            0b00011000,
            0b01111110,
            0b00011000,
            0b00011000,
            0b00011000,
            0b00001110,
            0b00000000,
        ],
        't',
    ),
    (
        [
            0b00000000,
            0b00000000,
            0b01100110,
            0b01100110,
            0b01100110,
            0b01100110,
            0b00111110,
            0b00000000,
        ],
        'u',
    ),
    (
        [
            0b00000000,
            0b00000000,
            0b01100110,
            0b01100110,
            0b01100110,
            0b00111100,
            0b00011000,
            0b00000000,
        ],
        'v',
    ),
    (
        [
            0b00000000,
            0b00000000,
            0b01100011,
            0b01101011,
            0b01111111,
            0b00111110,
            0b00110110,
            0b00000000,
        ],
        'w',
    ),
    (
        [
            0b00000000,
            0b00000000,
            0b01100110,
            0b00111100,
            0b00011000,
            0b00111100,
            0b01100110,
            0b00000000,
        ],
        'x',
    ),
    (
        [
            0b00000000,
            0b00000000,
            0b01100110,
            0b01100110,
            0b01100110,
            0b00111110,
            0b00001100,
            0b01111000,
        ],
        'y',
    ),
    (
        [
            0b00000000,
            0b00000000,
            0b01111110,
            0b00001100,
            0b00011000,
            0b00110000,
            0b01111110,
            0b00000000,
        ],
        'z',
    ),
    (
        [
            0b00001110,
            0b00011000,
            0b00011000,
            0b01110000,
            0b00011000,
            0b00011000,
            0b00001110,
            0b00000000,
        ],
        '{',
    ),
    (
        [
            0b00011000,
            0b00011000,
            0b00011000,
            0b00011000,
            0b00011000,
            0b00011000,
            0b00011000,
            0b00011000,
        ],
        '|',
    ),
    (
        [
            0b01110000,
            0b00011000,
            0b00011000,
            0b00001110,
            0b00011000,
            0b00011000,
            0b01110000,
            0b00000000,
        ],
        '}',
    ),
    (
        [
            0b00000000,
            0b00000000,
            0b00110010,
            0b01111110,
            0b01001100,
            0b00000000,
            0b00000000,
            0b00000000,
        ],
        '~',
    ),
];

} // verus!
