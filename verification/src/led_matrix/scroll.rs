//! Scrolling text for 8x8 LED matrices.
//!
//! The text is laid out as one strip of pixels, eight columns per character,
//! followed by blank padding when the text loops. A signed offset says which
//! column of the strip is at the left edge of the window.

use crate::error::Error;
use crate::led_matrix::buffer::MatrixBuffer;
use crate::led_matrix::fonts::LedFont;
use crate::led_matrix::packing::{column_on, pack_prefix, pack_row, read_column, with_column};
use vstd::prelude::*;
use vstd::string::StrSliceExecFns;

verus! {

/// Configuration for scrolling text behavior
#[derive(Clone, Copy, Debug)]
pub struct ScrollConfig {
    /// Delay between scroll steps in nanoseconds
    pub step_delay_ns: u32,
    /// Number of pixels to scroll per step (usually 1 for smooth scrolling)
    pub pixels_per_step: u8,
    /// Whether to loop the text continuously
    pub loop_text: bool,
    /// Padding between text repetitions when looping (in pixels)
    pub loop_padding: u8,
}

impl Default for ScrollConfig {
    /// One pixel every 100 ms, looping, with two character widths of padding.
    fn default() -> (config: Self)
        ensures
            config.step_delay_ns == 100_000_000,
            config.pixels_per_step == 1,
            config.loop_text,
            config.loop_padding == 16,
    {
        Self { step_delay_ns: 100_000_000, pixels_per_step: 1, loop_text: true, loop_padding: 16 }
    }
}

/// The width in pixels of the strip for a text of `chars` characters: eight
/// columns per character, plus the padding when the text loops.
pub open spec fn strip_width(chars: int, config: ScrollConfig) -> int {
    chars * 8 + if config.loop_text {
        config.loop_padding as int
    } else {
        0
    }
}

/// Whether the pixel in column `column` and row `row` of the strip is on.
///
/// Columns left of the strip are off. Columns right of it are off unless the
/// text loops, in which case the strip repeats. Within the strip, the
/// padding is off and a text column shows the glyph of its character.
pub open spec fn strip_pixel(
    text: Seq<char>,
    font: LedFont,
    config: ScrollConfig,
    column: int,
    row: int,
) -> bool {
    let width = strip_width(text.len() as int, config);
    if column < 0 {
        false
    } else if column >= width && !config.loop_text {
        false
    } else {
        let wrapped = if column >= width && width > 0 {
            column % width
        } else {
            column
        };
        if wrapped >= text.len() * 8 {
            false
        } else {
            column_on(font.glyph(text[wrapped / 8])[row], wrapped % 8)
        }
    }
}

/// Where a looping scroll stands after it has advanced to `advanced`: back at
/// 0 once it has reached the width of the strip.
pub open spec fn looped_offset(advanced: int, width: int) -> int {
    if advanced >= width {
        0
    } else {
        advanced
    }
}

/// Scrolling text renderer for LED matrix displays
pub struct ScrollingText<'a> {
    text: &'a str,
    font: &'a LedFont,
    config: ScrollConfig,
    text_width: usize,
    current_offset: i32,
}

impl<'a> ScrollingText<'a> {
    #[verifier::type_invariant]
    spec fn well_formed(self) -> bool {
        &&& self.text_width == strip_width(self.text@.len() as int, self.config)
        &&& self.text_width + 8 <= i32::MAX
    }

    /// The characters of the text.
    pub closed spec fn spec_text(&self) -> Seq<char> {
        self.text@
    }

    /// The font that the text is drawn in.
    pub closed spec fn spec_font(&self) -> LedFont {
        *self.font
    }

    /// The configuration of the scroll.
    pub closed spec fn spec_config(&self) -> ScrollConfig {
        self.config
    }

    /// The column of the strip at the left edge of the window.
    pub closed spec fn spec_offset(&self) -> i32 {
        self.current_offset
    }

    /// The width of the strip in pixels.
    pub open spec fn spec_text_width(&self) -> int {
        strip_width(self.spec_text().len() as int, self.spec_config())
    }

    /// Whether `self` scrolls the same text, in the same font and with the
    /// same configuration, as `other`.
    pub open spec fn same_strip(&self, other: &Self) -> bool {
        &&& self.spec_text() == other.spec_text()
        &&& self.spec_font() == other.spec_font()
        &&& self.spec_config() == other.spec_config()
    }

    /// Whether the pixel `source_col` columns right of the window's left edge
    /// is on in row `row`.
    pub open spec fn lit(&self, source_col: int, row: int) -> bool {
        strip_pixel(
            self.spec_text(),
            self.spec_font(),
            self.spec_config(),
            self.spec_offset() + source_col,
            row,
        )
    }

    /// The eight row bytes of the 8x8 window that starts `shift` columns
    /// right of the window's left edge.
    pub open spec fn window(&self, shift: int) -> Seq<u8> {
        Seq::new(8, |row: int| pack_row(Seq::new(8, |col: int| self.lit(shift + col, row))))
    }

    /// Create a new scrolling text instance, with the offset at 0.
    ///
    /// The strip must fit the offset's range with one window to spare.
    pub fn new(text: &'a str, font: &'a LedFont, config: ScrollConfig) -> (scroller: Self)
        requires
            strip_width(text@.len() as int, config) + 8 <= i32::MAX,
        ensures
            scroller.spec_text() == text@,
            scroller.spec_font() == *font,
            scroller.spec_config() == config,
            scroller.spec_offset() == 0,
    {
        let text_width = Self::calculate_text_width(text, config);
        Self { text, font, config, text_width, current_offset: 0 }
    }

    /// Create with default configuration
    pub fn new_default(text: &'a str, font: &'a LedFont) -> (scroller: Self)
        requires
            text@.len() * 8 + 16 + 8 <= i32::MAX,
        ensures
            scroller.spec_text() == text@,
            scroller.spec_font() == *font,
            scroller.spec_config().step_delay_ns == 100_000_000,
            scroller.spec_config().pixels_per_step == 1,
            scroller.spec_config().loop_text,
            scroller.spec_config().loop_padding == 16,
            scroller.spec_offset() == 0,
    {
        Self::new(text, font, ScrollConfig::default())
    }

    /// Calculate the width of the strip for `text`.
    pub fn calculate_text_width(text: &str, config: ScrollConfig) -> (width: usize)
        requires
            strip_width(text@.len() as int, config) + 8 <= i32::MAX,
        ensures
            width == strip_width(text@.len() as int, config),
    {
        let mut width: usize = text.unicode_len() * 8;
        if config.loop_text {
            width += config.loop_padding as usize;
        }
        width
    }

    /// The text that is scrolled.
    pub fn text(&self) -> (text: &'a str)
        ensures
            text@ == self.spec_text(),
    {
        self.text
    }

    /// The configuration of the scroll.
    pub fn config(&self) -> (config: ScrollConfig)
        ensures
            config == self.spec_config(),
    {
        self.config
    }

    /// The width of the strip in pixels.
    pub fn text_width(&self) -> (width: usize)
        ensures
            width == self.spec_text_width(),
            width + 8 <= i32::MAX,
    {
        proof {
            use_type_invariant(self);
        }
        self.text_width
    }

    /// Whether the pixel in column `column` of the strip is on in row `row`.
    fn strip_pixel_on(&self, column: i128, row: usize) -> (on: bool)
        requires
            row < 8,
        ensures
            on == strip_pixel(
                self.spec_text(),
                self.spec_font(),
                self.spec_config(),
                column as int,
                row as int,
            ),
    {
        proof {
            use_type_invariant(self);
        }
        if column < 0 {
            return false;
        }
        let width: i128 = self.text_width as i128;
        if column >= width && !self.config.loop_text {
            return false;
        }
        let wrapped: i128 = if column >= width && width > 0 {
            column % width
        } else {
            column
        };
        let text_pixels: i128 = (self.text_width as i128) - if self.config.loop_text {
            self.config.loop_padding as i128
        } else {
            0
        };
        if wrapped >= text_pixels {
            return false;
        }
        let char_index: usize = (wrapped / 8) as usize;
        let bit_index: usize = (wrapped % 8) as usize;
        let ch = self.text.get_char(char_index);
        let bitmap = self.font.get_char(ch);
        read_column(bitmap[row], bit_index)
    }

    /// Return true if the pixel at (source_col, row) of the window should be
    /// on.
    pub fn pixel_on(&self, source_col: usize, row: usize) -> (on: bool)
        requires
            row < 8,
        ensures
            on == self.lit(source_col as int, row as int),
    {
        self.strip_pixel_on(self.current_offset as i128 + source_col as i128, row)
    }

    /// Packs the window that starts `shift` columns right of the left edge.
    fn render_window(&self, shift: i128) -> (buffer: MatrixBuffer)
        requires
            0 <= shift <= 8 * usize::MAX,
        ensures
            buffer@ == self.window(shift as int),
    {
        let mut buffer = MatrixBuffer::new();
        let base: i128 = self.current_offset as i128 + shift;
        let mut row: usize = 0;
        while row < 8
            invariant
                row <= 8,
                base == self.spec_offset() + shift,
                0 <= shift <= 8 * usize::MAX,
                buffer@.len() == 8,
                forall|r: int| 0 <= r < row ==> #[trigger] buffer@[r] == self.window(shift as int)[r],
            decreases 8 - row,
        {
            let ghost pixels = Seq::new(8, |col: int| self.lit(shift + col, row as int));
            let mut row_data: u8 = 0;
            let mut col: usize = 0;
            while col < 8
                invariant
                    col <= 8,
                    row < 8,
                    base == self.spec_offset() + shift,
                    0 <= shift <= 8 * usize::MAX,
                    pixels == Seq::new(8, |c: int| self.lit(shift + c, row as int)),
                    row_data == pack_prefix(pixels, col as int),
                decreases 8 - col,
            {
                let on = self.strip_pixel_on(base + col as i128, row);
                row_data = with_column(row_data, col, on);
                col += 1;
            }
            let stored = buffer.set_row(row as u8, row_data);
            row += 1;
        }
        assert(buffer@ =~= self.window(shift as int));
        buffer
    }

    /// Get the current 8x8 frame data based on the scroll offset: what one
    /// panel shows at the current scroll position.
    pub fn get_frame(&self) -> (r: Result<MatrixBuffer, Error>)
        ensures
            r is Ok,
            r->Ok_0@ == self.window(0),
    {
        Ok(self.render_window(0))
    }

    /// Get the 8x8 frame of panel `device_index` of a row of panels that
    /// together show one continuous scroll: the window eight columns further
    /// right for each panel.
    pub fn get_frame_for_device(&self, device_index: usize) -> (r: Result<MatrixBuffer, Error>)
        ensures
            r is Ok,
            r->Ok_0@ == self.window(8 * device_index),
    {
        Ok(self.window_for_device(device_index))
    }

    /// The 8x8 frame of panel `device_index` of a row of panels.
    pub(crate) fn window_for_device(&self, device_index: usize) -> (buffer: MatrixBuffer)
        ensures
            buffer@ == self.window(8 * device_index),
    {
        self.render_window(8 * (device_index as i128))
    }

    /// Advance the scroll position by the configured step size.
    ///
    /// When the text loops, the offset goes back to 0 (not to the remainder)
    /// as soon as it has reached or passed the width of the strip, and the
    /// scroll always continues.
    /// Otherwise the scroll continues while the window has not fully passed
    /// the right end of the strip.
    pub fn step(&mut self) -> (more: bool)
        requires
            old(self).spec_offset() + old(self).spec_config().pixels_per_step <= i32::MAX,
        ensures
            final(self).same_strip(old(self)),
            old(self).spec_config().loop_text ==> more,
            old(self).spec_config().loop_text ==> final(self).spec_offset() == looped_offset(
                old(self).spec_offset() + old(self).spec_config().pixels_per_step,
                old(self).spec_text_width(),
            ),
            !old(self).spec_config().loop_text ==> final(self).spec_offset() == old(self).spec_offset()
                + old(self).spec_config().pixels_per_step,
            !old(self).spec_config().loop_text ==> more == (final(self).spec_offset() < old(self).spec_text_width() + 8),
    {
        proof {
            use_type_invariant(&*self);
        }
        self.current_offset = self.current_offset + self.config.pixels_per_step as i32;
        if self.config.loop_text {
            if self.current_offset >= self.text_width as i32 {
                self.current_offset = 0;
            }
            true
        } else {
            self.current_offset < (self.text_width as i32 + 8)
        }
    }

    /// Reset scroll position to the beginning: one character width left of
    /// the strip, so that the text enters from the right.
    pub fn reset(&mut self)
        ensures
            final(self).same_strip(old(self)),
            final(self).spec_offset() == -8,
    {
        proof {
            use_type_invariant(&*self);
        }
        self.current_offset = -8;
    }

    /// Get current scroll offset
    #[verifier::when_used_as_spec(spec_offset)]
    pub fn offset(&self) -> (offset: i32)
        ensures
            offset == self.spec_offset(),
    {
        self.current_offset
    }

    /// Move the scroll position to `offset`.
    pub fn set_offset(&mut self, offset: i32)
        ensures
            final(self).same_strip(old(self)),
            final(self).spec_offset() == offset,
    {
        proof {
            use_type_invariant(&*self);
        }
        self.current_offset = offset;
    }

    /// The window of panel `device` of a row of panels is the window that a
    /// single panel shows once the offset has moved on by eight columns for
    /// each panel before it.
    pub proof fn lemma_window_is_shifted_frame(&self, moved: &Self, device: int)
        requires
            moved.same_strip(self),
            moved.spec_offset() == self.spec_offset() + 8 * device,
        ensures
            self.window(8 * device) == moved.window(0),
    {
        assert forall|row: int| 0 <= row < 8 implies self.window(8 * device)[row] == moved.window(
            0,
        )[row] by {
            let a = Seq::new(8, |col: int| self.lit(8 * device + col, row));
            let b = Seq::new(8, |col: int| moved.lit(0 + col, row));
            assert(a =~= b);
        }
        assert(self.window(8 * device) =~= moved.window(0));
    }

    /// Reading column `col` of row `row` of a window gives the pixel of the
    /// strip that the window shows there.
    pub proof fn lemma_window_pixel(&self, shift: int, col: int, row: int)
        requires
            0 <= col < 8,
            0 <= row < 8,
        ensures
            column_on(self.window(shift)[row], col) == self.lit(shift + col, row),
    {
        crate::led_matrix::packing::lemma_pack_then_read(
            Seq::new(8, |c: int| self.lit(shift + c, row)),
            col,
        );
    }

    /// While the window lies wholly left of the strip, every pixel is off.
    pub proof fn lemma_off_screen_left(&self, source_col: int, row: int)
        requires
            self.spec_offset() + source_col < 0,
        ensures
            !self.lit(source_col, row),
    {
    }

    /// With the offset at the start of a character, the window shows exactly
    /// the glyph of that character.
    pub proof fn lemma_window_at_character(&self, index: int)
        requires
            0 <= index < self.spec_text().len(),
            self.spec_offset() == 8 * index,
        ensures
            self.window(0) == self.spec_font().glyph(self.spec_text()[index])@,
    {
        let glyph = self.spec_font().glyph(self.spec_text()[index]);
        assert forall|row: int| 0 <= row < 8 implies self.window(0)[row] == glyph@[row] by {
            let pixels = Seq::new(8, |col: int| self.lit(0 + col, row));
            let columns = Seq::new(8, |col: int| column_on(glyph@[row], col));
            assert forall|col: int| 0 <= col < 8 implies pixels[col] == columns[col] by {
                let column = self.spec_offset() + col;
                assert(column == 8 * index + col);
                assert(column / 8 == index);
                assert(column % 8 == col);
            }
            assert(pixels =~= columns);
            crate::led_matrix::packing::lemma_read_then_pack(glyph@[row]);
        }
        assert(self.window(0) =~= glyph@);
    }
}

} // verus!
