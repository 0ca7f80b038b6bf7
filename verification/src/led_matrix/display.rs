//! The LED matrix display: a chain driver together with a pixel store.

use crate::driver::frame::{
    bitmap_frames, chain_frame, clear_all_frames, clear_display_frames, init_frames,
    lemma_push_frame, padded,
};
use crate::driver::max7219::{Max7219, SCRATCH_LEN};
use crate::error::Error;
use crate::led_matrix::buffer::MatrixBuffer;
use crate::led_matrix::fonts::{
    glyph_in, standard_glyph, standard_led_font, LedFont, STANDARD_LED_FONT_DATA,
};
use crate::led_matrix::framebuffer::{
    blank_pixels, cleared, draw_all, flush_frames, flush_ops, pixel_byte, pixel_index,
    FrameBuffer,
};
use crate::led_matrix::graphics::Pixel;
use crate::led_matrix::scroll::ScrollingText;
use crate::registers::Register;
use crate::MAX_DISPLAYS;
use vstd::prelude::*;
use vstd::string::StrSliceExecFns;

verus! {

/// The batch of operations that shows row `row` of a text on `count`
/// devices, one character per device.
///
/// Character `i` of the text stands at entry `count - 1 - i` of the batch, so
/// that the first character is transmitted first. Devices beyond the end of
/// the text show nothing; characters beyond the chain are dropped.
pub open spec fn text_ops(
    text: Seq<char>,
    font: Seq<([u8; 8], char)>,
    count: int,
    row: int,
) -> Seq<(Register, u8)> {
    Seq::new(
        count as nat,
        |d: int|
            (
                Register::spec_digit(row),
                if count - 1 - d < text.len() {
                    glyph_in(font, text[count - 1 - d])[row]
                } else {
                    0u8
                },
            ),
    )
}

/// The eight frames that show a text on `count` devices, row 0 first.
pub open spec fn text_frames(text: Seq<char>, font: Seq<([u8; 8], char)>, count: int) -> Seq<
    Seq<u8>,
> {
    Seq::new(8, |row: int| chain_frame(text_ops(text, font, count, row)))
}

/// The frames that show one window on each of `count` devices: the eight
/// rows of device 0, then those of device 1, and so on.
pub open spec fn panel_frames(count: int, windows: Seq<Seq<u8>>) -> Seq<Seq<u8>> {
    Seq::new((8 * count) as nat, |k: int| bitmap_frames(count, k / 8, windows[k / 8])[k % 8])
}

/// The windows that `count` panels in a row show of one scroll: panel
/// `device` shows the window eight columns further right than the one
/// before it.
pub open spec fn scroll_windows(scroller: ScrollingText<'_>, count: int) -> Seq<Seq<u8>> {
    Seq::new(count as nat, |device: int| scroller.window(8 * device))
}

/// Appends to `frames` the eight frames that write `rows` to the digit
/// registers of device `device_index`.
fn push_rows(
    driver: &mut Max7219,
    frames: &mut Vec<Vec<u8>>,
    device_index: usize,
    rows: &[u8; 8],
)
    requires
        device_index < old(driver).spec_device_count(),
    ensures
        final(frames).deep_view() == old(frames).deep_view() + bitmap_frames(
            old(driver).spec_device_count() as int,
            device_index as int,
            rows@,
        ),
        final(frames)@.len() == old(frames)@.len() + 8,
        final(driver).has_encoded(*old(driver), final(frames)@.last()@),
{
    let ghost count = driver.spec_device_count() as int;
    let ghost model = bitmap_frames(count, device_index as int, rows@);
    assert(frames.deep_view() =~= old(frames).deep_view() + model.take(0));
    let digits = Register::digits();
    let mut row: usize = 0;
    while row < 8
        invariant
            row <= 8,
            driver.spec_device_count() == count,
            old(driver).spec_device_count() == count,
            device_index < count,
            model == bitmap_frames(count, device_index as int, rows@),
            forall|i: int| 0 <= i < 8 ==> digits[i] == Register::spec_digit(i),
            frames@.len() == old(frames)@.len() + row,
            frames.deep_view() == old(frames).deep_view() + model.take(row as int),
            row > 0 ==> driver.has_encoded(*old(driver), frames@.last()@),
        decreases 8 - row,
    {
        let ghost before = *frames;
        let frame = driver.encode_one(device_index, digits[row], rows[row]);
        frames.push(frame);
        proof {
            lemma_push_frame(before, *frames, frame);
            assert(frames.deep_view() =~= old(frames).deep_view() + model.take(row + 1));
        }
        row += 1;
    }
    assert(model.take(8) =~= model);
}

/// The eight frames that write `rows` to the digit registers of device
/// `device_index`.
fn write_rows(driver: &mut Max7219, device_index: usize, rows: &[u8; 8]) -> (r: Result<
    Vec<Vec<u8>>,
    Error,
>)
    ensures
        device_index < old(driver).spec_device_count() ==> r is Ok && r->Ok_0.deep_view()
            == bitmap_frames(old(driver).spec_device_count() as int, device_index as int, rows@)
            && final(driver).has_encoded(*old(driver), r->Ok_0@.last()@),
        device_index >= old(driver).spec_device_count() ==> r is Err && r->Err_0
            == Error::InvalidDeviceIndex && *final(driver) == *old(driver),
{
    if device_index >= driver.device_count() {
        return Err(Error::InvalidDeviceIndex);
    }
    let mut frames: Vec<Vec<u8>> = Vec::new();
    assert(frames.deep_view() =~= Seq::<Seq<u8>>::empty());
    push_rows(driver, &mut frames, device_index, rows);
    assert(frames.deep_view() =~= bitmap_frames(
        old(driver).spec_device_count() as int,
        device_index as int,
        rows@,
    ));
    Ok(frames)
}

/// A row of chained 8x8 LED matrix panels.
///
/// The display owns the chain driver and a pixel store with one byte per
/// pixel. Drawing changes the pixel store only; `flush` produces the frames
/// that show it.
#[derive(Debug)]
pub struct LedMatrix {
    driver: Max7219,
    framebuffer: FrameBuffer,
}

impl LedMatrix {
    /// The chain driver of the display.
    pub closed spec fn spec_driver(&self) -> Max7219 {
        self.driver
    }

    /// The pixel store of the display.
    pub closed spec fn spec_framebuffer(&self) -> FrameBuffer {
        self.framebuffer
    }

    /// The number of devices in the chain of the driver.
    pub open spec fn chain_len(&self) -> int {
        self.spec_driver().spec_device_count() as int
    }

    /// The number of panels that the pixel store was made for.
    pub open spec fn panels(&self) -> int {
        self.spec_framebuffer().spec_device_count() as int
    }

    /// The pixel bytes of the pixel store.
    pub open spec fn pixels(&self) -> Seq<u8> {
        self.spec_framebuffer()@
    }

    /// The state of `self` after a display in state `before` has produced
    /// frames of which `last` is the last: the pixel store is untouched and
    /// the driver has encoded `last`.
    pub open spec fn has_sent(&self, before: &LedMatrix, last: Seq<u8>) -> bool {
        &&& self.spec_framebuffer() == before.spec_framebuffer()
        &&& self.spec_driver().has_encoded(before.spec_driver(), last)
    }

    /// Creates the display for a chain of `device_count` panels, together
    /// with the twelve frames of the power-on sequence that initializes the
    /// chips.
    ///
    /// A count outside `1..=MAX_DISPLAYS` is rejected with
    /// `Error::InvalidDeviceCount`.
    pub fn from_spi(device_count: usize) -> (r: Result<(Self, Vec<Vec<u8>>), Error>)
        ensures
            1 <= device_count <= MAX_DISPLAYS ==> r is Ok && r->Ok_0.0.chain_len() == device_count
                && r->Ok_0.0.panels() == device_count && r->Ok_0.0.pixels() == blank_pixels(
                device_count as int,
            ) && r->Ok_0.1.deep_view() == init_frames(device_count as int)
                && r->Ok_0.0.spec_driver().scratch() == padded(
                r->Ok_0.1@.last()@,
                SCRATCH_LEN as int,
            ),
            !(1 <= device_count <= MAX_DISPLAYS) ==> r is Err && r->Err_0
                == Error::InvalidDeviceCount,
    {
        let mut driver = match Max7219::new().with_device_count(device_count) {
            Ok(driver) => driver,
            Err(e) => {
                return Err(e);
            },
        };
        let frames = match driver.init() {
            Ok(frames) => frames,
            Err(e) => {
                return Err(e);
            },
        };
        match FrameBuffer::new(device_count) {
            Ok(framebuffer) => Ok((Self { driver, framebuffer }, frames)),
            Err(e) => Err(e),
        }
    }

    /// Creates the display of `device_count` panels from an existing driver.
    ///
    /// The driver must have been configured for the same number of devices;
    /// otherwise the display is rejected with `Error::InvalidDeviceCount`.
    pub fn from_driver(driver: Max7219, device_count: usize) -> (r: Result<Self, Error>)
        ensures
            driver.spec_device_count() == device_count ==> r is Ok && r->Ok_0.spec_driver()
                == driver && r->Ok_0.panels() == device_count && r->Ok_0.pixels() == blank_pixels(
                device_count as int,
            ),
            driver.spec_device_count() != device_count ==> r is Err && r->Err_0
                == Error::InvalidDeviceCount,
    {
        if driver.device_count() != device_count {
            return Err(Error::InvalidDeviceCount);
        }
        match FrameBuffer::new(device_count) {
            Ok(framebuffer) => Ok(Self { driver, framebuffer }),
            Err(e) => Err(e),
        }
    }

    /// Provides mutable access to the underlying driver, for the low-level
    /// operations.
    pub fn driver(&mut self) -> (driver: &mut Max7219)
        ensures
            *driver == old(self).spec_driver(),
            final(self).spec_driver() == *final(driver),
            final(self).spec_framebuffer() == old(self).spec_framebuffer(),
    {
        &mut self.driver
    }

    /// The pixel bytes of the pixel store: one byte per pixel, 0 for off,
    /// laid out by device, then row, then column.
    pub fn framebuffer(&self) -> (pixels: &Vec<u8>)
        ensures
            pixels@ == self.pixels(),
            pixels@.len() == 64 * self.panels(),
    {
        self.framebuffer.pixels()
    }

    /// Clear a specific device: eight frames that write 0 to its digit
    /// registers. The pixel store is not touched.
    pub fn clear(&mut self, device_index: usize) -> (r: Result<Vec<Vec<u8>>, Error>)
        ensures
            device_index < old(self).chain_len() ==> r is Ok && r->Ok_0.deep_view()
                == clear_display_frames(old(self).chain_len(), device_index as int)
                && final(self).has_sent(old(self), r->Ok_0@.last()@),
            device_index >= old(self).chain_len() ==> r is Err && r->Err_0
                == Error::InvalidDeviceIndex && *final(self) == *old(self),
    {
        self.driver.clear_display(device_index)
    }

    /// Clear all devices: eight frames that write 0 to every digit register.
    /// The pixel store is not touched.
    pub fn clear_all(&mut self) -> (r: Result<Vec<Vec<u8>>, Error>)
        ensures
            r is Ok,
            r->Ok_0.deep_view() == clear_all_frames(old(self).chain_len()),
            final(self).has_sent(old(self), r->Ok_0@.last()@),
    {
        self.driver.clear_all()
    }

    /// Write a complete 8x8 buffer to a specific device: eight frames, one
    /// per row. The pixel store is not touched.
    pub fn write_buffer(&mut self, device_index: usize, buffer: &MatrixBuffer) -> (r: Result<
        Vec<Vec<u8>>,
        Error,
    >)
        ensures
            device_index < old(self).chain_len() ==> r is Ok && r->Ok_0.deep_view()
                == bitmap_frames(old(self).chain_len(), device_index as int, buffer@)
                && final(self).has_sent(old(self), r->Ok_0@.last()@),
            device_index >= old(self).chain_len() ==> r is Err && r->Err_0
                == Error::InvalidDeviceIndex && *final(self) == *old(self),
    {
        write_rows(&mut self.driver, device_index, buffer.data())
    }

    /// Draws a single character on the specified device, in the standard
    /// font.
    pub fn draw_char(&mut self, device_index: usize, ch: char) -> (r: Result<Vec<Vec<u8>>, Error>)
        ensures
            device_index < old(self).chain_len() ==> r is Ok && r->Ok_0.deep_view()
                == bitmap_frames(
                old(self).chain_len(),
                device_index as int,
                standard_glyph(ch)@,
            ) && final(self).has_sent(old(self), r->Ok_0@.last()@),
            device_index >= old(self).chain_len() ==> r is Err && r->Err_0
                == Error::InvalidDeviceIndex && *final(self) == *old(self),
    {
        let font = standard_led_font();
        self.draw_char_with_font(device_index, ch, &font)
    }

    /// Draws a single character on the specified device using the given
    /// font: eight frames, one per row of the glyph.
    pub fn draw_char_with_font(&mut self, device_index: usize, ch: char, font: &LedFont) -> (r:
        Result<Vec<Vec<u8>>, Error>)
        ensures
            device_index < old(self).chain_len() ==> r is Ok && r->Ok_0.deep_view()
                == bitmap_frames(old(self).chain_len(), device_index as int, font.glyph(ch)@)
                && final(self).has_sent(old(self), r->Ok_0@.last()@),
            device_index >= old(self).chain_len() ==> r is Err && r->Err_0
                == Error::InvalidDeviceIndex && *final(self) == *old(self),
    {
        let bitmap = font.get_char(ch);
        write_rows(&mut self.driver, device_index, &bitmap)
    }

    /// Draw a string of text using the standard font, one character per
    /// device. Characters beyond the number of devices are ignored.
    pub fn draw_text(&mut self, text: &str) -> (r: Result<Vec<Vec<u8>>, Error>)
        ensures
            r is Ok,
            r->Ok_0.deep_view() == text_frames(text@, STANDARD_LED_FONT_DATA@, old(self).chain_len()),
            final(self).has_sent(old(self), r->Ok_0@.last()@),
    {
        let font = standard_led_font();
        self.draw_text_with_font(text, &font)
    }

    /// Draw a string of text using the given font, one character per
    /// device: eight frames, one per row, each addressing the whole chain.
    /// Characters beyond the number of devices are ignored.
    pub fn draw_text_with_font(&mut self, text: &str, font: &LedFont) -> (r: Result<
        Vec<Vec<u8>>,
        Error,
    >)
        ensures
            r is Ok,
            r->Ok_0.deep_view() == text_frames(text@, font.entries(), old(self).chain_len()),
            final(self).has_sent(old(self), r->Ok_0@.last()@),
    {
        let device_count: usize = self.driver.device_count();
        let text_len: usize = text.unicode_len();
        let ghost model = text_frames(text@, font.entries(), device_count as int);
        let digits = Register::digits();
        let mut frames: Vec<Vec<u8>> = Vec::new();
        assert(frames.deep_view() =~= model.take(0));
        let mut row: usize = 0;
        while row < 8
            invariant
                row <= 8,
                1 <= device_count <= MAX_DISPLAYS,
                self.chain_len() == device_count,
                old(self).chain_len() == device_count,
                self.spec_framebuffer() == old(self).spec_framebuffer(),
                text_len == text@.len(),
                model == text_frames(text@, font.entries(), device_count as int),
                forall|i: int| 0 <= i < 8 ==> digits[i] == Register::spec_digit(i),
                frames@.len() == row,
                frames.deep_view() == model.take(row as int),
                row > 0 ==> self.spec_driver().has_encoded(
                    old(self).spec_driver(),
                    frames@.last()@,
                ),
            decreases 8 - row,
        {
            let ghost ops_model = text_ops(text@, font.entries(), device_count as int, row as int);
            let mut ops: Vec<(Register, u8)> = Vec::new();
            let mut d: usize = 0;
            while d < device_count
                invariant
                    d <= device_count,
                    row < 8,
                    1 <= device_count <= MAX_DISPLAYS,
                    text_len == text@.len(),
                    ops_model == text_ops(text@, font.entries(), device_count as int, row as int),
                    forall|i: int| 0 <= i < 8 ==> digits[i] == Register::spec_digit(i),
                    ops@ == ops_model.take(d as int),
                decreases device_count - d,
            {
                let i: usize = device_count - 1 - d;
                let value: u8 = if i < text_len {
                    let bitmap = font.get_char(text.get_char(i));
                    bitmap[row]
                } else {
                    0u8
                };
                ops.push((digits[row], value));
                assert(ops@ =~= ops_model.take(d + 1));
                d += 1;
            }
            assert(ops_model.take(device_count as int) =~= ops_model);
            let ghost before = frames;
            match self.driver.write_all_registers(ops.as_slice()) {
                Ok(frame) => {
                    frames.push(frame);
                    proof {
                        lemma_push_frame(before, frames, frame);
                        assert(frames.deep_view() =~= model.take(row + 1));
                    }
                },
                Err(e) => {
                    return Err(e);
                },
            }
            row += 1;
        }
        assert(model.take(8) =~= model);
        Ok(frames)
    }

    /// Renders one position of a scroll on all panels and advances the
    /// scroll by one step.
    ///
    /// Each panel shows its own 8-pixel window of the one continuous scroll:
    /// the frames hold the eight rows of device 0, then those of device 1,
    /// and so on. The second result tells whether the scroll goes on; a
    /// caller transmits the frames, waits for the configured delay and calls
    /// again for as long as it does.
    pub fn scroll_text(&mut self, scroller: &mut ScrollingText<'_>) -> (r: Result<
        (Vec<Vec<u8>>, bool),
        Error,
    >)
        requires
            old(scroller).spec_offset() + old(scroller).spec_config().pixels_per_step <= i32::MAX,
        ensures
            r is Ok,
            r->Ok_0.0.deep_view() == panel_frames(
                old(self).chain_len(),
                scroll_windows(*old(scroller), old(self).chain_len()),
            ),
            final(self).has_sent(old(self), r->Ok_0.0@.last()@),
            final(scroller).same_strip(old(scroller)),
            old(scroller).spec_config().loop_text ==> r->Ok_0.1 && final(scroller).spec_offset()
                == crate::led_matrix::scroll::looped_offset(
                old(scroller).spec_offset() + old(scroller).spec_config().pixels_per_step,
                old(scroller).spec_text_width(),
            ),
            !old(scroller).spec_config().loop_text ==> final(scroller).spec_offset() == old(scroller).spec_offset()
                + old(scroller).spec_config().pixels_per_step,
            !old(scroller).spec_config().loop_text ==> r->Ok_0.1 == (final(scroller).spec_offset()
                < old(scroller).spec_text_width() + 8),
    {
        let frames = self.scroll_frames(scroller);
        let more = scroller.step();
        Ok((frames, more))
    }

    /// The frames that show the current position of a scroll on all panels.
    fn scroll_frames(&mut self, scroller: &ScrollingText<'_>) -> (frames: Vec<Vec<u8>>)
        ensures
            frames.deep_view() == panel_frames(
                old(self).chain_len(),
                scroll_windows(*scroller, old(self).chain_len()),
            ),
            frames@.len() == 8 * old(self).chain_len(),
            final(self).has_sent(old(self), frames@.last()@),
    {
        let device_count: usize = self.driver.device_count();
        let ghost windows = scroll_windows(*scroller, device_count as int);
        let ghost model = panel_frames(device_count as int, windows);
        let mut frames: Vec<Vec<u8>> = Vec::new();
        assert(frames.deep_view() =~= model.take(0));
        let mut device_index: usize = 0;
        while device_index < device_count
            invariant
                device_index <= device_count,
                1 <= device_count <= MAX_DISPLAYS,
                self.chain_len() == device_count,
                old(self).chain_len() == device_count,
                self.spec_framebuffer() == old(self).spec_framebuffer(),
                windows == scroll_windows(*scroller, device_count as int),
                model == panel_frames(device_count as int, windows),
                frames@.len() == 8 * device_index,
                frames.deep_view() == model.take(8 * device_index),
                device_index > 0 ==> self.spec_driver().has_encoded(
                    old(self).spec_driver(),
                    frames@.last()@,
                ),
            decreases device_count - device_index,
        {
            let window = scroller.window_for_device(device_index);
            let ghost before = frames.deep_view();
            push_rows(&mut self.driver, &mut frames, device_index, window.data());
            proof {
                let added = bitmap_frames(device_count as int, device_index as int, window@);
                assert(frames.deep_view() == before + added);
                assert forall|k: int| 0 <= k < 8 * (device_index + 1) implies (before + added)[k]
                    == model[k] by {
                    if k >= 8 * device_index {
                        assert(k / 8 == device_index as int);
                        assert(k % 8 == k - 8 * device_index);
                        assert(windows[device_index as int] == window@);
                    }
                }
                assert(frames.deep_view() =~= model.take(8 * (device_index + 1)));
            }
            device_index += 1;
        }
        assert(model.take(8 * device_count) =~= model);
        frames
    }

    /// Sets the pixel in column `col` and row `row` of device `device` in
    /// the pixel store. Nothing is sent until the next flush.
    ///
    /// A device outside the pixel store, or a column or row outside `0..8`,
    /// is rejected with `Error::BufferError` and changes nothing.
    pub fn set_pixel(&mut self, device: usize, col: usize, row: usize, on: bool) -> (r: Result<
        (),
        Error,
    >)
        ensures
            final(self).spec_driver() == old(self).spec_driver(),
            final(self).panels() == old(self).panels(),
            device < old(self).panels() && col < 8 && row < 8 ==> r is Ok && final(self).pixels()
                == old(self).pixels().update(
                pixel_index(device as int, row as int, col as int),
                pixel_byte(on),
            ),
            !(device < old(self).panels() && col < 8 && row < 8) ==> r is Err && r->Err_0
                == Error::BufferError && final(self).pixels() == old(self).pixels(),
    {
        self.framebuffer.set_pixel(device, col, row, on)
    }

    /// Whether the pixel in column `col` and row `row` of device `device` is
    /// on in the pixel store.
    pub fn get_pixel(&self, device: usize, col: usize, row: usize) -> (r: Result<bool, Error>)
        ensures
            device < self.panels() && col < 8 && row < 8 ==> r is Ok && r->Ok_0 == (
            self.pixels()[pixel_index(device as int, row as int, col as int)] != 0),
            !(device < self.panels() && col < 8 && row < 8) ==> r is Err && r->Err_0
                == Error::BufferError,
    {
        self.framebuffer.get_pixel(device, col, row)
    }

    /// Draws the given pixels into the pixel store, in order, by their
    /// positions on the whole display. Positions off the display are
    /// ignored; nothing is sent until the next flush.
    pub fn draw_iter(&mut self, pixels: &[Pixel])
        ensures
            final(self).spec_driver() == old(self).spec_driver(),
            final(self).panels() == old(self).panels(),
            final(self).pixels() == draw_all(
                old(self).pixels(),
                old(self).panels(),
                pixels@,
                pixels@.len() as int,
            ),
    {
        self.framebuffer.draw_iter(pixels)
    }

    /// The size of the display in pixels: eight columns per panel, eight
    /// rows.
    pub fn size(&self) -> (size: (u32, u32))
        ensures
            size.0 == 8 * self.panels(),
            size.1 == 8,
    {
        self.framebuffer.size()
    }

    /// Produces the frames that show the pixel store on the panels.
    ///
    /// One frame per row, row 0 first, each addressing the whole chain: in
    /// the frame of a row, device `d` finds the row's digit register and the
    /// packed row of its own 64 pixels at byte `2 * d`. A display whose
    /// driver was reconfigured for another number of devices than the pixel
    /// store holds is rejected with `Error::InvalidDeviceCount`.
    pub fn flush(&mut self) -> (r: Result<Vec<Vec<u8>>, Error>)
        ensures
            old(self).chain_len() == old(self).panels() ==> r is Ok && r->Ok_0.deep_view()
                == flush_frames(old(self).pixels(), old(self).panels()) && final(self).has_sent(
                old(self),
                r->Ok_0@.last()@,
            ),
            old(self).chain_len() != old(self).panels() ==> r is Err && r->Err_0
                == Error::InvalidDeviceCount && *final(self) == *old(self),
    {
        let device_count: usize = self.framebuffer.device_count();
        if self.driver.device_count() != device_count {
            return Err(Error::InvalidDeviceCount);
        }
        let ghost model = flush_frames(self.pixels(), device_count as int);
        let digits = Register::digits();
        let mut frames: Vec<Vec<u8>> = Vec::new();
        assert(frames.deep_view() =~= model.take(0));
        let mut row: usize = 0;
        while row < 8
            invariant
                row <= 8,
                1 <= device_count <= MAX_DISPLAYS,
                self.chain_len() == device_count,
                self.panels() == device_count,
                old(self).chain_len() == device_count,
                self.spec_framebuffer() == old(self).spec_framebuffer(),
                model == flush_frames(self.pixels(), device_count as int),
                forall|i: int| 0 <= i < 8 ==> digits[i] == Register::spec_digit(i),
                frames@.len() == row,
                frames.deep_view() == model.take(row as int),
                row > 0 ==> self.spec_driver().has_encoded(
                    old(self).spec_driver(),
                    frames@.last()@,
                ),
            decreases 8 - row,
        {
            let ghost ops_model = flush_ops(self.pixels(), device_count as int, row as int);
            let mut ops: Vec<(Register, u8)> = Vec::new();
            let mut j: usize = 0;
            while j < device_count
                invariant
                    j <= device_count,
                    row < 8,
                    1 <= device_count <= MAX_DISPLAYS,
                    self.panels() == device_count,
                    ops_model == flush_ops(self.pixels(), device_count as int, row as int),
                    forall|i: int| 0 <= i < 8 ==> digits[i] == Register::spec_digit(i),
                    ops@ == ops_model.take(j as int),
                decreases device_count - j,
            {
                let device_index: usize = device_count - 1 - j;
                let packed_byte = self.framebuffer.pack_row(device_index, row);
                ops.push((digits[row], packed_byte));
                assert(ops@ =~= ops_model.take(j + 1));
                j += 1;
            }
            assert(ops_model.take(device_count as int) =~= ops_model);
            let ghost before = frames;
            match self.driver.write_all_registers(ops.as_slice()) {
                Ok(frame) => {
                    frames.push(frame);
                    proof {
                        lemma_push_frame(before, frames, frame);
                        assert(frames.deep_view() =~= model.take(row + 1));
                    }
                },
                Err(e) => {
                    return Err(e);
                },
            }
            row += 1;
        }
        assert(model.take(8) =~= model);
        Ok(frames)
    }

    /// Producing frames leaves the pixels and the length of the chain alone,
    /// so a flush after it gives the frames that a flush before it would have
    /// given: flushing twice sends the same bytes both times.
    pub proof fn lemma_flush_repeats(before: LedMatrix, after: LedMatrix, last: Seq<u8>)
        requires
            after.has_sent(&before, last),
        ensures
            after.chain_len() == before.chain_len(),
            after.panels() == before.panels(),
            flush_frames(after.pixels(), after.panels()) == flush_frames(
                before.pixels(),
                before.panels(),
            ),
    {
    }

    /// Clear the pixel store (sets all pixels to 0). Nothing is sent.
    pub fn clear_buffer(&mut self)
        ensures
            final(self).spec_driver() == old(self).spec_driver(),
            final(self).panels() == old(self).panels(),
            final(self).pixels() == cleared(old(self).pixels()),
    {
        self.framebuffer.clear();
    }

    /// Clear the screen: clears the pixel store, then flushes it.
    ///
    /// The pixel store is cleared even where the flush is rejected.
    pub fn clear_screen(&mut self) -> (r: Result<Vec<Vec<u8>>, Error>)
        ensures
            final(self).panels() == old(self).panels(),
            final(self).pixels() == cleared(old(self).pixels()),
            old(self).chain_len() == old(self).panels() ==> r is Ok && r->Ok_0.deep_view()
                == clear_all_frames(old(self).panels()) && final(self).spec_driver().has_encoded(
                old(self).spec_driver(),
                r->Ok_0@.last()@,
            ),
            old(self).chain_len() != old(self).panels() ==> r is Err && r->Err_0
                == Error::InvalidDeviceCount && final(self).spec_driver() == old(self).spec_driver(),
    {
        proof {
            use_type_invariant(&self.framebuffer);
            crate::led_matrix::framebuffer::lemma_blank_flush(self.pixels(), self.panels());
        }
        self.clear_buffer();
        self.flush()
    }
}

} // verus!
