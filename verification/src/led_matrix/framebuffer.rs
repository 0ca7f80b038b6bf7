//! The pixel store of a row of chained 8x8 panels.
//!
//! One byte per pixel, 0 for off and anything else for on, laid out by
//! device, then by row, then by column.

use crate::driver::frame::chain_frame;
use crate::error::Error;
use crate::led_matrix::graphics::{bounding_box_contains, in_bounds, Pixel};
use crate::led_matrix::packing::{
    lemma_pack_blank, lemma_pack_then_read, column_on, pack_prefix, pack_row, with_column,
};
use crate::registers::Register;
use crate::MAX_DISPLAYS;
use vstd::prelude::*;

verus! {

/// Number of pixels of one 8x8 panel.
pub const PANEL_PIXELS: usize = 64;

/// The index in the pixel store of the pixel in column `col` and row `row` of
/// device `device`.
pub open spec fn pixel_index(device: int, row: int, col: int) -> int {
    device * 64 + row * 8 + col
}

/// The byte stored for a pixel that is on or off.
pub open spec fn pixel_byte(on: bool) -> u8 {
    if on {
        1u8
    } else {
        0u8
    }
}

/// The eight pixels of row `row` of device `device`, leftmost first.
pub open spec fn row_pixels(pixels: Seq<u8>, device: int, row: int) -> Seq<bool> {
    Seq::new(8, |col: int| pixels[pixel_index(device, row, col)] != 0)
}

/// The byte that row `row` of device `device` sends to the chip: column 0 in
/// the most significant bit.
pub open spec fn packed_row(pixels: Seq<u8>, device: int, row: int) -> u8 {
    pack_row(row_pixels(pixels, device, row))
}

/// The batch of operations that shows row `row` on all `count` devices.
///
/// The devices stand in the batch in reverse order: entry `j` holds the row
/// of device `count - 1 - j`.
pub open spec fn flush_ops(pixels: Seq<u8>, count: int, row: int) -> Seq<(Register, u8)> {
    Seq::new(
        count as nat,
        |j: int| (Register::spec_digit(row), packed_row(pixels, count - 1 - j, row)),
    )
}

/// The eight frames that show the pixel store on the panels, row 0 first.
pub open spec fn flush_frames(pixels: Seq<u8>, count: int) -> Seq<Seq<u8>> {
    Seq::new(8, |row: int| chain_frame(flush_ops(pixels, count, row)))
}

/// A pixel store of `count` panels with all pixels off.
pub open spec fn blank_pixels(count: int) -> Seq<u8> {
    Seq::new((64 * count) as nat, |i: int| 0u8)
}

/// A pixel store after it was cleared: as many pixels, all off.
pub open spec fn cleared(pixels: Seq<u8>) -> Seq<u8> {
    Seq::new(pixels.len(), |i: int| 0u8)
}

/// The pixel store after `pixel` was drawn on a display of `count` panels: a
/// position on the display gets the pixel's state, a position off the
/// display changes nothing.
pub open spec fn draw_one(pixels: Seq<u8>, count: int, pixel: Pixel) -> Seq<u8> {
    if in_bounds(8 * count, 8, pixel.x as int, pixel.y as int) {
        pixels.update(
            pixel_index((pixel.x as int) / 8, pixel.y as int, (pixel.x as int) % 8),
            pixel_byte(pixel.on),
        )
    } else {
        pixels
    }
}

/// The pixel store after the first `n` of `items` were drawn, in order.
pub open spec fn draw_all(pixels: Seq<u8>, count: int, items: Seq<Pixel>, n: int) -> Seq<u8>
    decreases n,
{
    if n <= 0 {
        pixels
    } else {
        draw_one(draw_all(pixels, count, items, n - 1), count, items[n - 1])
    }
}

/// The pixel store of a row of chained 8x8 panels.
#[derive(Debug)]
pub struct FrameBuffer {
    pixels: Vec<u8>,
    device_count: usize,
}

impl View for FrameBuffer {
    type V = Seq<u8>;

    /// The pixel bytes, `64 * device_count` of them.
    closed spec fn view(&self) -> Seq<u8> {
        self.pixels@
    }
}

impl FrameBuffer {
    /// The number of panels.
    pub closed spec fn spec_device_count(&self) -> usize {
        self.device_count
    }

    /// Every pixel store has at least one and at most `MAX_DISPLAYS` panels,
    /// and 64 pixel bytes for each of them.
    #[verifier::type_invariant]
    pub open spec fn well_formed(self) -> bool {
        &&& 1 <= self.spec_device_count() <= MAX_DISPLAYS
        &&& self@.len() == 64 * self.spec_device_count()
    }

    /// Creates a pixel store for `device_count` panels, all pixels off.
    ///
    /// A count outside `1..=MAX_DISPLAYS` is rejected with
    /// `Error::InvalidDeviceCount`.
    pub fn new(device_count: usize) -> (r: Result<Self, Error>)
        ensures
            1 <= device_count <= MAX_DISPLAYS ==> r is Ok && r->Ok_0.spec_device_count()
                == device_count && r->Ok_0@ == blank_pixels(device_count as int),
            !(1 <= device_count <= MAX_DISPLAYS) ==> r is Err && r->Err_0
                == Error::InvalidDeviceCount,
    {
        if device_count < 1 || device_count > MAX_DISPLAYS {
            return Err(Error::InvalidDeviceCount);
        }
        let len: usize = device_count * PANEL_PIXELS;
        let mut pixels: Vec<u8> = Vec::new();
        let mut i: usize = 0;
        while i < len
            invariant
                i <= len,
                pixels@.len() == i,
                forall|k: int| 0 <= k < i ==> pixels@[k] == 0,
            decreases len - i,
        {
            pixels.push(0u8);
            i += 1;
        }
        assert(pixels@ =~= blank_pixels(device_count as int));
        Ok(Self { pixels, device_count })
    }

    /// Returns the number of panels.
    #[verifier::when_used_as_spec(spec_device_count)]
    pub fn device_count(&self) -> (count: usize)
        ensures
            count == self.spec_device_count(),
            1 <= count <= MAX_DISPLAYS,
            self@.len() == 64 * count,
    {
        proof {
            use_type_invariant(self);
        }
        self.device_count
    }

    /// The pixel bytes.
    pub fn pixels(&self) -> (pixels: &Vec<u8>)
        ensures
            pixels@ == self@,
            pixels@.len() == 64 * self.spec_device_count(),
    {
        proof {
            use_type_invariant(self);
        }
        &self.pixels
    }

    /// Sets the pixel in column `col` and row `row` of device `device`.
    ///
    /// A device outside the chain, or a column or row outside `0..8`, is
    /// rejected with `Error::BufferError` and leaves the store as it was.
    pub fn set_pixel(&mut self, device: usize, col: usize, row: usize, on: bool) -> (r: Result<
        (),
        Error,
    >)
        ensures
            final(self).spec_device_count() == old(self).spec_device_count(),
            device < old(self).spec_device_count() && col < 8 && row < 8 ==> r is Ok
                && final(self)@ == old(self)@.update(
                pixel_index(device as int, row as int, col as int),
                pixel_byte(on),
            ),
            !(device < old(self).spec_device_count() && col < 8 && row < 8) ==> r is Err
                && r->Err_0 == Error::BufferError && final(self)@ == old(self)@,
    {
        proof {
            use_type_invariant(&*self);
        }
        if device >= self.device_count || col >= 8 || row >= 8 {
            return Err(Error::BufferError);
        }
        let index: usize = device * PANEL_PIXELS + row * 8 + col;
        self.pixels[index] = if on {
            1u8
        } else {
            0u8
        };
        Ok(())
    }

    /// Whether the pixel in column `col` and row `row` of device `device` is
    /// on.
    ///
    /// A device outside the chain, or a column or row outside `0..8`, is
    /// rejected with `Error::BufferError`.
    pub fn get_pixel(&self, device: usize, col: usize, row: usize) -> (r: Result<bool, Error>)
        ensures
            device < self.spec_device_count() && col < 8 && row < 8 ==> r is Ok && r->Ok_0 == (
            self@[pixel_index(device as int, row as int, col as int)] != 0),
            !(device < self.spec_device_count() && col < 8 && row < 8) ==> r is Err && r->Err_0
                == Error::BufferError,
    {
        proof {
            use_type_invariant(self);
        }
        if device >= self.device_count || col >= 8 || row >= 8 {
            return Err(Error::BufferError);
        }
        let index: usize = device * PANEL_PIXELS + row * 8 + col;
        Ok(self.pixels[index] != 0)
    }

    /// Switches all pixels off.
    pub fn clear(&mut self)
        ensures
            final(self).spec_device_count() == old(self).spec_device_count(),
            final(self)@ == cleared(old(self)@),
    {
        proof {
            use_type_invariant(&*self);
        }
        let len: usize = self.pixels.len();
        let mut i: usize = 0;
        while i < len
            invariant
                i <= len,
                len == self.pixels@.len(),
                len == 64 * self.device_count,
                1 <= self.device_count <= MAX_DISPLAYS,
                self.device_count == old(self).device_count,
                forall|k: int| 0 <= k < i ==> self.pixels@[k] == 0,
            decreases len - i,
        {
            self.pixels[i] = 0u8;
            i += 1;
        }
        assert(self@ =~= cleared(old(self)@));
    }

    /// Packs row `row` of device `device_index` into the byte for the chip:
    /// bit `7 - col` is set when the pixel in column `col` is on.
    pub fn pack_row(&self, device_index: usize, row: usize) -> (packed: u8)
        requires
            device_index < self.spec_device_count(),
            row < 8,
        ensures
            packed == packed_row(self@, device_index as int, row as int),
    {
        proof {
            use_type_invariant(self);
        }
        let buffer_start: usize = device_index * PANEL_PIXELS + row * 8;
        let ghost pixels = row_pixels(self@, device_index as int, row as int);
        let mut packed: u8 = 0;
        let mut col: usize = 0;
        while col < 8
            invariant
                col <= 8,
                buffer_start == device_index * 64 + row * 8,
                buffer_start + 8 <= self.pixels@.len(),
                pixels.len() == 8,
                forall|c: int|
                    0 <= c < 8 ==> #[trigger] pixels[c] == (self.pixels@[buffer_start + c] != 0),
                packed == pack_prefix(pixels, col as int),
            decreases 8 - col,
        {
            let on = self.pixels[buffer_start + col] != 0;
            assert(on == pixels[col as int]);
            packed = with_column(packed, col, on);
            col += 1;
        }
        packed
    }

    /// The size of the display in pixels: eight columns per panel, eight
    /// rows.
    pub fn size(&self) -> (size: (u32, u32))
        ensures
            size.0 == 8 * self.spec_device_count(),
            size.1 == 8,
    {
        proof {
            use_type_invariant(self);
        }
        (self.device_count as u32 * 8, 8)
    }

    /// Draws one pixel by its position on the whole display. A position off
    /// the display is ignored.
    pub fn draw_pixel(&mut self, pixel: Pixel)
        ensures
            final(self).spec_device_count() == old(self).spec_device_count(),
            final(self)@ == draw_one(old(self)@, old(self).spec_device_count() as int, pixel),
    {
        proof {
            use_type_invariant(&*self);
        }
        let size = self.size();
        if bounding_box_contains(size.0, size.1, pixel.x, pixel.y) {
            let device: usize = (pixel.x as usize) / 8;
            let col: usize = (pixel.x as usize) % 8;
            let row: usize = pixel.y as usize;
            let index: usize = device * PANEL_PIXELS + row * 8 + col;
            self.pixels[index] = if pixel.on {
                1u8
            } else {
                0u8
            };
        }
    }

    /// Draws the given pixels in order. Positions off the display are
    /// ignored; nothing is sent to the chips until the next flush.
    pub fn draw_iter(&mut self, pixels: &[Pixel])
        ensures
            final(self).spec_device_count() == old(self).spec_device_count(),
            final(self)@ == draw_all(
                old(self)@,
                old(self).spec_device_count() as int,
                pixels@,
                pixels@.len() as int,
            ),
    {
        let mut i: usize = 0;
        while i < pixels.len()
            invariant
                i <= pixels@.len(),
                self.spec_device_count() == old(self).spec_device_count(),
                self@ == draw_all(
                    old(self)@,
                    old(self).spec_device_count() as int,
                    pixels@,
                    i as int,
                ),
            decreases pixels@.len() - i,
        {
            self.draw_pixel(pixels[i]);
            i += 1;
        }
    }
}

/// Packing a row and reading bit `7 - col` back gives the state that the
/// pixel was last set to, for every column and row of every device.
pub proof fn lemma_set_pixel_then_pack(
    pixels: Seq<u8>,
    count: int,
    device: int,
    col: int,
    row: int,
    on: bool,
)
    requires
        1 <= count,
        pixels.len() == 64 * count,
        0 <= device < count,
        0 <= col < 8,
        0 <= row < 8,
    ensures
        column_on(
            packed_row(pixels.update(pixel_index(device, row, col), pixel_byte(on)), device, row),
            col,
        ) == on,
{
    let after = pixels.update(pixel_index(device, row, col), pixel_byte(on));
    lemma_pack_then_read(row_pixels(after, device, row), col);
}

/// Reading bit `7 - col` of a packed row tells whether the pixel in that
/// column is on.
pub proof fn lemma_packed_row_column(pixels: Seq<u8>, device: int, row: int, col: int)
    requires
        0 <= col < 8,
    ensures
        column_on(packed_row(pixels, device, row), col) == (pixels[pixel_index(device, row, col)]
            != 0),
{
    lemma_pack_then_read(row_pixels(pixels, device, row), col);
}

/// Setting a pixel leaves the packed bytes of all other rows, and of all
/// other devices, as they were.
pub proof fn lemma_set_pixel_keeps_other_rows(
    pixels: Seq<u8>,
    count: int,
    device: int,
    col: int,
    row: int,
    on: bool,
    other_device: int,
    other_row: int,
)
    requires
        1 <= count,
        pixels.len() == 64 * count,
        0 <= device < count,
        0 <= col < 8,
        0 <= row < 8,
        0 <= other_device < count,
        0 <= other_row < 8,
        other_device != device || other_row != row,
    ensures
        packed_row(
            pixels.update(pixel_index(device, row, col), pixel_byte(on)),
            other_device,
            other_row,
        ) == packed_row(pixels, other_device, other_row),
{
    let after = pixels.update(pixel_index(device, row, col), pixel_byte(on));
    assert(row_pixels(after, other_device, other_row) =~= row_pixels(
        pixels,
        other_device,
        other_row,
    ));
}

/// In the frame of row `row`, device `device` finds its digit register at
/// byte `2 * device` and its packed row right after it.
pub proof fn lemma_flush_frame_layout(pixels: Seq<u8>, count: int, row: int, device: int)
    requires
        0 <= device < count,
        0 <= row < 8,
    ensures
        flush_frames(pixels, count)[row].len() == 2 * count,
        flush_frames(pixels, count)[row][2 * device] == Register::spec_digit(row).spec_addr(),
        flush_frames(pixels, count)[row][2 * device + 1] == packed_row(pixels, device, row),
{
    let ops = flush_ops(pixels, count, row);
    crate::driver::frame::lemma_chain_frame_layout(ops, count - 1 - device);
}

/// Clearing is idempotent: a store cleared twice is the store cleared once,
/// which is the blank store of its size.
pub proof fn lemma_clear_twice(pixels: Seq<u8>, count: int)
    requires
        pixels.len() == 64 * count,
    ensures
        cleared(cleared(pixels)) == cleared(pixels),
        cleared(pixels) == blank_pixels(count),
{
    assert(cleared(cleared(pixels)) =~= cleared(pixels));
    assert(cleared(pixels) =~= blank_pixels(count));
}

/// The frames of a flush depend on the pixels and the number of panels
/// alone, and a cleared store flushes to the frames that blank every digit
/// register directly. So flushing a cleared store again, or clearing it again
/// before the flush, sends the same bytes each time.
pub proof fn lemma_blank_flush(pixels: Seq<u8>, count: int)
    requires
        1 <= count,
        pixels.len() == 64 * count,
    ensures
        flush_frames(cleared(pixels), count) == crate::driver::frame::clear_all_frames(count),
        flush_frames(cleared(cleared(pixels)), count) == flush_frames(cleared(pixels), count),
{
    lemma_clear_twice(pixels, count);
    let blank = cleared(pixels);
    assert forall|row: int| 0 <= row < 8 implies flush_frames(blank, count)[row]
        == crate::driver::frame::clear_all_frames(count)[row] by {
        let ops = flush_ops(blank, count, row);
        let uniform = crate::driver::frame::uniform_ops(count, Register::spec_digit(row), 0x00);
        assert forall|j: int| 0 <= j < count implies ops[j] == uniform[j] by {
            let device = count - 1 - j;
            let bits = row_pixels(blank, device, row);
            assert forall|col: int| 0 <= col < 8 implies !bits[col] by {
                assert(0 <= pixel_index(device, row, col) < 64 * count);
            }
            lemma_pack_blank(bits, 8);
        }
        assert(ops =~= uniform);
    }
    assert(flush_frames(blank, count) =~= crate::driver::frame::clear_all_frames(count));
}

} // verus!
