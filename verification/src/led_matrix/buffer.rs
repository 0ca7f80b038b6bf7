//! An 8x8 bitmap, one byte per row.

use crate::error::Error;
use vstd::prelude::*;

verus! {

/// 8x8 matrix buffer: eight rows of eight pixels, one byte per row.
///
/// Pixel `(x, y)` is bit `x` of row `y`.
#[derive(Debug, Clone)]
pub struct MatrixBuffer {
    data: [u8; 8],
}

/// The row byte `row` with bit `x` set or cleared.
pub open spec fn with_bit(row: u8, x: u8, state: bool) -> u8 {
    if state {
        row | (1u8 << x)
    } else {
        row & !(1u8 << x)
    }
}

/// Whether bit `x` of the row byte `row` is set.
pub open spec fn bit_of(row: u8, x: u8) -> bool {
    row & (1u8 << x) != 0
}

impl View for MatrixBuffer {
    type V = Seq<u8>;

    /// The eight row bytes, top row first.
    closed spec fn view(&self) -> Seq<u8> {
        self.data@
    }
}

impl MatrixBuffer {
    /// A buffer always has eight rows.
    pub broadcast proof fn lemma_eight_rows(&self)
        ensures
            #[trigger] self@.len() == 8,
    {
    }

    /// Whether pixel `(x, y)` is on.
    pub open spec fn pixel(&self, x: u8, y: u8) -> bool {
        bit_of(self@[y as int], x)
    }

    /// Create a new empty buffer
    pub fn new() -> (buffer: Self)
        ensures
            buffer@ == Seq::new(8, |i: int| 0u8),
    {
        let buffer = Self { data: [0u8; 8] };
        assert(buffer@ =~= Seq::new(8, |i: int| 0u8));
        buffer
    }

    /// Create a buffer from raw row data
    pub fn from_data(data: [u8; 8]) -> (buffer: Self)
        ensures
            buffer@ == data@,
    {
        Self { data }
    }

    /// Get reference to buffer data
    pub fn data(&self) -> (rows: &[u8; 8])
        ensures
            rows@ == self@,
    {
        &self.data
    }

    /// Get mutable reference to buffer data
    pub fn data_mut(&mut self) -> (rows: &mut [u8; 8])
        ensures
            rows@ == old(self)@,
            final(self)@ == final(rows)@,
    {
        &mut self.data
    }

    /// Set a pixel in the buffer
    ///
    /// A coordinate outside `0..8` is rejected with `Error::BufferError` and
    /// leaves the buffer as it was.
    pub fn set_pixel(&mut self, x: u8, y: u8, state: bool) -> (r: Result<(), Error>)
        ensures
            x < 8 && y < 8 ==> r is Ok && final(self)@ == old(self)@.update(
                y as int,
                with_bit(old(self)@[y as int], x, state),
            ),
            x >= 8 || y >= 8 ==> r is Err && r->Err_0 == Error::BufferError && final(self)@ == old(self)@,
    {
        if x >= 8 || y >= 8 {
            return Err(Error::BufferError);
        }
        let bit_mask: u8 = 1u8 << x;
        let row: u8 = self.data[y as usize];
        if state {
            self.data[y as usize] = row | bit_mask;
        } else {
            self.data[y as usize] = row & !bit_mask;
        }
        assert(self@ =~= old(self)@.update(y as int, with_bit(old(self)@[y as int], x, state)));
        Ok(())
    }

    /// Get pixel state from buffer
    ///
    /// A coordinate outside `0..8` is rejected with `Error::BufferError`.
    pub fn get_pixel(&self, x: u8, y: u8) -> (r: Result<bool, Error>)
        ensures
            x < 8 && y < 8 ==> r is Ok && r->Ok_0 == self.pixel(x, y),
            x >= 8 || y >= 8 ==> r is Err && r->Err_0 == Error::BufferError,
    {
        if x >= 8 || y >= 8 {
            return Err(Error::BufferError);
        }
        let bit_mask: u8 = 1u8 << x;
        Ok((self.data[y as usize] & bit_mask) != 0)
    }

    /// Clear the entire buffer
    pub fn clear(&mut self)
        ensures
            final(self)@ == Seq::new(8, |i: int| 0u8),
    {
        self.data = [0u8; 8];
        assert(self@ =~= Seq::new(8, |i: int| 0u8));
    }

    /// Fill the entire buffer
    pub fn fill(&mut self)
        ensures
            final(self)@ == Seq::new(8, |i: int| 0xFFu8),
    {
        self.data = [0xFFu8; 8];
        assert(self@ =~= Seq::new(8, |i: int| 0xFFu8));
    }

    /// Set a row in the buffer
    ///
    /// A row outside `0..8` is rejected with `Error::BufferError` and leaves
    /// the buffer as it was.
    pub fn set_row(&mut self, row: u8, data: u8) -> (r: Result<(), Error>)
        ensures
            row < 8 ==> r is Ok && final(self)@ == old(self)@.update(row as int, data),
            row >= 8 ==> r is Err && r->Err_0 == Error::BufferError && final(self)@ == old(self)@,
    {
        if row >= 8 {
            return Err(Error::BufferError);
        }
        self.data[row as usize] = data;
        assert(self@ =~= old(self)@.update(row as int, data));
        Ok(())
    }

    /// Get a row from the buffer
    ///
    /// A row outside `0..8` is rejected with `Error::BufferError`.
    pub fn get_row(&self, row: u8) -> (r: Result<u8, Error>)
        ensures
            row < 8 ==> r is Ok && r->Ok_0 == self@[row as int],
            row >= 8 ==> r is Err && r->Err_0 == Error::BufferError,
    {
        if row >= 8 {
            return Err(Error::BufferError);
        }
        Ok(self.data[row as usize])
    }

    /// Setting or clearing bit `x` of a row makes that bit read as `state`
    /// and leaves the other seven bits of the row as they were.
    pub proof fn lemma_with_bit(row: u8, x: u8, state: bool, other: u8)
        requires
            x < 8,
            other < 8,
        ensures
            bit_of(with_bit(row, x, state), x) == state,
            other != x ==> bit_of(with_bit(row, x, state), other) == bit_of(row, other),
    {
        assert((row | (1u8 << x)) & (1u8 << x) != 0) by (bit_vector)
            requires
                x < 8,
        ;
        assert((row & !(1u8 << x)) & (1u8 << x) == 0) by (bit_vector)
            requires
                x < 8,
        ;
        assert(other != x ==> ((row | (1u8 << x)) & (1u8 << other)) == (row & (1u8 << other)))
            by (bit_vector)
            requires
                x < 8,
                other < 8,
        ;
        assert(other != x ==> ((row & !(1u8 << x)) & (1u8 << other)) == (row & (1u8 << other)))
            by (bit_vector)
            requires
                x < 8,
                other < 8,
        ;
    }

    /// After pixel `(x, y)` was set to `state`, it reads back as `state`, and
    /// every other pixel reads as it did before.
    pub proof fn lemma_set_then_get(
        before: MatrixBuffer,
        after: MatrixBuffer,
        x: u8,
        y: u8,
        state: bool,
        x2: u8,
        y2: u8,
    )
        requires
            x < 8,
            y < 8,
            x2 < 8,
            y2 < 8,
            after@ == before@.update(y as int, with_bit(before@[y as int], x, state)),
        ensures
            after.pixel(x, y) == state,
            (x2 != x || y2 != y) ==> after.pixel(x2, y2) == before.pixel(x2, y2),
    {
        before.lemma_eight_rows();
        Self::lemma_with_bit(before@[y as int], x, state, x2);
    }
}

impl Default for MatrixBuffer {
    /// The empty buffer.
    fn default() -> (buffer: Self)
        ensures
            buffer@ == Seq::new(8, |i: int| 0u8),
    {
        Self::new()
    }
}

} // verus!
