//! Packing eight pixels into one row byte.
//!
//! Column 0 of a row is the leftmost pixel and travels in the most
//! significant bit: column `col` is bit `7 - col`.

use vstd::prelude::*;

verus! {

/// The bit of a row byte that drives column `col`.
pub open spec fn column_mask(col: int) -> u8 {
    1u8 << ((7 - col) as u8)
}

/// The row byte of the first `n` pixels of `pixels`; the others are off.
pub open spec fn pack_prefix(pixels: Seq<bool>, n: int) -> u8
    decreases n,
{
    if n <= 0 {
        0u8
    } else if pixels[n - 1] {
        pack_prefix(pixels, n - 1) | column_mask(n - 1)
    } else {
        pack_prefix(pixels, n - 1)
    }
}

/// The row byte of eight pixels, leftmost pixel in the most significant bit.
pub open spec fn pack_row(pixels: Seq<bool>) -> u8 {
    pack_prefix(pixels, 8)
}

/// Whether column `col` is on in the row byte `row`.
pub open spec fn column_on(row: u8, col: int) -> bool {
    (row >> ((7 - col) as u8)) & 1u8 != 0
}

/// Adds column `col` to a row byte under construction, if the pixel is on.
pub(crate) fn with_column(row: u8, col: usize, on: bool) -> (packed: u8)
    requires
        col < 8,
    ensures
        packed == if on {
            row | column_mask(col as int)
        } else {
            row
        },
{
    if on {
        row | (1u8 << ((7 - col) as u8))
    } else {
        row
    }
}

/// Reads column `col` of a row byte.
pub(crate) fn read_column(row: u8, col: usize) -> (on: bool)
    requires
        col < 8,
    ensures
        on == column_on(row, col as int),
{
    (row >> ((7 - col) as u8)) & 1u8 != 0
}

/// In the row byte of the first `n` pixels, column `col` is on exactly when
/// it is among those pixels and its pixel is on.
pub proof fn lemma_pack_prefix_column(pixels: Seq<bool>, n: int, col: int)
    requires
        0 <= n <= 8,
        0 <= col < 8,
    ensures
        column_on(pack_prefix(pixels, n), col) == (col < n && pixels[col]),
    decreases n,
{
    let shift = (7 - col) as u8;
    if n <= 0 {
        assert((0u8 >> shift) & 1u8 == 0) by (bit_vector);
    } else {
        lemma_pack_prefix_column(pixels, n - 1, col);
        let rest = pack_prefix(pixels, n - 1);
        let added = (7 - (n - 1)) as u8;
        if pixels[n - 1] {
            assert(added == shift ==> ((rest | (1u8 << added)) >> shift) & 1u8 != 0)
                by (bit_vector)
                requires
                    added < 8,
                    shift < 8,
            ;
            assert(added != shift ==> ((rest | (1u8 << added)) >> shift) & 1u8 == (rest >> shift)
                & 1u8) by (bit_vector)
                requires
                    added < 8,
                    shift < 8,
            ;
        }
    }
}

/// Packing a row and reading column `col` back gives the pixel that was
/// packed.
pub proof fn lemma_pack_then_read(pixels: Seq<bool>, col: int)
    requires
        0 <= col < 8,
    ensures
        column_on(pack_row(pixels), col) == pixels[col],
{
    lemma_pack_prefix_column(pixels, 8, col);
}

/// A row byte is the packing of its own columns.
pub proof fn lemma_read_then_pack(row: u8)
    ensures
        pack_row(Seq::new(8, |col: int| column_on(row, col))) == row,
{
    let pixels = Seq::new(8, |col: int| column_on(row, col));
    let packed = pack_row(pixels);
    assert forall|col: int| 0 <= col < 8 implies column_on(packed, col) == column_on(row, col) by {
        lemma_pack_then_read(pixels, col);
    }
    assert(column_on(packed, 0) == column_on(row, 0));
    assert(column_on(packed, 1) == column_on(row, 1));
    assert(column_on(packed, 2) == column_on(row, 2));
    assert(column_on(packed, 3) == column_on(row, 3));
    assert(column_on(packed, 4) == column_on(row, 4));
    assert(column_on(packed, 5) == column_on(row, 5));
    assert(column_on(packed, 6) == column_on(row, 6));
    assert(column_on(packed, 7) == column_on(row, 7));
    assert(packed == row) by (bit_vector)
        requires
            ((packed >> 7u8) & 1u8 != 0) == ((row >> 7u8) & 1u8 != 0),
            ((packed >> 6u8) & 1u8 != 0) == ((row >> 6u8) & 1u8 != 0),
            ((packed >> 5u8) & 1u8 != 0) == ((row >> 5u8) & 1u8 != 0),
            ((packed >> 4u8) & 1u8 != 0) == ((row >> 4u8) & 1u8 != 0),
            ((packed >> 3u8) & 1u8 != 0) == ((row >> 3u8) & 1u8 != 0),
            ((packed >> 2u8) & 1u8 != 0) == ((row >> 2u8) & 1u8 != 0),
            ((packed >> 1u8) & 1u8 != 0) == ((row >> 1u8) & 1u8 != 0),
            ((packed >> 0u8) & 1u8 != 0) == ((row >> 0u8) & 1u8 != 0),
    ;
}

/// A row of pixels that are all off packs to zero.
pub proof fn lemma_pack_blank(pixels: Seq<bool>, n: int)
    requires
        0 <= n <= 8,
        forall|col: int| 0 <= col < n ==> !pixels[col],
    ensures
        pack_prefix(pixels, n) == 0,
    decreases n,
{
    if n > 0 {
        lemma_pack_blank(pixels, n - 1);
    }
}

} // verus!
