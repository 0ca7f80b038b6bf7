//! The byte layout of a bus frame.
//!
//! A frame is the byte sequence of one bus transaction: one
//! `(register address, value)` pair per device of the chain. Bytes clocked out
//! first travel furthest down the chain, so when every device is addressed at
//! once the pair for device 0 (the furthest one) is sent last.

use crate::registers::Register;
use vstd::prelude::*;

verus! {

/// The frame that writes `value` to `register` on device `index` of a chain of
/// `count` devices and leaves every other device alone.
///
/// The pair sits at byte offset `2 * index`; every other pair is the no-op
/// register with value 0.
pub open spec fn single_write_frame(count: int, index: int, register: Register, value: u8) -> Seq<
    u8,
> {
    Seq::new(
        (2 * count) as nat,
        |k: int|
            if k == 2 * index {
                register.spec_addr()
            } else if k == 2 * index + 1 {
                value
            } else {
                0u8
            },
    )
}

/// The frame that applies `ops[i]` to device `i`, for every device at once.
///
/// The pair of `ops[i]` sits at byte offset `2 * (ops.len() - 1 - i)`.
pub open spec fn chain_frame(ops: Seq<(Register, u8)>) -> Seq<u8> {
    Seq::new(
        2 * ops.len(),
        |k: int|
            {
                let op = ops[ops.len() - 1 - k / 2];
                if k % 2 == 0 {
                    op.0.spec_addr()
                } else {
                    op.1
                }
            },
    )
}

/// The batch that writes `value` to `register` on each of `count` devices.
pub open spec fn uniform_ops(count: int, register: Register, value: u8) -> Seq<(Register, u8)> {
    Seq::new(count as nat, |i: int| (register, value))
}

/// The frame that writes `value` to `register` on each of `count` devices.
pub open spec fn uniform_frame(count: int, register: Register, value: u8) -> Seq<u8> {
    chain_frame(uniform_ops(count, register, value))
}

/// What the fixed-size scratch buffer holds after `frame` was encoded in it:
/// the frame, followed by zeros.
pub open spec fn padded(frame: Seq<u8>, capacity: int) -> Seq<u8> {
    Seq::new(
        capacity as nat,
        |k: int|
            if k < frame.len() {
                frame[k]
            } else {
                0u8
            },
    )
}

/// The power-on sequence of a chain of `count` devices, one frame per bus
/// transaction: leave shutdown, leave display test, scan all eight digits,
/// switch decoding off, then blank every digit register.
pub open spec fn init_frames(count: int) -> Seq<Seq<u8>> {
    seq![
        uniform_frame(count, Register::Shutdown, 0x01),
        uniform_frame(count, Register::DisplayTest, 0x00),
        uniform_frame(count, Register::ScanLimit, 0x07),
        uniform_frame(count, Register::DecodeMode, 0x00),
    ] + clear_all_frames(count)
}

/// The eight frames that blank device `index`, one per digit register in row
/// order.
pub open spec fn clear_display_frames(count: int, index: int) -> Seq<Seq<u8>> {
    Seq::new(8, |row: int| single_write_frame(count, index, Register::spec_digit(row), 0x00))
}

/// The eight frames that blank every device, one per digit register in row
/// order.
pub open spec fn clear_all_frames(count: int) -> Seq<Seq<u8>> {
    Seq::new(8, |row: int| uniform_frame(count, Register::spec_digit(row), 0x00))
}

/// The eight frames that write the row bytes `rows` to the digit registers of
/// device `index`, row 0 first.
pub open spec fn bitmap_frames(count: int, index: int, rows: Seq<u8>) -> Seq<Seq<u8>> {
    Seq::new(8, |row: int| single_write_frame(count, index, Register::spec_digit(row), rows[row]))
}

/// The frames that set the intensity of each device in turn, device 0 first.
pub open spec fn intensity_frames(count: int, intensity: u8) -> Seq<Seq<u8>> {
    Seq::new(
        count as nat,
        |device: int| single_write_frame(count, device, Register::Intensity, intensity),
    )
}

/// Appending a frame to a list of frames appends its bytes to the list's
/// deep view.
pub proof fn lemma_push_frame(before: Vec<Vec<u8>>, after: Vec<Vec<u8>>, frame: Vec<u8>)
    requires
        after@ == before@.push(frame),
    ensures
        after.deep_view() == before.deep_view().push(frame@),
{
    assert(frame.deep_view() =~= frame@);
    assert(after.deep_view() =~= before.deep_view().push(frame@));
}

/// A single-device frame has two bytes per device, and its only pair that can
/// be different from zero is the one of the addressed device.
pub proof fn lemma_single_write_frame_shape(
    count: int,
    index: int,
    register: Register,
    value: u8,
)
    requires
        0 <= index < count,
    ensures
        single_write_frame(count, index, register, value).len() == 2 * count,
        single_write_frame(count, index, register, value)[2 * index] == register.spec_addr(),
        single_write_frame(count, index, register, value)[2 * index + 1] == value,
        forall|k: int|
            0 <= k < 2 * count && k != 2 * index && k != 2 * index + 1
                ==> #[trigger] single_write_frame(count, index, register, value)[k] == 0,
{
}

/// In a frame for the whole chain, the pair of `ops[i]` starts at byte
/// `2 * (ops.len() - 1 - i)`: first its register address, then its value.
pub proof fn lemma_chain_frame_layout(ops: Seq<(Register, u8)>, i: int)
    requires
        0 <= i < ops.len(),
    ensures
        chain_frame(ops).len() == 2 * ops.len(),
        chain_frame(ops)[2 * (ops.len() - 1 - i)] == ops[i].0.spec_addr(),
        chain_frame(ops)[2 * (ops.len() - 1 - i) + 1] == ops[i].1,
{
    let n = ops.len() as int;
    let k = 2 * (n - 1 - i);
    assert(k / 2 == n - 1 - i);
    assert(k % 2 == 0);
    assert((k + 1) / 2 == n - 1 - i);
    assert((k + 1) % 2 == 1);
}

/// A uniform frame repeats the same pair once per device, so it reads the
/// same whatever the order of the devices.
pub proof fn lemma_uniform_frame_layout(count: int, register: Register, value: u8, i: int)
    requires
        0 <= i < count,
    ensures
        uniform_frame(count, register, value).len() == 2 * count,
        uniform_frame(count, register, value)[2 * i] == register.spec_addr(),
        uniform_frame(count, register, value)[2 * i + 1] == value,
{
    let k = 2 * i;
    assert(k / 2 == i);
    assert(k % 2 == 0);
    assert((k + 1) / 2 == i);
    assert((k + 1) % 2 == 1);
}

} // verus!
