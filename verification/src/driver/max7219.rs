//! The chain driver: turns register writes into bus frames.

use crate::driver::frame::{
    chain_frame, clear_all_frames, clear_display_frames, init_frames, intensity_frames,
    lemma_push_frame, padded, single_write_frame, uniform_frame, uniform_ops,
};
use crate::error::Error;
use crate::registers::{DecodeMode, Register};
use crate::{MAX_DISPLAYS, NUM_DIGITS};
use vstd::prelude::*;

verus! {

/// Size of the scratch buffer: two bytes for each device of the longest chain.
pub const SCRATCH_LEN: usize = 16;

/// Encoder for a chain of MAX7219 devices.
///
/// Device 0 is the device furthest from the host, device `device_count - 1`
/// the nearest. Every operation encodes into a scratch buffer owned by the
/// driver, which is zeroed at the start of each encoding, and hands back the
/// first `2 * device_count` bytes as the frame to transmit.
#[derive(Debug)]
pub struct Max7219 {
    buffer: [u8; 16],
    device_count: usize,
}

impl Max7219 {
    /// The number of devices in the chain.
    pub closed spec fn spec_device_count(&self) -> usize {
        self.device_count
    }

    /// Every driver has a chain of at least one and at most `MAX_DISPLAYS`
    /// devices.
    #[verifier::type_invariant]
    pub open spec fn well_formed(self) -> bool {
        1 <= self.spec_device_count() <= MAX_DISPLAYS
    }

    /// The contents of the scratch buffer.
    pub closed spec fn scratch(&self) -> Seq<u8> {
        self.buffer@
    }

    /// The state of `self` after a driver in state `before` has encoded
    /// `frame`: the chain is as long as it was and the scratch buffer holds
    /// the frame followed by zeros.
    pub open spec fn has_encoded(&self, before: Max7219, frame: Seq<u8>) -> bool {
        &&& self.spec_device_count() == before.spec_device_count()
        &&& self.scratch() == padded(frame, SCRATCH_LEN as int)
    }

    /// Creates a driver for a single device.
    pub fn new() -> (driver: Self)
        ensures
            driver.spec_device_count() == 1,
            driver.scratch() == padded(Seq::<u8>::empty(), SCRATCH_LEN as int),
    {
        let driver = Self { buffer: [0u8; 16], device_count: 1 };
        assert(driver.buffer@ =~= padded(Seq::<u8>::empty(), SCRATCH_LEN as int));
        driver
    }

    /// Returns the number of devices in the chain.
    #[verifier::when_used_as_spec(spec_device_count)]
    pub fn device_count(&self) -> (count: usize)
        ensures
            count == self.spec_device_count(),
            1 <= count <= MAX_DISPLAYS,
    {
        proof {
            use_type_invariant(self);
        }
        self.device_count
    }

    /// Sets the number of daisy-chained devices.
    ///
    /// A chain has between 1 and `MAX_DISPLAYS` devices; any other count is
    /// rejected with `Error::InvalidDeviceCount`.
    pub fn with_device_count(self, count: usize) -> (r: Result<Self, Error>)
        ensures
            1 <= count <= MAX_DISPLAYS ==> r is Ok && r->Ok_0.spec_device_count() == count
                && r->Ok_0.scratch() == self.scratch(),
            !(1 <= count <= MAX_DISPLAYS) ==> r is Err && r->Err_0
                == Error::InvalidDeviceCount,
    {
        if count < 1 || count > MAX_DISPLAYS {
            return Err(Error::InvalidDeviceCount);
        }
        Ok(Self { buffer: self.buffer, device_count: count })
    }

    /// Copies the frame out of the scratch buffer.
    fn emit(&self) -> (frame: Vec<u8>)
        ensures
            frame@ == self.scratch().subrange(0, 2 * self.spec_device_count()),
    {
        proof {
            use_type_invariant(self);
        }
        let len: usize = self.device_count * 2;
        let mut frame: Vec<u8> = Vec::new();
        let mut k: usize = 0;
        while k < len
            invariant
                k <= len,
                len == 2 * self.device_count,
                len <= 16,
                frame@ == self.buffer@.subrange(0, k as int),
            decreases len - k,
        {
            frame.push(self.buffer[k]);
            assert(frame@ =~= self.buffer@.subrange(0, k + 1));
            k += 1;
        }
        frame
    }

    /// Encodes the frame that writes `data` to `register` on the device at
    /// `device_index`, which must be a device of the chain.
    pub(crate) fn encode_one(&mut self, device_index: usize, register: Register, data: u8) -> (frame:
        Vec<u8>)
        requires
            device_index < old(self).spec_device_count(),
        ensures
            frame@ == single_write_frame(
                old(self).spec_device_count() as int,
                device_index as int,
                register,
                data,
            ),
            final(self).has_encoded(*old(self), frame@),
    {
        proof {
            use_type_invariant(&*self);
        }
        self.buffer = [0u8; 16];
        let offset: usize = device_index * 2;
        self.buffer[offset] = register.addr();
        self.buffer[offset + 1] = data;
        let frame = self.emit();
        proof {
            let model = single_write_frame(
                self.device_count as int,
                device_index as int,
                register,
                data,
            );
            assert(frame@ =~= model);
            assert(self.buffer@ =~= padded(model, SCRATCH_LEN as int));
        }
        frame
    }

    /// Writes `data` to `register` on the device at `device_index`.
    ///
    /// The frame holds the pair at byte offset `2 * device_index`; all other
    /// devices receive the no-op register with value 0. An index outside the
    /// chain is rejected with `Error::InvalidDeviceIndex`.
    pub fn write_device_register(&mut self, device_index: usize, register: Register, data: u8) -> (r:
        Result<Vec<u8>, Error>)
        ensures
            device_index < old(self).spec_device_count() ==> r is Ok && r->Ok_0@
                == single_write_frame(
                old(self).spec_device_count() as int,
                device_index as int,
                register,
                data,
            ) && final(self).has_encoded(*old(self), r->Ok_0@),
            device_index >= old(self).spec_device_count() ==> r is Err && r->Err_0
                == Error::InvalidDeviceIndex && *final(self) == *old(self),
    {
        if device_index >= self.device_count {
            return Err(Error::InvalidDeviceIndex);
        }
        Ok(self.encode_one(device_index, register, data))
    }

    /// Encodes one operation per device into the scratch buffer, `ops[i]` for
    /// device `i`, filling the buffer from the last operation to the first.
    fn encode_all(&mut self, ops: &[(Register, u8)]) -> (frame: Vec<u8>)
        requires
            ops@.len() == old(self).spec_device_count(),
        ensures
            frame@ == chain_frame(ops@),
            final(self).has_encoded(*old(self), frame@),
    {
        proof {
            use_type_invariant(&*self);
        }
        let count: usize = self.device_count;
        self.buffer = [0u8; 16];
        let mut i: usize = 0;
        while i < count
            invariant
                i <= count,
                count == self.device_count,
                count == ops@.len(),
                1 <= count <= 8,
                forall|k: int|
                    0 <= k < 2 * i ==> #[trigger] self.buffer@[k] == chain_frame(ops@)[k],
                forall|k: int| 2 * i <= k < 16 ==> #[trigger] self.buffer@[k] == 0,
            decreases count - i,
        {
            let op = ops[count - 1 - i];
            let offset: usize = i * 2;
            self.buffer[offset] = op.0.addr();
            self.buffer[offset + 1] = op.1;
            proof {
                assert((2 * i) / 2 == i as int);
                assert((2 * i + 1) / 2 == i as int);
            }
            i += 1;
        }
        let frame = self.emit();
        proof {
            assert(frame@ =~= chain_frame(ops@));
            assert(self.buffer@ =~= padded(chain_frame(ops@), SCRATCH_LEN as int));
        }
        frame
    }

    /// Writes each `(register, data)` pair to its device in one frame:
    /// `ops[0]` to device 0, `ops[1]` to device 1, and so on.
    ///
    /// The pair of `ops[i]` is placed at byte offset
    /// `2 * (device_count - 1 - i)`, so that the pair for the furthest device
    /// is transmitted last. A batch that does not hold exactly one entry per
    /// device is rejected with `Error::InvalidDeviceCount`.
    pub fn write_all_registers(&mut self, ops: &[(Register, u8)]) -> (r: Result<Vec<u8>, Error>)
        ensures
            ops@.len() == old(self).spec_device_count() ==> r is Ok && r->Ok_0@ == chain_frame(
                ops@,
            ) && final(self).has_encoded(*old(self), r->Ok_0@),
            ops@.len() != old(self).spec_device_count() ==> r is Err && r->Err_0
                == Error::InvalidDeviceCount && *final(self) == *old(self),
    {
        if ops.len() != self.device_count {
            return Err(Error::InvalidDeviceCount);
        }
        Ok(self.encode_all(ops))
    }
    /// Encodes the frame that writes `value` to `register` on every device.
    fn write_to_all(&mut self, register: Register, value: u8) -> (frame: Vec<u8>)
        ensures
            frame@ == uniform_frame(old(self).spec_device_count() as int, register, value),
            final(self).has_encoded(*old(self), frame@),
    {
        proof {
            use_type_invariant(&*self);
        }
        let count: usize = self.device_count;
        let mut ops: Vec<(Register, u8)> = Vec::new();
        let mut i: usize = 0;
        while i < count
            invariant
                i <= count,
                ops@ == uniform_ops(i as int, register, value),
            decreases count - i,
        {
            ops.push((register, value));
            assert(ops@ =~= uniform_ops(i + 1, register, value));
            i += 1;
        }
        self.encode_all(ops.as_slice())
    }

    /// Brings all devices into a known state: leaves shutdown and display
    /// test, scans all digits, switches Code B decoding off and blanks every
    /// digit register. Twelve frames, in this order.
    pub fn init(&mut self) -> (r: Result<Vec<Vec<u8>>, Error>)
        ensures
            r is Ok,
            r->Ok_0.deep_view() == init_frames(old(self).spec_device_count() as int),
            final(self).has_encoded(*old(self), r->Ok_0@.last()@),
    {
        let ghost count = self.spec_device_count() as int;
        let mut frames: Vec<Vec<u8>> = Vec::new();
        assert(frames.deep_view() =~= Seq::<Seq<u8>>::empty());
        let ghost f0 = frames;
        let frame = self.write_to_all(Register::Shutdown, 0x01);
        frames.push(frame);
        proof {
            lemma_push_frame(f0, frames, frame);
        }
        let ghost f1 = frames;
        let frame = self.write_to_all(Register::DisplayTest, 0x00);
        frames.push(frame);
        proof {
            lemma_push_frame(f1, frames, frame);
        }
        let ghost f2 = frames;
        let frame = self.write_to_all(Register::ScanLimit, NUM_DIGITS - 1);
        frames.push(frame);
        proof {
            lemma_push_frame(f2, frames, frame);
        }
        let ghost f3 = frames;
        let frame = self.write_to_all(Register::DecodeMode, DecodeMode::NoDecode.value());
        frames.push(frame);
        proof {
            lemma_push_frame(f3, frames, frame);
        }
        self.push_clear_all(&mut frames);
        assert(frames.deep_view() =~= init_frames(count));
        Ok(frames)
    }

    /// Appends to `frames` the eight frames that blank every device.
    fn push_clear_all(&mut self, frames: &mut Vec<Vec<u8>>)
        ensures
            final(frames).deep_view() == old(frames).deep_view() + clear_all_frames(
                old(self).spec_device_count() as int,
            ),
            final(frames)@.len() == old(frames)@.len() + 8,
            final(self).has_encoded(*old(self), final(frames)@.last()@),
    {
        let ghost count = self.spec_device_count() as int;
        let digits = Register::digits();
        let mut row: usize = 0;
        while row < 8
            invariant
                row <= 8,
                self.spec_device_count() == count,
                old(self).spec_device_count() == count,
                forall|i: int| 0 <= i < 8 ==> digits[i] == Register::spec_digit(i),
                frames@.len() == old(frames)@.len() + row,
                frames.deep_view() == old(frames).deep_view() + clear_all_frames(count).take(
                    row as int,
                ),
                row > 0 ==> self.has_encoded(*old(self), frames@.last()@),
            decreases 8 - row,
        {
            let ghost before = *frames;
            let frame = self.write_to_all(digits[row], 0x00);
            frames.push(frame);
            proof {
                lemma_push_frame(before, *frames, frame);
                assert(frames.deep_view() =~= old(frames).deep_view() + clear_all_frames(
                    count,
                ).take(row + 1));
            }
            row += 1;
        }
        assert(clear_all_frames(count).take(8) =~= clear_all_frames(count));
    }

    /// Powers on all devices by writing `0x01` to the shutdown register.
    pub fn power_on(&mut self) -> (r: Result<Vec<u8>, Error>)
        ensures
            r is Ok,
            r->Ok_0@ == uniform_frame(
                old(self).spec_device_count() as int,
                Register::Shutdown,
                0x01,
            ),
            final(self).has_encoded(*old(self), r->Ok_0@),
    {
        Ok(self.write_to_all(Register::Shutdown, 0x01))
    }

    /// Powers off all devices by writing `0x00` to the shutdown register.
    pub fn power_off(&mut self) -> (r: Result<Vec<u8>, Error>)
        ensures
            r is Ok,
            r->Ok_0@ == uniform_frame(
                old(self).spec_device_count() as int,
                Register::Shutdown,
                0x00,
            ),
            final(self).has_encoded(*old(self), r->Ok_0@),
    {
        Ok(self.write_to_all(Register::Shutdown, 0x00))
    }

    /// Powers on a single device by writing `0x01` to its shutdown register.
    pub fn power_on_display(&mut self, device_index: usize) -> (r: Result<Vec<u8>, Error>)
        ensures
            device_index < old(self).spec_device_count() ==> r is Ok && r->Ok_0@
                == single_write_frame(
                old(self).spec_device_count() as int,
                device_index as int,
                Register::Shutdown,
                0x01,
            ) && final(self).has_encoded(*old(self), r->Ok_0@),
            device_index >= old(self).spec_device_count() ==> r is Err && r->Err_0
                == Error::InvalidDeviceIndex && *final(self) == *old(self),
    {
        self.write_device_register(device_index, Register::Shutdown, 0x01)
    }

    /// Powers off a single device by writing `0x00` to its shutdown register.
    pub fn power_off_display(&mut self, device_index: usize) -> (r: Result<Vec<u8>, Error>)
        ensures
            device_index < old(self).spec_device_count() ==> r is Ok && r->Ok_0@
                == single_write_frame(
                old(self).spec_device_count() as int,
                device_index as int,
                Register::Shutdown,
                0x00,
            ) && final(self).has_encoded(*old(self), r->Ok_0@),
            device_index >= old(self).spec_device_count() ==> r is Err && r->Err_0
                == Error::InvalidDeviceIndex && *final(self) == *old(self),
    {
        self.write_device_register(device_index, Register::Shutdown, 0x00)
    }

    /// Enables or disables display test mode on one device.
    ///
    /// In test mode all LEDs of the device are lit, whatever its digit
    /// registers hold.
    pub fn test_device(&mut self, device_index: usize, enable: bool) -> (r: Result<Vec<u8>, Error>)
        ensures
            device_index < old(self).spec_device_count() ==> r is Ok && r->Ok_0@
                == single_write_frame(
                old(self).spec_device_count() as int,
                device_index as int,
                Register::DisplayTest,
                if enable {
                    0x01u8
                } else {
                    0x00u8
                },
            ) && final(self).has_encoded(*old(self), r->Ok_0@),
            device_index >= old(self).spec_device_count() ==> r is Err && r->Err_0
                == Error::InvalidDeviceIndex && *final(self) == *old(self),
    {
        let data: u8 = if enable {
            0x01
        } else {
            0x00
        };
        self.write_device_register(device_index, Register::DisplayTest, data)
    }

    /// Enables or disables display test mode on all devices in one frame.
    pub fn test_all(&mut self, enable: bool) -> (r: Result<Vec<u8>, Error>)
        ensures
            r is Ok,
            r->Ok_0@ == uniform_frame(
                old(self).spec_device_count() as int,
                Register::DisplayTest,
                if enable {
                    0x01u8
                } else {
                    0x00u8
                },
            ),
            final(self).has_encoded(*old(self), r->Ok_0@),
    {
        let data: u8 = if enable {
            0x01
        } else {
            0x00
        };
        Ok(self.write_to_all(Register::DisplayTest, data))
    }

    /// Sets how many digits one device scans.
    ///
    /// `limit` is the number of digits, from 1 to 8; the chip receives
    /// `limit - 1`. A limit outside that range is rejected with
    /// `Error::InvalidScanLimit`, before the device index is looked at.
    pub fn set_device_scan_limit(&mut self, device_index: usize, limit: u8) -> (r: Result<
        Vec<u8>,
        Error,
    >)
        ensures
            !(1 <= limit <= 8) ==> r is Err && r->Err_0 == Error::InvalidScanLimit,
            1 <= limit <= 8 && device_index >= old(self).spec_device_count() ==> r is Err
                && r->Err_0 == Error::InvalidDeviceIndex,
            1 <= limit <= 8 && device_index < old(self).spec_device_count() ==> r is Ok
                && r->Ok_0@ == single_write_frame(
                old(self).spec_device_count() as int,
                device_index as int,
                Register::ScanLimit,
                (limit - 1) as u8,
            ) && final(self).has_encoded(*old(self), r->Ok_0@),
            r is Err ==> *final(self) == *old(self),
    {
        if limit < 1 || limit > 8 {
            return Err(Error::InvalidScanLimit);
        }
        self.write_device_register(device_index, Register::ScanLimit, limit - 1)
    }

    /// Sets how many digits every device scans, in one frame.
    ///
    /// `limit` is the number of digits, from 1 to 8; each chip receives
    /// `limit - 1`.
    pub fn set_scan_limit_all(&mut self, limit: u8) -> (r: Result<Vec<u8>, Error>)
        ensures
            !(1 <= limit <= 8) ==> r is Err && r->Err_0 == Error::InvalidScanLimit && *final(self)
                == *old(self),
            1 <= limit <= 8 ==> r is Ok && r->Ok_0@ == uniform_frame(
                old(self).spec_device_count() as int,
                Register::ScanLimit,
                (limit - 1) as u8,
            ) && final(self).has_encoded(*old(self), r->Ok_0@),
    {
        if limit < 1 || limit > 8 {
            return Err(Error::InvalidScanLimit);
        }
        Ok(self.write_to_all(Register::ScanLimit, limit - 1))
    }

    /// Sets which digits of one device use Code B decoding.
    pub fn set_device_decode_mode(&mut self, device_index: usize, mode: DecodeMode) -> (r: Result<
        Vec<u8>,
        Error,
    >)
        ensures
            device_index < old(self).spec_device_count() ==> r is Ok && r->Ok_0@
                == single_write_frame(
                old(self).spec_device_count() as int,
                device_index as int,
                Register::DecodeMode,
                mode.spec_value(),
            ) && final(self).has_encoded(*old(self), r->Ok_0@),
            device_index >= old(self).spec_device_count() ==> r is Err && r->Err_0
                == Error::InvalidDeviceIndex && *final(self) == *old(self),
    {
        self.write_device_register(device_index, Register::DecodeMode, mode.value())
    }

    /// Sets which digits use Code B decoding on every device, in one frame.
    pub fn set_decode_mode_all(&mut self, mode: DecodeMode) -> (r: Result<Vec<u8>, Error>)
        ensures
            r is Ok,
            r->Ok_0@ == uniform_frame(
                old(self).spec_device_count() as int,
                Register::DecodeMode,
                mode.spec_value(),
            ),
            final(self).has_encoded(*old(self), r->Ok_0@),
    {
        Ok(self.write_to_all(Register::DecodeMode, mode.value()))
    }

    /// Blanks one device by writing 0 to each of its digit registers.
    ///
    /// Eight frames, `Digit0` first.
    pub fn clear_display(&mut self, device_index: usize) -> (r: Result<Vec<Vec<u8>>, Error>)
        ensures
            device_index < old(self).spec_device_count() ==> r is Ok && r->Ok_0.deep_view()
                == clear_display_frames(old(self).spec_device_count() as int, device_index as int)
                && final(self).has_encoded(*old(self), r->Ok_0@.last()@),
            device_index >= old(self).spec_device_count() ==> r is Err && r->Err_0
                == Error::InvalidDeviceIndex && *final(self) == *old(self),
    {
        if device_index >= self.device_count() {
            return Err(Error::InvalidDeviceIndex);
        }
        let ghost count = self.spec_device_count() as int;
        let ghost model = clear_display_frames(count, device_index as int);
        let digits = Register::digits();
        let mut frames: Vec<Vec<u8>> = Vec::new();
        assert(frames.deep_view() =~= model.take(0));
        let mut row: usize = 0;
        while row < 8
            invariant
                row <= 8,
                self.spec_device_count() == count,
                old(self).spec_device_count() == count,
                device_index < count,
                model == clear_display_frames(count, device_index as int),
                forall|i: int| 0 <= i < 8 ==> digits[i] == Register::spec_digit(i),
                frames@.len() == row,
                frames.deep_view() == model.take(row as int),
                row > 0 ==> self.has_encoded(*old(self), frames@.last()@),
            decreases 8 - row,
        {
            let ghost before = frames;
            match self.write_device_register(device_index, digits[row], 0x00) {
                Ok(frame) => {
                    frames.push(frame);
                    proof {
                        lemma_push_frame(before, frames, frame);
                        assert(frames.deep_view() =~= model.take(row + 1));
                    }
                },
                Err(e) => {
                    return Err(e);
                },
            }
            row += 1;
        }
        assert(model.take(8) =~= model);
        Ok(frames)
    }

    /// Blanks every device by writing 0 to each digit register of all
    /// devices.
    ///
    /// Eight frames, `Digit0` first, each addressing the whole chain.
    pub fn clear_all(&mut self) -> (r: Result<Vec<Vec<u8>>, Error>)
        ensures
            r is Ok,
            r->Ok_0.deep_view() == clear_all_frames(old(self).spec_device_count() as int),
            final(self).has_encoded(*old(self), r->Ok_0@.last()@),
    {
        let mut frames: Vec<Vec<u8>> = Vec::new();
        assert(frames.deep_view() =~= Seq::<Seq<u8>>::empty());
        self.push_clear_all(&mut frames);
        assert(frames.deep_view() =~= clear_all_frames(old(self).spec_device_count() as int));
        Ok(frames)
    }

    /// Writes a raw 8-bit pattern to digit register `digit` (0 to 7) of one
    /// device.
    ///
    /// On a 7-segment display the bits are the segments `DP A B C D E F G`,
    /// most significant first; on an LED matrix the digit is a row and the
    /// bits are its columns. A digit outside `0..8` is rejected with
    /// `Error::InvalidDigit`, before the device index is looked at.
    pub fn write_raw_digit(&mut self, device_index: usize, digit: u8, value: u8) -> (r: Result<
        Vec<u8>,
        Error,
    >)
        ensures
            digit >= 8 ==> r is Err && r->Err_0 == Error::InvalidDigit,
            digit < 8 && device_index >= old(self).spec_device_count() ==> r is Err && r->Err_0
                == Error::InvalidDeviceIndex,
            digit < 8 && device_index < old(self).spec_device_count() ==> r is Ok && r->Ok_0@
                == single_write_frame(
                old(self).spec_device_count() as int,
                device_index as int,
                Register::spec_digit(digit as int),
                value,
            ) && final(self).has_encoded(*old(self), r->Ok_0@),
            r is Err ==> *final(self) == *old(self),
    {
        match Register::try_digit(digit) {
            Ok(digit_register) => self.write_device_register(device_index, digit_register, value),
            Err(e) => Err(Error::from(e)),
        }
    }

    /// Sets the brightness (0 to 15) of one device.
    ///
    /// An intensity above 15 is rejected with `Error::InvalidIntensity`,
    /// before the device index is looked at.
    pub fn set_intensity(&mut self, device_index: usize, intensity: u8) -> (r: Result<
        Vec<u8>,
        Error,
    >)
        ensures
            intensity > 0x0F ==> r is Err && r->Err_0 == Error::InvalidIntensity,
            intensity <= 0x0F && device_index >= old(self).spec_device_count() ==> r is Err
                && r->Err_0 == Error::InvalidDeviceIndex,
            intensity <= 0x0F && device_index < old(self).spec_device_count() ==> r is Ok
                && r->Ok_0@ == single_write_frame(
                old(self).spec_device_count() as int,
                device_index as int,
                Register::Intensity,
                intensity,
            ) && final(self).has_encoded(*old(self), r->Ok_0@),
            r is Err ==> *final(self) == *old(self),
    {
        if intensity > 0x0F {
            return Err(Error::InvalidIntensity);
        }
        self.write_device_register(device_index, Register::Intensity, intensity)
    }

    /// Sets the brightness (0 to 15) of every device, one frame per device,
    /// device 0 first.
    pub fn set_intensity_all(&mut self, intensity: u8) -> (r: Result<Vec<Vec<u8>>, Error>)
        ensures
            intensity > 0x0F ==> r is Err && r->Err_0 == Error::InvalidIntensity && *final(self)
                == *old(self),
            intensity <= 0x0F ==> r is Ok && r->Ok_0.deep_view() == intensity_frames(
                old(self).spec_device_count() as int,
                intensity,
            ) && final(self).has_encoded(*old(self), r->Ok_0@.last()@),
    {
        if intensity > 0x0F {
            return Err(Error::InvalidIntensity);
        }
        let count: usize = self.device_count();
        let ghost model = intensity_frames(count as int, intensity);
        let mut frames: Vec<Vec<u8>> = Vec::new();
        assert(frames.deep_view() =~= model.take(0));
        let mut device_index: usize = 0;
        while device_index < count
            invariant
                device_index <= count,
                self.spec_device_count() == count,
                old(self).spec_device_count() == count,
                intensity <= 0x0F,
                model == intensity_frames(count as int, intensity),
                frames@.len() == device_index,
                frames.deep_view() == model.take(device_index as int),
                device_index > 0 ==> self.has_encoded(*old(self), frames@.last()@),
            decreases count - device_index,
        {
            let ghost before = frames;
            match self.set_intensity(device_index, intensity) {
                Ok(frame) => {
                    frames.push(frame);
                    proof {
                        lemma_push_frame(before, frames, frame);
                        assert(frames.deep_view() =~= model.take(device_index + 1));
                    }
                },
                Err(e) => {
                    return Err(e);
                },
            }
            device_index += 1;
        }
        assert(model.take(count as int) =~= model);
        Ok(frames)
    }
}

} // verus!
