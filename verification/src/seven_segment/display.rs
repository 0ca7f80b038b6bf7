//! The 7-segment display: characters written to digit positions.

use crate::driver::frame::{init_frames, padded, single_write_frame};
use crate::driver::max7219::{Max7219, SCRATCH_LEN};
use crate::error::Error;
use crate::registers::Register;
use crate::seven_segment::fonts::Font;
use crate::MAX_DISPLAYS;
use vstd::prelude::*;

verus! {

/// The Code B value that shows `ch` on a digit in decode mode, for the
/// characters that Code B knows: the digits, `-`, `E`, `H`, `L`, `P` and
/// blank.
pub open spec fn bcd_code(ch: char) -> Option<u8> {
    if '0' <= ch <= '9' {
        Some((ch as u8 - 0x30) as u8)
    } else if ch == '-' {
        Some(0x0Au8)
    } else if ch == 'E' {
        Some(0x0Bu8)
    } else if ch == 'H' {
        Some(0x0Cu8)
    } else if ch == 'L' {
        Some(0x0Du8)
    } else if ch == 'P' {
        Some(0x0Eu8)
    } else if ch == ' ' {
        Some(0x0Fu8)
    } else {
        None
    }
}

/// A chain of 7-segment displays, each device driving up to eight digits.
#[derive(Debug)]
pub struct SevenSegment {
    driver: Max7219,
}

impl SevenSegment {
    /// The chain driver of the display.
    pub closed spec fn spec_driver(&self) -> Max7219 {
        self.driver
    }

    /// The number of devices in the chain.
    pub open spec fn chain_len(&self) -> int {
        self.spec_driver().spec_device_count() as int
    }

    /// The state of `self` after a display in state `before` has produced
    /// `frame`.
    pub open spec fn has_sent(&self, before: &SevenSegment, frame: Seq<u8>) -> bool {
        self.spec_driver().has_encoded(before.spec_driver(), frame)
    }

    /// Creates a display from an existing driver.
    pub fn new(driver: Max7219) -> (display: Self)
        ensures
            display.spec_driver() == driver,
    {
        Self { driver }
    }

    /// Creates the display for a chain of `device_count` devices, together
    /// with the twelve frames of the power-on sequence that initializes the
    /// chips.
    ///
    /// A count outside `1..=MAX_DISPLAYS` is rejected with
    /// `Error::InvalidDeviceCount`.
    pub fn from_spi(device_count: usize) -> (r: Result<(Self, Vec<Vec<u8>>), Error>)
        ensures
            1 <= device_count <= MAX_DISPLAYS ==> r is Ok && r->Ok_0.0.chain_len() == device_count
                && r->Ok_0.1.deep_view() == init_frames(device_count as int)
                && r->Ok_0.0.spec_driver().scratch() == padded(
                r->Ok_0.1@.last()@,
                SCRATCH_LEN as int,
            ),
            !(1 <= device_count <= MAX_DISPLAYS) ==> r is Err && r->Err_0
                == Error::InvalidDeviceCount,
    {
        let mut driver = match Max7219::new().with_device_count(device_count) {
            Ok(driver) => driver,
            Err(e) => {
                return Err(e);
            },
        };
        match driver.init() {
            Ok(frames) => Ok((Self { driver }, frames)),
            Err(e) => Err(e),
        }
    }

    /// Provides mutable access to the underlying driver, for the low-level
    /// operations.
    pub fn driver(&mut self) -> (driver: &mut Max7219)
        ensures
            *driver == old(self).spec_driver(),
            final(self).spec_driver() == *final(driver),
    {
        &mut self.driver
    }

    /// Writes a character to digit `digit` (0 to 7) of the first device.
    ///
    /// The character is converted to its segment pattern by `font`.
    pub fn write_char(&mut self, digit: u8, ch: char, font: &Font) -> (r: Result<Vec<u8>, Error>)
        ensures
            digit >= 8 ==> r is Err && r->Err_0 == Error::InvalidDigit,
            digit < 8 ==> r is Ok && r->Ok_0@ == single_write_frame(
                old(self).chain_len(),
                0,
                Register::spec_digit(digit as int),
                font.segments(ch),
            ) && final(self).has_sent(old(self), r->Ok_0@),
            r is Err ==> *final(self) == *old(self),
    {
        proof {
            use_type_invariant(&self.driver);
        }
        self.write_char_to_device(0, digit, ch, font)
    }

    /// Writes a character to digit `digit` (0 to 7) of device
    /// `device_index`.
    ///
    /// The character is converted to its segment pattern by `font`. A digit
    /// outside `0..8` is rejected with `Error::InvalidDigit`, before the
    /// device index is looked at.
    pub fn write_char_to_device(
        &mut self,
        device_index: usize,
        digit: u8,
        ch: char,
        font: &Font,
    ) -> (r: Result<Vec<u8>, Error>)
        ensures
            digit >= 8 ==> r is Err && r->Err_0 == Error::InvalidDigit,
            digit < 8 && device_index >= old(self).chain_len() ==> r is Err && r->Err_0
                == Error::InvalidDeviceIndex,
            digit < 8 && device_index < old(self).chain_len() ==> r is Ok && r->Ok_0@
                == single_write_frame(
                old(self).chain_len(),
                device_index as int,
                Register::spec_digit(digit as int),
                font.segments(ch),
            ) && final(self).has_sent(old(self), r->Ok_0@),
            r is Err ==> *final(self) == *old(self),
    {
        let data = font.get_char(ch);
        self.driver.write_raw_digit(device_index, digit, data)
    }

    /// Writes a character to digit `digit` (0 to 7) of the first device, for
    /// a chip in Code B decode mode.
    ///
    /// Code B knows the digits `'0'` to `'9'`, `'-'`, `'E'`, `'H'`, `'L'`,
    /// `'P'` and the blank. Any other character is rejected with
    /// `Error::UnsupportedChar`, before the digit is looked at.
    pub fn write_bcd_char(&mut self, digit: u8, ch: char) -> (r: Result<Vec<u8>, Error>)
        ensures
            bcd_code(ch) is None ==> r is Err && r->Err_0 == Error::UnsupportedChar,
            bcd_code(ch) is Some && digit >= 8 ==> r is Err && r->Err_0 == Error::InvalidDigit,
            bcd_code(ch) is Some && digit < 8 ==> r is Ok && r->Ok_0@ == single_write_frame(
                old(self).chain_len(),
                0,
                Register::spec_digit(digit as int),
                bcd_code(ch)->Some_0,
            ) && final(self).has_sent(old(self), r->Ok_0@),
            r is Err ==> *final(self) == *old(self),
    {
        let data: u8 = if '0' <= ch && ch <= '9' {
            ch as u8 - 0x30
        } else if ch == '-' {
            0x0A
        } else if ch == 'E' {
            0x0B
        } else if ch == 'H' {
            0x0C
        } else if ch == 'L' {
            0x0D
        } else if ch == 'P' {
            0x0E
        } else if ch == ' ' {
            0x0F
        } else {
            return Err(Error::UnsupportedChar);
        };
        proof {
            use_type_invariant(&self.driver);
        }
        self.driver.write_raw_digit(0, digit, data)
    }
}

} // verus!
