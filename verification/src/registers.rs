//! Register addresses and decode modes of the MAX7219.

use crate::error::DigitError;
use vstd::prelude::*;

verus! {

/// A control register of the chip.
///
/// The address of a register travels in the first byte of each 16-bit packet.
#[derive(Debug, Clone, Copy, PartialEq, Eq, Structural)]
pub enum Register {
    /// No-op register
    NoOp,
    /// Digit 0 register
    Digit0,
    /// Digit 1 register
    Digit1,
    /// Digit 2 register
    Digit2,
    /// Digit 3 register
    Digit3,
    /// Digit 4 register
    Digit4,
    /// Digit 5 register
    Digit5,
    /// Digit 6 register
    Digit6,
    /// Digit 7 register
    Digit7,
    /// Decode mode register
    DecodeMode,
    /// Intensity register
    Intensity,
    /// Scan limit register
    ScanLimit,
    /// Shutdown register
    Shutdown,
    /// Display test register
    DisplayTest,
}

impl Register {
    /// The address byte of this register.
    pub open spec fn spec_addr(self) -> u8 {
        match self {
            Register::NoOp => 0x00,
            Register::Digit0 => 0x01,
            Register::Digit1 => 0x02,
            Register::Digit2 => 0x03,
            Register::Digit3 => 0x04,
            Register::Digit4 => 0x05,
            Register::Digit5 => 0x06,
            Register::Digit6 => 0x07,
            Register::Digit7 => 0x08,
            Register::DecodeMode => 0x09,
            Register::Intensity => 0x0A,
            Register::ScanLimit => 0x0B,
            Register::Shutdown => 0x0C,
            Register::DisplayTest => 0x0F,
        }
    }

    /// The digit register that drives row `digit`, for `digit` in `0..8`.
    pub open spec fn spec_digit(digit: int) -> Register {
        if digit == 0 {
            Register::Digit0
        } else if digit == 1 {
            Register::Digit1
        } else if digit == 2 {
            Register::Digit2
        } else if digit == 3 {
            Register::Digit3
        } else if digit == 4 {
            Register::Digit4
        } else if digit == 5 {
            Register::Digit5
        } else if digit == 6 {
            Register::Digit6
        } else {
            Register::Digit7
        }
    }

    /// Convert the register to its address byte.
    #[verifier::when_used_as_spec(spec_addr)]
    pub fn addr(self) -> (a: u8)
        ensures
            a == self.spec_addr(),
            a <= 0x0F,
    {
        match self {
            Register::NoOp => 0x00,
            Register::Digit0 => 0x01,
            Register::Digit1 => 0x02,
            Register::Digit2 => 0x03,
            Register::Digit3 => 0x04,
            Register::Digit4 => 0x05,
            Register::Digit5 => 0x06,
            Register::Digit6 => 0x07,
            Register::Digit7 => 0x08,
            Register::DecodeMode => 0x09,
            Register::Intensity => 0x0A,
            Register::ScanLimit => 0x0B,
            Register::Shutdown => 0x0C,
            Register::DisplayTest => 0x0F,
        }
    }

    /// Convert a digit index (0-7) into the corresponding digit register.
    ///
    /// An index outside `0..8` is rejected rather than wrapped.
    pub fn try_digit(digit: u8) -> (r: Result<Register, DigitError>)
        ensures
            digit < 8 ==> r == Ok::<Register, DigitError>(Self::spec_digit(digit as int)),
            digit >= 8 ==> r == Err::<Register, DigitError>(DigitError::InvalidDigit),
    {
        match digit {
            0 => Ok(Register::Digit0),
            1 => Ok(Register::Digit1),
            2 => Ok(Register::Digit2),
            3 => Ok(Register::Digit3),
            4 => Ok(Register::Digit4),
            5 => Ok(Register::Digit5),
            6 => Ok(Register::Digit6),
            7 => Ok(Register::Digit7),
            _ => Err(DigitError::InvalidDigit),
        }
    }

    /// All digit registers, `Digit0` to `Digit7`, in row order.
    pub fn digits() -> (all: [Register; 8])
        ensures
            forall|i: int| 0 <= i < 8 ==> all[i] == Self::spec_digit(i),
    {
        [
            Register::Digit0,
            Register::Digit1,
            Register::Digit2,
            Register::Digit3,
            Register::Digit4,
            Register::Digit5,
            Register::Digit6,
            Register::Digit7,
        ]
    }

    /// The digit registers occupy the eight addresses after the no-op
    /// register, in row order: row `digit` is addressed by `digit + 1`.
    pub proof fn lemma_digit_addresses(digit: int)
        requires
            0 <= digit < 8,
        ensures
            Self::spec_digit(digit).spec_addr() == digit + 1,
            Self::spec_digit(digit) != Register::NoOp,
            Register::NoOp.spec_addr() == 0,
    {
    }

    /// Only the no-op register has address zero.
    pub proof fn lemma_noop_is_only_zero(register: Register)
        ensures
            register.spec_addr() == 0 <==> register == Register::NoOp,
    {
    }
}

/// Which digits use the chip's built-in Code B decoding.
#[derive(Debug, Clone, Copy, PartialEq, Eq, Structural)]
pub enum DecodeMode {
    /// Disable Code B decoding for all digits.
    NoDecode,
    /// Enable Code B decoding for digit 0 only.
    Digit0,
    /// Enable Code B decoding for digits 0 through 3.
    Digits0To3,
    /// Enable Code B decoding for all digits.
    AllDigits,
}

impl DecodeMode {
    /// The byte written to the decode-mode register for this mode.
    pub open spec fn spec_value(self) -> u8 {
        match self {
            DecodeMode::NoDecode => 0x00,
            DecodeMode::Digit0 => 0x01,
            DecodeMode::Digits0To3 => 0x0F,
            DecodeMode::AllDigits => 0xFF,
        }
    }

    /// Convert the decode mode to its register value.
    #[verifier::when_used_as_spec(spec_value)]
    pub fn value(self) -> (v: u8)
        ensures
            v == self.spec_value(),
    {
        match self {
            DecodeMode::NoDecode => 0x00,
            DecodeMode::Digit0 => 0x01,
            DecodeMode::Digits0To3 => 0x0F,
            DecodeMode::AllDigits => 0xFF,
        }
    }
}

} // verus!
