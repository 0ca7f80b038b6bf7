//! Error types of the encoder.

use vstd::prelude::*;

verus! {

/// Errors reported by the encoder.
///
/// Every error is a validation failure: it is detected before any frame for
/// the rejected operation has been produced.
#[derive(Debug, Clone, Copy, PartialEq, Eq, Structural)]
pub enum Error {
    /// The device count is outside `1..=MAX_DISPLAYS`, or a batch of
    /// operations does not hold exactly one entry per configured device.
    InvalidDeviceCount,
    /// Invalid scan limit value (must be 1-8)
    InvalidScanLimit,
    /// The specified register address is not valid for the chip.
    InvalidRegister,
    /// Invalid device index (exceeds configured number of devices)
    InvalidDeviceIndex,
    /// Invalid digit position (0-7)
    InvalidDigit,
    /// Invalid intensity value (must be 0-15)
    InvalidIntensity,
    /// Unsupported character
    UnsupportedChar,
    /// Matrix buffer coordinate out of range
    BufferError,
}

impl Error {
    /// The text that describes the error.
    pub open spec fn spec_message(self) -> Seq<char> {
        match self {
            Error::InvalidDeviceCount => "Invalid display count"@,
            Error::InvalidScanLimit => "Invalid scan limit value"@,
            Error::InvalidRegister => "Invalid register address"@,
            Error::InvalidDeviceIndex => "Invalid display index"@,
            Error::InvalidDigit => "Invalid digit"@,
            Error::InvalidIntensity => "Invalid intensity value"@,
            Error::UnsupportedChar => "Unsupported Character"@,
            Error::BufferError => "LED Matrix buffer error"@,
        }
    }

    /// A short description of the error, for display.
    pub fn message(&self) -> (text: String)
        ensures
            text@ == self.spec_message(),
    {
        match self {
            Error::InvalidDeviceCount => "Invalid display count".to_owned(),
            Error::InvalidScanLimit => "Invalid scan limit value".to_owned(),
            Error::InvalidRegister => "Invalid register address".to_owned(),
            Error::InvalidDeviceIndex => "Invalid display index".to_owned(),
            Error::InvalidDigit => "Invalid digit".to_owned(),
            Error::InvalidIntensity => "Invalid intensity value".to_owned(),
            Error::UnsupportedChar => "Unsupported Character".to_owned(),
            Error::BufferError => "LED Matrix buffer error".to_owned(),
        }
    }
}

/// A digit value outside the valid range (0-7) was provided.
#[derive(Debug, Clone, Copy, PartialEq, Eq, Structural)]
pub enum DigitError {
    /// The digit value must be between 0 and 7.
    InvalidDigit,
}

/// Errors related to matrix buffer operations.
#[derive(Debug, Clone, Copy, PartialEq, Eq, Structural)]
pub enum MatrixError {
    /// A coordinate outside the 8x8 buffer was used.
    BufferError,
}

impl From<DigitError> for Error {
    /// A rejected digit index is reported as `Error::InvalidDigit`.
    fn from(e: DigitError) -> (r: Error) {
        Error::InvalidDigit
    }
}

impl vstd::std_specs::convert::FromSpecImpl<DigitError> for Error {
    open spec fn obeys_from_spec() -> bool {
        true
    }

    open spec fn from_spec(e: DigitError) -> Error {
        Error::InvalidDigit
    }
}

impl From<MatrixError> for Error {
    /// A rejected buffer coordinate is reported as `Error::BufferError`.
    fn from(e: MatrixError) -> (r: Error) {
        Error::BufferError
    }
}

impl vstd::std_specs::convert::FromSpecImpl<MatrixError> for Error {
    open spec fn obeys_from_spec() -> bool {
        true
    }

    open spec fn from_spec(e: MatrixError) -> Error {
        Error::BufferError
    }
}

} // verus!
