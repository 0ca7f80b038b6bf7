use max7219_display::error::{DigitError, MatrixError};
use max7219_display::{DecodeMode, Error, Register, MAX_DISPLAYS, NUM_DIGITS};

#[test]
fn register_addresses() {
    assert_eq!(Register::NoOp.addr(), 0x00);
    assert_eq!(Register::Digit0.addr(), 0x01);
    assert_eq!(Register::Digit1.addr(), 0x02);
    assert_eq!(Register::Digit2.addr(), 0x03);
    assert_eq!(Register::Digit3.addr(), 0x04);
    assert_eq!(Register::Digit4.addr(), 0x05);
    assert_eq!(Register::Digit5.addr(), 0x06);
    assert_eq!(Register::Digit6.addr(), 0x07);
    assert_eq!(Register::Digit7.addr(), 0x08);
    assert_eq!(Register::DecodeMode.addr(), 0x09);
    assert_eq!(Register::Intensity.addr(), 0x0A);
    assert_eq!(Register::ScanLimit.addr(), 0x0B);
    assert_eq!(Register::Shutdown.addr(), 0x0C);
    assert_eq!(Register::DisplayTest.addr(), 0x0F);
}

#[test]
fn try_digit_maps_rows_to_digit_registers() {
    assert_eq!(Register::try_digit(0), Ok(Register::Digit0));
    assert_eq!(Register::try_digit(3), Ok(Register::Digit3));
    assert_eq!(Register::try_digit(7), Ok(Register::Digit7));
    let mut digit = 0u8;
    while digit < 8 {
        assert_eq!(Register::try_digit(digit).unwrap().addr(), digit + 1);
        digit += 1;
    }
}

#[test]
fn try_digit_rejects_out_of_range() {
    assert_eq!(Register::try_digit(8), Err(DigitError::InvalidDigit));
    assert_eq!(Register::try_digit(255), Err(DigitError::InvalidDigit));
}

#[test]
fn digits_are_in_row_order() {
    let digits = Register::digits();
    assert_eq!(
        digits,
        [
            Register::Digit0,
            Register::Digit1,
            Register::Digit2,
            Register::Digit3,
            Register::Digit4,
            Register::Digit5,
            Register::Digit6,
            Register::Digit7,
        ]
    );
}

#[test]
fn decode_mode_values() {
    assert_eq!(DecodeMode::NoDecode.value(), 0x00);
    assert_eq!(DecodeMode::Digit0.value(), 0x01);
    assert_eq!(DecodeMode::Digits0To3.value(), 0x0F);
    assert_eq!(DecodeMode::AllDigits.value(), 0xFF);
}

#[test]
fn constants() {
    assert_eq!(MAX_DISPLAYS, 8);
    assert_eq!(NUM_DIGITS, 8);
}

#[test]
fn error_conversions() {
    assert_eq!(Error::from(DigitError::InvalidDigit), Error::InvalidDigit);
    assert_eq!(Error::from(MatrixError::BufferError), Error::BufferError);
}

#[test]
fn error_messages() {
    assert_eq!(Error::InvalidDeviceIndex.message(), "Invalid display index");
    assert_eq!(Error::InvalidDigit.message(), "Invalid digit");
    assert_eq!(Error::InvalidIntensity.message(), "Invalid intensity value");
    assert_eq!(Error::InvalidScanLimit.message(), "Invalid scan limit value");
    assert_eq!(Error::InvalidDeviceCount.message(), "Invalid display count");
    assert_eq!(Error::InvalidRegister.message(), "Invalid register address");
    assert_eq!(Error::UnsupportedChar.message(), "Unsupported Character");
    assert_eq!(Error::BufferError.message(), "LED Matrix buffer error");
}
