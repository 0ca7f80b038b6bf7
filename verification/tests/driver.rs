use max7219_display::{DecodeMode, Error, Max7219, Register};

fn chain(count: usize) -> Max7219 {
    Max7219::new().with_device_count(count).unwrap()
}

#[test]
fn new_driver_has_one_device() {
    assert_eq!(Max7219::new().device_count(), 1);
}

#[test]
fn with_device_count_accepts_one_to_eight() {
    let mut count = 1;
    while count <= 8 {
        assert_eq!(chain(count).device_count(), count);
        count += 1;
    }
}

#[test]
fn with_device_count_rejects_zero_and_more_than_eight() {
    assert!(matches!(Max7219::new().with_device_count(0), Err(Error::InvalidDeviceCount)));
    assert!(matches!(Max7219::new().with_device_count(9), Err(Error::InvalidDeviceCount)));
    assert!(matches!(
        Max7219::new().with_device_count(usize::MAX),
        Err(Error::InvalidDeviceCount)
    ));
}

#[test]
fn write_device_register_places_the_pair_at_the_device_offset() {
    let mut driver = chain(4);
    assert_eq!(
        driver.write_device_register(0, Register::Intensity, 0x07),
        Ok(vec![0x0A, 0x07, 0, 0, 0, 0, 0, 0])
    );
    assert_eq!(
        driver.write_device_register(2, Register::Digit3, 0xAB),
        Ok(vec![0, 0, 0, 0, 0x04, 0xAB, 0, 0])
    );
    assert_eq!(
        driver.write_device_register(3, Register::Shutdown, 0x01),
        Ok(vec![0, 0, 0, 0, 0, 0, 0x0C, 0x01])
    );
}

#[test]
fn write_device_register_for_every_chain_length_and_device() {
    let mut count = 1;
    while count <= 8 {
        let mut driver = chain(count);
        let mut index = 0;
        while index < count {
            let frame = driver.write_device_register(index, Register::DisplayTest, 0x5A).unwrap();
            assert_eq!(frame.len(), count * 2);
            let mut k = 0;
            while k < frame.len() {
                if k == index * 2 {
                    assert_eq!(frame[k], 0x0F);
                } else if k == index * 2 + 1 {
                    assert_eq!(frame[k], 0x5A);
                } else {
                    assert_eq!(frame[k], 0);
                }
                k += 1;
            }
            index += 1;
        }
        assert_eq!(
            driver.write_device_register(count, Register::DisplayTest, 0x5A),
            Err(Error::InvalidDeviceIndex)
        );
        count += 1;
    }
}

#[test]
fn write_device_register_does_not_leak_the_previous_frame() {
    let mut driver = chain(3);
    driver.write_device_register(2, Register::Digit0, 0xFF).unwrap();
    assert_eq!(
        driver.write_device_register(0, Register::Digit1, 0x11),
        Ok(vec![0x02, 0x11, 0, 0, 0, 0])
    );
    driver
        .write_all_registers(&[
            (Register::Digit0, 1),
            (Register::Digit0, 2),
            (Register::Digit0, 3),
        ])
        .unwrap();
    assert_eq!(
        driver.write_device_register(1, Register::Digit1, 0x22),
        Ok(vec![0, 0, 0x02, 0x22, 0, 0])
    );
}

#[test]
fn write_all_registers_reverses_the_device_order() {
    let mut driver = chain(3);
    assert_eq!(
        driver.write_all_registers(&[
            (Register::Digit0, 0x10),
            (Register::Digit1, 0x20),
            (Register::Digit2, 0x30),
        ]),
        Ok(vec![0x03, 0x30, 0x02, 0x20, 0x01, 0x10])
    );
}

#[test]
fn write_all_registers_two_devices_powering_on() {
    let mut driver = chain(2);
    assert_eq!(
        driver.write_all_registers(&[(Register::Shutdown, 0x01), (Register::Shutdown, 0x01)]),
        Ok(vec![Register::Shutdown.addr(), 0x01, Register::Shutdown.addr(), 0x01])
    );
}

#[test]
fn write_all_registers_rejects_a_batch_of_the_wrong_length() {
    let mut driver = chain(2);
    assert_eq!(
        driver.write_all_registers(&[(Register::Shutdown, 0x01)]),
        Err(Error::InvalidDeviceCount)
    );
    assert_eq!(driver.write_all_registers(&[]), Err(Error::InvalidDeviceCount));
    assert_eq!(
        driver.write_all_registers(&[(Register::Shutdown, 0x01); 3]),
        Err(Error::InvalidDeviceCount)
    );
    assert_eq!(
        driver.write_all_registers(&[(Register::NoOp, 0); 9]),
        Err(Error::InvalidDeviceCount)
    );
}

#[test]
fn write_all_registers_position_of_each_operation() {
    let mut count = 1usize;
    while count <= 8 {
        let mut driver = chain(count);
        let digits = Register::digits();
        let mut ops = Vec::new();
        let mut i = 0;
        while i < count {
            ops.push((digits[i], (i as u8) * 3 + 1));
            i += 1;
        }
        let frame = driver.write_all_registers(&ops).unwrap();
        assert_eq!(frame.len(), count * 2);
        let mut i = 0;
        while i < count {
            assert_eq!(frame[(count - 1 - i) * 2], ops[i].0.addr());
            assert_eq!(frame[(count - 1 - i) * 2 + 1], ops[i].1);
            i += 1;
        }
        count += 1;
    }
}

#[test]
fn power_on_and_off() {
    let mut driver = chain(2);
    assert_eq!(driver.power_on(), Ok(vec![0x0C, 0x01, 0x0C, 0x01]));
    assert_eq!(driver.power_off(), Ok(vec![0x0C, 0x00, 0x0C, 0x00]));
    assert_eq!(driver.power_on_display(1), Ok(vec![0, 0, 0x0C, 0x01]));
    assert_eq!(driver.power_off_display(0), Ok(vec![0x0C, 0x00, 0, 0]));
    assert_eq!(driver.power_on_display(2), Err(Error::InvalidDeviceIndex));
    assert_eq!(driver.power_off_display(2), Err(Error::InvalidDeviceIndex));
}

#[test]
fn display_test() {
    let mut driver = chain(2);
    assert_eq!(driver.test_all(true), Ok(vec![0x0F, 0x01, 0x0F, 0x01]));
    assert_eq!(driver.test_all(false), Ok(vec![0x0F, 0x00, 0x0F, 0x00]));
    assert_eq!(driver.test_device(1, true), Ok(vec![0, 0, 0x0F, 0x01]));
    assert_eq!(driver.test_device(0, false), Ok(vec![0x0F, 0x00, 0, 0]));
    assert_eq!(driver.test_device(2, true), Err(Error::InvalidDeviceIndex));
}

#[test]
fn scan_limit() {
    let mut driver = chain(2);
    assert_eq!(driver.set_scan_limit_all(8), Ok(vec![0x0B, 0x07, 0x0B, 0x07]));
    assert_eq!(driver.set_scan_limit_all(1), Ok(vec![0x0B, 0x00, 0x0B, 0x00]));
    assert_eq!(driver.set_scan_limit_all(0), Err(Error::InvalidScanLimit));
    assert_eq!(driver.set_scan_limit_all(9), Err(Error::InvalidScanLimit));
    assert_eq!(driver.set_device_scan_limit(1, 4), Ok(vec![0, 0, 0x0B, 0x03]));
    assert_eq!(driver.set_device_scan_limit(1, 0), Err(Error::InvalidScanLimit));
    assert_eq!(driver.set_device_scan_limit(1, 9), Err(Error::InvalidScanLimit));
    assert_eq!(driver.set_device_scan_limit(2, 4), Err(Error::InvalidDeviceIndex));
    // the limit is checked before the device index
    assert_eq!(driver.set_device_scan_limit(2, 0), Err(Error::InvalidScanLimit));
}

#[test]
fn decode_mode() {
    let mut driver = chain(2);
    assert_eq!(
        driver.set_decode_mode_all(DecodeMode::AllDigits),
        Ok(vec![0x09, 0xFF, 0x09, 0xFF])
    );
    assert_eq!(
        driver.set_device_decode_mode(0, DecodeMode::Digits0To3),
        Ok(vec![0x09, 0x0F, 0, 0])
    );
    assert_eq!(
        driver.set_device_decode_mode(2, DecodeMode::NoDecode),
        Err(Error::InvalidDeviceIndex)
    );
}

#[test]
fn intensity() {
    let mut driver = chain(3);
    assert_eq!(driver.set_intensity(1, 0x0F), Ok(vec![0, 0, 0x0A, 0x0F, 0, 0]));
    assert_eq!(driver.set_intensity(1, 0x10), Err(Error::InvalidIntensity));
    assert_eq!(driver.set_intensity(3, 0x01), Err(Error::InvalidDeviceIndex));
    // the intensity is checked before the device index
    assert_eq!(driver.set_intensity(3, 0x10), Err(Error::InvalidIntensity));
    assert_eq!(
        driver.set_intensity_all(0x05),
        Ok(vec![
            vec![0x0A, 0x05, 0, 0, 0, 0],
            vec![0, 0, 0x0A, 0x05, 0, 0],
            vec![0, 0, 0, 0, 0x0A, 0x05],
        ])
    );
    assert_eq!(driver.set_intensity_all(0x10), Err(Error::InvalidIntensity));
}

#[test]
fn write_raw_digit() {
    let mut driver = chain(2);
    assert_eq!(driver.write_raw_digit(1, 5, 0b00110000), Ok(vec![0, 0, 0x06, 0b00110000]));
    assert_eq!(driver.write_raw_digit(0, 0, 0xFF), Ok(vec![0x01, 0xFF, 0, 0]));
    assert_eq!(driver.write_raw_digit(0, 8, 0xFF), Err(Error::InvalidDigit));
    assert_eq!(driver.write_raw_digit(2, 0, 0xFF), Err(Error::InvalidDeviceIndex));
    // the digit is checked before the device index
    assert_eq!(driver.write_raw_digit(2, 8, 0xFF), Err(Error::InvalidDigit));
}

#[test]
fn clear_display_writes_zero_to_each_digit_of_one_device() {
    let mut driver = chain(2);
    let frames = driver.clear_display(1).unwrap();
    assert_eq!(frames.len(), 8);
    let mut row = 0u8;
    while row < 8 {
        assert_eq!(frames[row as usize], vec![0, 0, row + 1, 0]);
        row += 1;
    }
    assert_eq!(driver.clear_display(2), Err(Error::InvalidDeviceIndex));
}

#[test]
fn clear_all_writes_zero_to_each_digit_of_all_devices() {
    let mut driver = chain(3);
    let frames = driver.clear_all().unwrap();
    assert_eq!(frames.len(), 8);
    let mut row = 0u8;
    while row < 8 {
        assert_eq!(frames[row as usize], vec![row + 1, 0, row + 1, 0, row + 1, 0]);
        row += 1;
    }
}

#[test]
fn init_sequence() {
    let mut driver = chain(2);
    let frames = driver.init().unwrap();
    let mut expected = vec![
        vec![0x0C, 0x01, 0x0C, 0x01],
        vec![0x0F, 0x00, 0x0F, 0x00],
        vec![0x0B, 0x07, 0x0B, 0x07],
        vec![0x09, 0x00, 0x09, 0x00],
    ];
    let mut row = 0u8;
    while row < 8 {
        expected.push(vec![row + 1, 0, row + 1, 0]);
        row += 1;
    }
    assert_eq!(frames, expected);
}

#[test]
fn clear_all_twice_gives_the_same_frames() {
    let mut driver = chain(4);
    let first = driver.clear_all().unwrap();
    driver.write_device_register(3, Register::Digit7, 0xFF).unwrap();
    let second = driver.clear_all().unwrap();
    assert_eq!(first, second);
}
