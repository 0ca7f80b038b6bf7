use max7219_display::led_matrix::buffer::MatrixBuffer;
use max7219_display::led_matrix::display::LedMatrix;
use max7219_display::led_matrix::fonts::{standard_led_font, LedFont};
use max7219_display::led_matrix::graphics::Pixel;
use max7219_display::led_matrix::icons::Icon;
use max7219_display::led_matrix::scroll::{ScrollConfig, ScrollingText};
use max7219_display::led_matrix::symbols::Symbol;
use max7219_display::{Error, Max7219, Register, NUM_DIGITS};

fn write_reg(addr: u8, value: u8) -> Vec<u8> {
    vec![addr, value]
}

fn single_matrix() -> LedMatrix {
    LedMatrix::from_driver(Max7219::new(), 1).expect("valid initialization")
}

fn matrix4() -> LedMatrix {
    let driver = Max7219::new().with_device_count(4).unwrap();
    LedMatrix::from_driver(driver, 4).expect("valid initialization")
}

#[test]
fn test_new() {
    let driver = Max7219::new();
    let matrix = LedMatrix::from_driver(driver, 1).unwrap();
    assert_eq!(matrix.framebuffer(), &vec![0u8; 64]);
}

#[test]
fn test_from_spi() {
    let mut expected_transactions: Vec<Vec<u8>> = vec![];

    // power_on
    expected_transactions.push(write_reg(Register::Shutdown.addr(), 0x01));

    // test_all(false)
    expected_transactions.push(write_reg(Register::DisplayTest.addr(), 0x00));

    // set_scan_limit_all(NUM_DIGITS)
    expected_transactions.push(write_reg(Register::ScanLimit.addr(), NUM_DIGITS - 1));

    // set_decode_mode_all(NoDecode)
    expected_transactions.push(write_reg(
        Register::DecodeMode.addr(),
        max7219_display::DecodeMode::NoDecode.value(),
    ));

    // clear_all() - 8 digits/rows
    for digit in Register::digits() {
        expected_transactions.push(write_reg(digit.addr(), 0x00));
    }

    let result = LedMatrix::from_spi(1);

    assert!(result.is_ok());
    let (matrix, frames) = result.unwrap();
    assert_eq!(frames, expected_transactions);
    assert_eq!(matrix.framebuffer(), &vec![0u8; 64]);
}

#[test]
fn test_from_spi_invalid_count() {
    let driver = Max7219::new();
    // not valid count
    let result = LedMatrix::from_driver(driver, 256);
    assert!(matches!(result, Err(Error::InvalidDeviceCount)));

    // Mismatched device count
    let driver = Max7219::new();
    let result = LedMatrix::from_driver(driver, 4);
    assert!(matches!(result, Err(Error::InvalidDeviceCount)));
}

#[test]
fn from_spi_rejects_counts_outside_one_to_eight() {
    assert!(matches!(LedMatrix::from_spi(0), Err(Error::InvalidDeviceCount)));
    assert!(matches!(LedMatrix::from_spi(9), Err(Error::InvalidDeviceCount)));
    let (matrix, frames) = LedMatrix::from_spi(8).unwrap();
    assert_eq!(matrix.framebuffer().len(), 512);
    assert_eq!(frames.len(), 12);
    assert_eq!(frames[0], [Register::Shutdown.addr(), 0x01].repeat(8));
}

#[test]
fn display_test_clear() {
    let mut expected_transactions = vec![];
    for digit_register in Register::digits() {
        expected_transactions.push(write_reg(digit_register.addr(), 0x00));
    }

    let mut matrix = single_matrix();

    let result = matrix.clear(0);
    assert!(result.is_ok());
    assert_eq!(result, Ok(expected_transactions));
    assert_eq!(matrix.clear(1), Err(Error::InvalidDeviceIndex));
}

#[test]
fn test_clear_all() {
    let mut expected_transactions = vec![];
    let device_count = 4;

    for digit_register in Register::digits() {
        let batched_data: Vec<u8> =
            (0..device_count).flat_map(|_| vec![digit_register.addr(), 0x00]).collect();
        expected_transactions.push(batched_data);
    }

    let mut matrix = matrix4();

    let result = matrix.clear_all();
    assert!(result.is_ok());
    assert_eq!(result, Ok(expected_transactions));
}

#[test]
fn test_write_buffer() {
    let device_index = 0;
    let mut buffer = MatrixBuffer::new();
    // Fill buffer with some test data
    for i in 0..8 {
        buffer.set_row(i, 0b10101010 << (i % 2)).unwrap();
    }
    let expected_data = buffer.data();

    let mut expected_transactions = Vec::new();
    for (row, &data) in expected_data.iter().enumerate() {
        expected_transactions.push(vec![Register::try_digit(row as u8).unwrap().addr(), data]);
    }

    let mut matrix = single_matrix();

    let result = matrix.write_buffer(device_index, &buffer);
    assert!(result.is_ok());
    assert_eq!(result, Ok(expected_transactions));
}

#[test]
fn test_write_buffer_invalid_index() {
    let driver = Max7219::new().with_device_count(1).unwrap();
    let mut matrix = LedMatrix::from_driver(driver, 1).expect("valid initialization");
    let buffer = MatrixBuffer::new();

    let result = matrix.write_buffer(1, &buffer); // Index 1 is invalid for device_count=1
    assert_eq!(result, Err(Error::InvalidDeviceIndex));
}

#[test]
fn test_draw_char() {
    let device_index = 0;
    let ch = 'A';
    let expected_bitmap = standard_led_font().get_char(ch);

    let mut expected_transactions = Vec::new();
    for (row, &data) in expected_bitmap.iter().enumerate() {
        expected_transactions.push(vec![Register::try_digit(row as u8).unwrap().addr(), data]);
    }

    let mut matrix = single_matrix();

    let result = matrix.draw_char(device_index, ch);
    assert!(result.is_ok());
    assert_eq!(result, Ok(expected_transactions));
}

#[test]
fn test_draw_char_with_font() {
    let device_index = 0;
    let ch = 'Z';
    let test_font = standard_led_font();
    let expected_bitmap = test_font.get_char(ch);

    let mut expected_transactions = Vec::new();
    for (row, &data) in expected_bitmap.iter().enumerate() {
        expected_transactions.push(vec![Register::try_digit(row as u8).unwrap().addr(), data]);
    }

    let mut matrix = single_matrix();

    let frames = matrix.draw_char_with_font(device_index, ch, &test_font).expect("valid character");
    assert_eq!(frames, expected_transactions);
}

#[test]
fn test_draw_char_invalid_index() {
    let driver = Max7219::new().with_device_count(1).unwrap();
    let mut matrix = LedMatrix::from_driver(driver, 1).expect("valid initialization");

    let result = matrix.draw_char(1, 'A'); // Index 1 is invalid for device_count=1
    assert_eq!(result, Err(Error::InvalidDeviceIndex));
}

#[test]
fn test_draw_text_single_device() {
    let text = "H";
    let expected_ch = 'H';
    let expected_bitmap = standard_led_font().get_char(expected_ch);

    let mut expected_transactions = Vec::new();
    for (row_index, &data) in expected_bitmap.iter().enumerate() {
        let digit_register = Register::try_digit(row_index as u8).unwrap();
        expected_transactions.push(vec![digit_register.addr(), data]);
    }

    let mut matrix = single_matrix();

    let result = matrix.draw_text(text);
    assert!(result.is_ok());
    assert_eq!(result, Ok(expected_transactions));
}

#[test]
fn test_draw_text_multi_device() {
    let text = "Hi";
    let expected_bitmap_h = standard_led_font().get_char('H');
    let expected_bitmap_i = standard_led_font().get_char('i');

    let mut expected_transactions = Vec::new();
    // Row by row transmission
    for row_index in 0..8 {
        let digit_register = Register::try_digit(row_index).unwrap();
        let data_for_device_1 = expected_bitmap_h[row_index as usize];
        let data_for_device_0 = expected_bitmap_i[row_index as usize];
        expected_transactions.push(vec![
            digit_register.addr(),
            data_for_device_1,
            digit_register.addr(),
            data_for_device_0,
            digit_register.addr(),
            0x00,
            digit_register.addr(),
            0x00,
        ]);
    }

    let mut matrix = matrix4();

    let result = matrix.draw_text(text);
    assert!(result.is_ok());
    assert_eq!(result, Ok(expected_transactions));
}

#[test]
fn test_draw_text_with_font() {
    let text = "!";
    // Create a simple test font
    const TEST_FONT: &[([u8; 8], char)] = &[([0b10101010; 8], '!')];
    let test_font = LedFont::new(TEST_FONT);
    let expected_bitmap = [0b10101010u8; 8];
    let device_count = 2;

    let mut expected_transactions = Vec::new();

    // For each row (Digit0 to Digit7)
    for (row_index, &data) in expected_bitmap.iter().enumerate() {
        let digit_register = Register::try_digit(row_index as u8).unwrap();
        // The first pair holds the font data, the second pair zero
        expected_transactions.push(vec![digit_register.addr(), data, digit_register.addr(), 0x00]);
    }

    let driver = Max7219::new().with_device_count(device_count).unwrap();
    let mut matrix = LedMatrix::from_driver(driver, 2).unwrap();

    let result = matrix.draw_text_with_font(text, &test_font);
    assert!(result.is_ok());
    assert_eq!(result, Ok(expected_transactions));
}

#[test]
fn draw_text_drops_characters_beyond_the_chain() {
    const FONT: &[([u8; 8], char)] = &[([0x11; 8], 'a'), ([0x22; 8], 'b'), ([0x33; 8], 'c')];
    let font = LedFont::new(FONT);
    let driver = Max7219::new().with_device_count(2).unwrap();
    let mut matrix = LedMatrix::from_driver(driver, 2).unwrap();
    let frames = matrix.draw_text_with_font("abc", &font).unwrap();
    assert_eq!(frames.len(), 8);
    for row in 0..8u8 {
        assert_eq!(frames[row as usize], vec![row + 1, 0x11, row + 1, 0x22]);
    }
    let frames = matrix.draw_text_with_font("", &font).unwrap();
    for row in 0..8u8 {
        assert_eq!(frames[row as usize], vec![row + 1, 0, row + 1, 0]);
    }
}

#[test]
fn test_clear_buffer() {
    let mut matrix = single_matrix();

    // Modify the buffer
    matrix.set_pixel(0, 0, 0, true).unwrap();
    matrix.set_pixel(0, 2, 1, true).unwrap();
    matrix.set_pixel(0, 7, 7, true).unwrap();
    assert_eq!(matrix.framebuffer()[0], 1);
    assert_eq!(matrix.framebuffer()[10], 1);
    assert_eq!(matrix.framebuffer()[63], 1);
    assert_ne!(matrix.framebuffer(), &vec![0u8; 64]);

    matrix.clear_buffer();

    assert_eq!(matrix.framebuffer(), &vec![0u8; 64]);
}

#[test]
fn test_clear_screen() {
    // All digits 0..7 will be written with 0x00 for a single device
    let mut expected_transactions = Vec::new();
    for row in 0..8 {
        let digit_register = Register::try_digit(row).unwrap();
        expected_transactions.push(vec![digit_register.addr(), 0x00]);
    }

    let mut matrix = single_matrix();

    // Modify the buffer
    matrix.set_pixel(0, 5, 0, true).unwrap();
    matrix.set_pixel(0, 7, 1, true).unwrap();
    assert_eq!(matrix.framebuffer()[5], 1);
    assert_eq!(matrix.framebuffer()[15], 1);

    assert_ne!(matrix.framebuffer(), &vec![0u8; 64]);

    let result = matrix.clear_screen();
    assert!(result.is_ok());
    assert_eq!(result, Ok(expected_transactions));
    assert_eq!(matrix.framebuffer(), &vec![0u8; 64]);
}

#[test]
fn test_flush_single_device() {
    // Only rows 0 and 7 have pixel data: 0b10101010 (columns 0,2,4,6 lit)
    let mut expected_transactions = Vec::new();
    for (row, digit_register) in Register::digits().into_iter().enumerate() {
        let expected_byte = if row == 0 || row == 7 { 0b10101010 } else { 0b00000000 };
        expected_transactions.push(vec![digit_register.addr(), expected_byte]);
    }

    let mut matrix = single_matrix();

    // Row 0 corresponds to framebuffer indices 0 to 7
    matrix.set_pixel(0, 0, 0, true).unwrap();
    matrix.set_pixel(0, 2, 0, true).unwrap();
    matrix.set_pixel(0, 4, 0, true).unwrap();
    matrix.set_pixel(0, 6, 0, true).unwrap();

    // Row 7 corresponds to framebuffer indices 56 to 63
    matrix.set_pixel(0, 0, 7, true).unwrap();
    matrix.set_pixel(0, 2, 7, true).unwrap();
    matrix.set_pixel(0, 4, 7, true).unwrap();
    matrix.set_pixel(0, 6, 7, true).unwrap();
    for index in [0, 2, 4, 6, 56, 58, 60, 62] {
        assert_eq!(matrix.framebuffer()[index], 1);
    }

    let result = matrix.flush();
    assert!(result.is_ok());
    assert_eq!(result, Ok(expected_transactions));
}

#[test]
fn test_driver_mut_access() {
    let expected = vec![Register::Shutdown.addr(), 0x01];
    let first_driver = Max7219::new();
    let mut matrix = LedMatrix::from_driver(first_driver, 1).unwrap();

    let driver = matrix.driver();

    let frame = driver.power_on().expect("Power on should succeed");
    assert_eq!(frame, expected);
}

#[test]
fn flush_two_devices_places_each_device_at_its_own_offset() {
    let driver = Max7219::new().with_device_count(2).unwrap();
    let mut matrix = LedMatrix::from_driver(driver, 2).unwrap();
    // Device 0, row 0: 1 0 1 0 1 0 1 0 => 0xAA
    for col in [0, 2, 4, 6] {
        matrix.set_pixel(0, col, 0, true).unwrap();
    }
    // Device 1, row 0: 1 1 1 1 0 0 0 0 => 0xF0
    for col in [0, 1, 2, 3] {
        matrix.set_pixel(1, col, 0, true).unwrap();
    }
    // Device 1, row 3, column 7 => 0x01
    matrix.set_pixel(1, 7, 3, true).unwrap();
    let frames = matrix.flush().unwrap();
    assert_eq!(frames.len(), 8);
    assert_eq!(frames[0], vec![0x01, 0xAA, 0x01, 0xF0]);
    assert_eq!(frames[3], vec![0x04, 0x00, 0x04, 0x01]);
    for row in [1usize, 2, 4, 5, 6, 7] {
        assert_eq!(frames[row], vec![row as u8 + 1, 0, row as u8 + 1, 0]);
    }
}

#[test]
fn flush_round_trips_every_pixel() {
    for device in 0..3usize {
        for row in 0..8usize {
            for col in 0..8usize {
                let driver = Max7219::new().with_device_count(3).unwrap();
                let mut matrix = LedMatrix::from_driver(driver, 3).unwrap();
                matrix.set_pixel(device, col, row, true).unwrap();
                assert_eq!(matrix.get_pixel(device, col, row), Ok(true));
                let frames = matrix.flush().unwrap();
                for (r, frame) in frames.iter().enumerate() {
                    for d in 0..3usize {
                        assert_eq!(frame[2 * d], r as u8 + 1);
                        let expected = if d == device && r == row { 1u8 << (7 - col) } else { 0 };
                        assert_eq!(frame[2 * d + 1], expected);
                    }
                }
                let byte = frames[row][2 * device + 1];
                assert_eq!((byte >> (7 - col)) & 1, 1);
                matrix.set_pixel(device, col, row, false).unwrap();
                assert_eq!(matrix.get_pixel(device, col, row), Ok(false));
                let frames = matrix.flush().unwrap();
                assert_eq!((frames[row][2 * device + 1] >> (7 - col)) & 1, 0);
            }
        }
    }
}

#[test]
fn flush_does_not_change_the_pixels_and_repeats() {
    let mut matrix = matrix4();
    matrix.set_pixel(2, 3, 4, true).unwrap();
    let before = matrix.framebuffer().clone();
    let first = matrix.flush().unwrap();
    let second = matrix.flush().unwrap();
    assert_eq!(first, second);
    assert_eq!(matrix.framebuffer(), &before);
}

#[test]
fn clearing_twice_and_flushing_blank_twice_give_identical_bytes() {
    let mut matrix = matrix4();
    matrix.set_pixel(1, 1, 1, true).unwrap();
    matrix.clear_buffer();
    let once = matrix.framebuffer().clone();
    matrix.clear_buffer();
    assert_eq!(matrix.framebuffer(), &once);
    let first = matrix.flush().unwrap();
    let second = matrix.flush().unwrap();
    assert_eq!(first, second);
    // the same bytes as blanking the digit registers directly
    assert_eq!(matrix.clear_all().unwrap(), first);
    assert_eq!(matrix.clear_screen().unwrap(), first);
}

#[test]
fn flush_rejects_a_driver_reconfigured_for_another_chain() {
    let mut matrix = matrix4();
    matrix.set_pixel(0, 0, 0, true).unwrap();
    *matrix.driver() = Max7219::new().with_device_count(2).unwrap();
    assert_eq!(matrix.flush(), Err(Error::InvalidDeviceCount));
    assert_eq!(matrix.clear_screen(), Err(Error::InvalidDeviceCount));
    assert_eq!(matrix.framebuffer(), &vec![0u8; 256]);
}

#[test]
fn set_pixel_rejects_coordinates_off_the_panels() {
    let mut matrix = matrix4();
    assert_eq!(matrix.set_pixel(4, 0, 0, true), Err(Error::BufferError));
    assert_eq!(matrix.set_pixel(0, 8, 0, true), Err(Error::BufferError));
    assert_eq!(matrix.set_pixel(0, 0, 8, true), Err(Error::BufferError));
    assert_eq!(matrix.get_pixel(4, 0, 0), Err(Error::BufferError));
    assert_eq!(matrix.get_pixel(0, 8, 0), Err(Error::BufferError));
    assert_eq!(matrix.get_pixel(0, 0, 8), Err(Error::BufferError));
    assert_eq!(matrix.framebuffer(), &vec![0u8; 256]);
    assert_eq!(matrix.set_pixel(3, 7, 7, true), Ok(()));
    assert_eq!(matrix.framebuffer()[255], 1);
}

#[test]
fn draw_iter_clips_to_the_display() {
    let driver = Max7219::new().with_device_count(2).unwrap();
    let mut matrix = LedMatrix::from_driver(driver, 2).unwrap();
    assert_eq!(matrix.size(), (16, 8));
    matrix.draw_iter(&[
        Pixel { x: 0, y: 0, on: true },
        Pixel { x: 9, y: 2, on: true },
        Pixel { x: 15, y: 7, on: true },
        // off the display: ignored
        Pixel { x: 16, y: 0, on: true },
        Pixel { x: -1, y: 0, on: true },
        Pixel { x: 0, y: 8, on: true },
        Pixel { x: 0, y: -1, on: true },
        Pixel { x: i32::MAX, y: i32::MAX, on: true },
        Pixel { x: i32::MIN, y: i32::MIN, on: true },
    ]);
    let mut expected = vec![0u8; 128];
    expected[0] = 1;
    expected[64 + 2 * 8 + 1] = 1;
    expected[64 + 7 * 8 + 7] = 1;
    assert_eq!(matrix.framebuffer(), &expected);

    // later pixels overwrite earlier ones
    matrix.draw_iter(&[Pixel { x: 9, y: 2, on: false }, Pixel { x: 3, y: 3, on: true }, Pixel { x: 3, y: 3, on: false }]);
    expected[64 + 2 * 8 + 1] = 0;
    assert_eq!(matrix.framebuffer(), &expected);
}

#[test]
fn scroll_text_renders_each_panel_and_steps() {
    const FONT: &[([u8; 8], char)] = &[([0x81; 8], 'a'), ([0x42; 8], 'b')];
    let font = LedFont::new(FONT);
    let driver = Max7219::new().with_device_count(2).unwrap();
    let mut matrix = LedMatrix::from_driver(driver, 2).unwrap();
    let mut scroller = ScrollingText::new_default("ab", &font);

    let (frames, more) = matrix.scroll_text(&mut scroller).unwrap();
    assert!(more);
    assert_eq!(scroller.offset(), 1);
    assert_eq!(frames.len(), 16);
    for row in 0..8u8 {
        // device 0 shows 'a', device 1 shows 'b'
        assert_eq!(frames[row as usize], vec![row + 1, 0x81, 0, 0]);
        assert_eq!(frames[8 + row as usize], vec![0, 0, row + 1, 0x42]);
    }

    let (frames, _) = matrix.scroll_text(&mut scroller).unwrap();
    assert_eq!(scroller.offset(), 2);
    // shifted left by one column: 0x81 << 1 | top bit of 0x42, 0x42 << 1
    assert_eq!(frames[0], vec![1, 0x02, 0, 0]);
    assert_eq!(frames[8], vec![0, 0, 1, 0x84]);
}

#[test]
fn scroll_text_without_looping_ends() {
    const FONT: &[([u8; 8], char)] = &[([0xFF; 8], 'a')];
    let font = LedFont::new(FONT);
    let mut matrix = single_matrix();
    let config = ScrollConfig { loop_text: false, pixels_per_step: 4, ..Default::default() };
    let mut scroller = ScrollingText::new("a", &font, config);
    scroller.reset();
    let mut passes = 0;
    let mut first_rows = Vec::new();
    loop {
        let (frames, more) = matrix.scroll_text(&mut scroller).unwrap();
        assert_eq!(frames.len(), 8);
        first_rows.push(frames[0][1]);
        passes += 1;
        if !more {
            break;
        }
    }
    // offsets -8, -4, 0, 4, 8, 12; the step to 16 ends the scroll
    assert_eq!(passes, 6);
    assert_eq!(first_rows, vec![0x00, 0x0F, 0xFF, 0xF0, 0x00, 0x00]);
    assert_eq!(scroller.offset(), 16);
}

#[test]
fn icons_and_symbols() {
    assert_eq!(
        Icon::Heart.to_buffer().data(),
        &[
            0b00000000, 0b01100110, 0b11111111, 0b11111111, 0b11111111, 0b01111110, 0b00111100,
            0b00011000
        ]
    );
    assert_eq!(
        Icon::Checkmark.to_buffer().data(),
        &[
            0b00000001, 0b00000010, 0b00000100, 0b10001000, 0b01010000, 0b00100000, 0b00000000,
            0b00000000
        ]
    );
    assert_eq!(
        Symbol::SadFace.to_buffer().data(),
        &[
            0b00111100, 0b01000010, 0b10100101, 0b10000001, 0b10011001, 0b10100101, 0b01000010,
            0b00111100
        ]
    );
    assert_eq!(Icon::Smiley.to_buffer().data(), Symbol::Smiley.to_buffer().data());
    assert_eq!(Icon::ArrowUp.to_buffer().data(), Symbol::ArrowUp.to_buffer().data());
    assert_eq!(Icon::ArrowDown.to_buffer().data(), Symbol::ArrowDown.to_buffer().data());
    assert_eq!(Icon::ArrowLeft.to_buffer().data(), Symbol::ArrowLeft.to_buffer().data());
    assert_eq!(Icon::ArrowRight.to_buffer().data(), Symbol::ArrowRight.to_buffer().data());
    assert_eq!(Icon::XMark.to_buffer().data(), Symbol::XMark.to_buffer().data());
    assert_eq!(Icon::MusicNote.to_buffer().data(), Symbol::MusicNote.to_buffer().data());
    assert_eq!(Icon::Circle.to_buffer().data(), Symbol::Circle.to_buffer().data());
    assert_eq!(Symbol::Heart.to_buffer().data(), Icon::Heart.to_buffer().data());
    assert_eq!(Symbol::Checkmark.to_buffer().data(), Icon::Checkmark.to_buffer().data());
    assert_eq!(Icon::ArrowRight.to_buffer().data()[3], 0b11111111);
    assert_eq!(Icon::ArrowLeft.to_buffer().data()[3], 0b01111111);
}

#[test]
fn write_buffer_shows_an_icon_on_one_device_of_a_chain() {
    let mut matrix = matrix4();
    let frames = matrix.write_buffer(2, &Icon::XMark.to_buffer()).unwrap();
    let rows = [0x81u8, 0x42, 0x24, 0x18, 0x18, 0x24, 0x42, 0x81];
    for row in 0..8usize {
        assert_eq!(frames[row], vec![0, 0, 0, 0, row as u8 + 1, rows[row], 0, 0]);
    }
}
