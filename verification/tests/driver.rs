use lcd1602::mock::{BrokenI2c, BrokenPin, MockDelay, MockI2c, MockPin};
use lcd1602::{
    Cursor, CursorBlink, CursorMode, Direction, Display, DisplayMode, I2CBus, LCD1602, ShiftMode,
};

const ADDRESS: u8 = 0x27;

/// The command bytes of the 4-bit initialization path, with the
/// default entry mode byte 0x06.
const INIT_4BIT: [u8; 7] = [0x33, 0x32, 0x28, 0x0E, 0x01, 0x06, 0x80];

/// The command bytes of the 8-bit initialization path, with the
/// default entry mode byte 0x06.
const INIT_8BIT: [u8; 6] = [0b0011_0000, 0b0011_1000, 0b0000_1110, 0b0000_0001, 0b0000_0111, 0x06];

fn new_i2c_lcd() -> (LCD1602<I2CBus<MockI2c>>, MockDelay) {
    let mut delay = MockDelay::new();
    let lcd = LCD1602::new_i2c(MockI2c::new(), ADDRESS, &mut delay).expect("initialization");
    (lcd, delay)
}

/// Decodes the expander payload stream back into tagged bytes: every
/// write is four payloads, the data nibble in the upper four bits,
/// register-select in bit 0, and the enable bit toggled as bit 2.
fn decode_payloads(written: &[(u8, u8)]) -> Vec<(u8, bool)> {
    assert_eq!(written.len() % 4, 0);
    let mut out = Vec::new();
    for chunk in written.chunks(4) {
        let (_, p0) = chunk[0];
        let (_, p1) = chunk[1];
        let (_, p2) = chunk[2];
        let (_, p3) = chunk[3];
        for (addr, _) in chunk {
            assert_eq!(*addr, ADDRESS);
        }
        // Enable toggles inside the payload: set, cleared, set,
        // cleared; everything else repeats.
        assert_eq!(p0 & 0b0000_0100, 0b0000_0100);
        assert_eq!(p1 & 0b0000_0100, 0);
        assert_eq!(p2 & 0b0000_0100, 0b0000_0100);
        assert_eq!(p3 & 0b0000_0100, 0);
        assert_eq!(p0 & !0b0000_0100, p1);
        assert_eq!(p2 & !0b0000_0100, p3);
        // Register-select must not toggle between the two pulses.
        assert_eq!(p0 & 0b0000_0001, p2 & 0b0000_0001);
        let byte = (p0 & 0xF0) | ((p2 & 0xF0) >> 4);
        let is_data = p0 & 0b0000_0001 != 0;
        out.push((byte, is_data));
    }
    out
}

fn sent_commands(lcd: LCD1602<I2CBus<MockI2c>>) -> Vec<(u8, bool)> {
    decode_payloads(&lcd.destroy().release().written)
}

#[test]
fn i2c_init_sends_the_exact_command_sequence() {
    let (lcd, _) = new_i2c_lcd();
    let sent = sent_commands(lcd);
    let expected: Vec<(u8, bool)> = INIT_4BIT.iter().map(|&b| (b, false)).collect();
    assert_eq!(sent, expected);
}

#[test]
fn four_bit_init_sends_the_exact_command_sequence() {
    let mut delay = MockDelay::new();
    let lcd = LCD1602::new_4bit(
        MockPin::new(),
        MockPin::new(),
        MockPin::new(),
        MockPin::new(),
        MockPin::new(),
        MockPin::new(),
        &mut delay,
    )
    .expect("initialization");

    let (rs, en, d4, d5, d6, d7) = lcd.destroy().release();

    // Every init step is a command write: register-select driven low
    // once per command, enable pulsed twice per command.
    assert_eq!(rs.levels, vec![false; 7]);
    let mut expected_en = Vec::new();
    let mut expected = [Vec::new(), Vec::new(), Vec::new(), Vec::new()];
    for &cmd in INIT_4BIT.iter() {
        expected_en.extend_from_slice(&[true, false, true, false]);
        for (i, line) in expected.iter_mut().enumerate() {
            line.push(cmd & (1 << (4 + i)) != 0);
            line.push(cmd & (1 << i) != 0);
        }
    }
    assert_eq!(en.levels, expected_en);
    assert_eq!(d4.levels, expected[0]);
    assert_eq!(d5.levels, expected[1]);
    assert_eq!(d6.levels, expected[2]);
    assert_eq!(d7.levels, expected[3]);
}

#[test]
fn eight_bit_init_sends_the_exact_command_sequence() {
    let mut delay = MockDelay::new();
    let lcd = LCD1602::new_8bit(
        MockPin::new(),
        MockPin::new(),
        MockPin::new(),
        MockPin::new(),
        MockPin::new(),
        MockPin::new(),
        MockPin::new(),
        MockPin::new(),
        MockPin::new(),
        MockPin::new(),
        &mut delay,
    )
    .expect("initialization");

    let (rs, en, d0, d1, d2, d3, d4, d5, d6, d7) = lcd.destroy().release();

    assert_eq!(rs.levels, vec![false; 6]);
    let mut expected_en = Vec::new();
    for _ in INIT_8BIT.iter() {
        expected_en.extend_from_slice(&[true, false]);
    }
    assert_eq!(en.levels, expected_en);
    let lines = [
        &d0.levels, &d1.levels, &d2.levels, &d3.levels, &d4.levels, &d5.levels, &d6.levels,
        &d7.levels,
    ];
    for (i, line) in lines.iter().enumerate() {
        let expected: Vec<bool> = INIT_8BIT.iter().map(|&cmd| cmd & (1 << i) != 0).collect();
        assert_eq!(**line, expected);
    }
}

#[test]
fn construction_fails_when_the_first_pin_operation_fails() {
    let mut delay = MockDelay::new();
    let result = LCD1602::new_4bit(
        BrokenPin,
        MockPin::new(),
        MockPin::new(),
        MockPin::new(),
        MockPin::new(),
        MockPin::new(),
        &mut delay,
    );
    assert!(result.is_err());
}

#[test]
fn construction_fails_when_the_channel_fails() {
    let mut delay = MockDelay::new();
    assert!(LCD1602::new_i2c(BrokenI2c, ADDRESS, &mut delay).is_err());
}

#[test]
fn clear_and_reset_send_their_instruction_bytes() {
    let (mut lcd, mut delay) = new_i2c_lcd();
    lcd.clear(&mut delay).unwrap();
    lcd.reset(&mut delay).unwrap();
    let sent = sent_commands(lcd);
    assert_eq!(sent[7..], [(0x01, false), (0x02, false)]);
}

#[test]
fn set_cursor_pos_truncates_to_seven_bits() {
    let (mut lcd, mut delay) = new_i2c_lcd();
    lcd.set_cursor_pos(0x85, &mut delay).unwrap();
    lcd.set_cursor_pos(0x05, &mut delay).unwrap();
    lcd.set_cursor_pos(40, &mut delay).unwrap();
    let sent = sent_commands(lcd);
    // 0x85 and 0x05 yield the same instruction byte: truncation, not
    // an error.
    assert_eq!(sent[7], (0x85, false));
    assert_eq!(sent[8], (0x85, false));
    assert_eq!(sent[9], (0x80 | 40, false));
}

#[test]
fn shift_commands_send_their_fixed_bytes() {
    let (mut lcd, mut delay) = new_i2c_lcd();
    lcd.shift_cursor(Direction::Left, &mut delay).unwrap();
    lcd.shift_cursor(Direction::Right, &mut delay).unwrap();
    lcd.shift_display(Direction::Left, &mut delay).unwrap();
    lcd.shift_display(Direction::Right, &mut delay).unwrap();
    let sent = sent_commands(lcd);
    assert_eq!(
        sent[7..],
        [(0x10, false), (0x14, false), (0x18, false), (0x1C, false)]
    );
}

#[test]
fn display_mode_setters_resend_the_full_byte() {
    let (mut lcd, mut delay) = new_i2c_lcd();
    // Defaults are display on, cursor on, blink on: 0x0F; each
    // setter changes one field and re-transmits the whole byte.
    lcd.set_cursor_blink(CursorBlink::Off, &mut delay).unwrap();
    lcd.set_display(Display::Off, &mut delay).unwrap();
    lcd.set_cursor_visibility(Cursor::Off, &mut delay).unwrap();
    let sent = sent_commands(lcd);
    assert_eq!(
        sent[7..],
        [(0b0000_1110, false), (0b0000_1010, false), (0b0000_1000, false)]
    );
}

#[test]
fn set_display_mode_sends_the_given_settings() {
    let (mut lcd, mut delay) = new_i2c_lcd();
    let mode = DisplayMode {
        cursor_visibility: Cursor::Off,
        cursor_blink: CursorBlink::Off,
        display: Display::On,
    };
    lcd.set_display_mode(mode, &mut delay).unwrap();
    let sent = sent_commands(lcd);
    assert_eq!(sent[7], (0b0000_1100, false));
}

#[test]
fn entry_mode_setters_resend_the_full_byte() {
    let (mut lcd, mut delay) = new_i2c_lcd();
    // Defaults are increment, no shift: 0x06.
    lcd.set_autoscroll(ShiftMode::On, &mut delay).unwrap();
    lcd.set_cursor_mode(CursorMode::Decrement, &mut delay).unwrap();
    let sent = sent_commands(lcd);
    assert_eq!(sent[7..], [(0b0000_0111, false), (0b0000_0101, false)]);
}

#[test]
fn character_writes_are_tagged_as_data() {
    let (mut lcd, mut delay) = new_i2c_lcd();
    lcd.write_byte(b'A', &mut delay).unwrap();
    lcd.write_char('Z', &mut delay).unwrap();
    lcd.write_bytes(b"ok", &mut delay).unwrap();
    lcd.write_str("Hi", &mut delay).unwrap();
    let sent = sent_commands(lcd);
    assert_eq!(
        sent[7..],
        [
            (0x41, true),
            (0x5A, true),
            (0x6F, true),
            (0x6B, true),
            (0x48, true),
            (0x69, true),
        ]
    );
}

#[test]
fn write_char_truncates_to_one_byte() {
    let (mut lcd, mut delay) = new_i2c_lcd();
    // U+00E9 does not fit one byte; it is narrowed, not rejected.
    lcd.write_char('\u{e9}', &mut delay).unwrap();
    let sent = sent_commands(lcd);
    assert_eq!(sent[7], (0xE9, true));
}

#[test]
fn empty_writes_send_nothing() {
    let (mut lcd, mut delay) = new_i2c_lcd();
    lcd.write_bytes(b"", &mut delay).unwrap();
    lcd.write_str("", &mut delay).unwrap();
    let sent = sent_commands(lcd);
    assert_eq!(sent.len(), 7);
}

#[test]
fn set_cursor_pos_boundaries() {
    let (mut lcd, mut delay) = new_i2c_lcd();
    lcd.set_cursor_pos(0x00, &mut delay).unwrap();
    lcd.set_cursor_pos(0x7F, &mut delay).unwrap();
    lcd.set_cursor_pos(0xFF, &mut delay).unwrap();
    let sent = sent_commands(lcd);
    assert_eq!(sent[7..], [(0x80, false), (0xFF, false), (0xFF, false)]);
}

#[test]
fn write_bytes_aborts_at_the_first_failed_write() {
    // The register-select pin survives exactly one data write (two
    // operations); the second byte's write fails on its first pin
    // operation, so exactly the one-byte prefix was transmitted.
    let mut delay = MockDelay::new();
    let mut bus = lcd1602::FourBitBus::from_pins(
        lcd1602::mock::FlakyPin::new(2),
        MockPin::new(),
        MockPin::new(),
        MockPin::new(),
        MockPin::new(),
        MockPin::new(),
    );
    assert!(lcd1602::DataBus::write(&mut bus, b'A', true, &mut delay).is_ok());
    assert!(lcd1602::DataBus::write(&mut bus, b'B', true, &mut delay).is_err());

    let (rs, en, d4, d5, d6, d7) = bus.release();
    // Only the first byte's waveform exists: 0x41 = 0b0100_0001.
    assert_eq!(rs.levels, vec![true, false]);
    assert_eq!(en.levels, vec![true, false, true, false]);
    assert_eq!(d4.levels, vec![false, true]);
    assert_eq!(d5.levels, vec![false, false]);
    assert_eq!(d6.levels, vec![true, false]);
    assert_eq!(d7.levels, vec![false, false]);
}
