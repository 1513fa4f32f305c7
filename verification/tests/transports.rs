use lcd1602::mock::{BrokenI2c, BrokenPin, FlakyPin, MockDelay, MockI2c, MockPin};
use lcd1602::{BusWidth, DataBus, EightBitBus, FourBitBus, I2CBus};

#[test]
fn four_bit_data_write_waveform() {
    let mut bus = FourBitBus::from_pins(
        MockPin::new(),
        MockPin::new(),
        MockPin::new(),
        MockPin::new(),
        MockPin::new(),
        MockPin::new(),
    );
    let mut delay = MockDelay::new();

    assert!(bus.write(0xA5, true, &mut delay).is_ok());

    let (rs, en, d4, d5, d6, d7) = bus.release();
    // Register-select is asserted once before both pulses and
    // released once after them: it does not toggle in between.
    assert_eq!(rs.levels, vec![true, false]);
    // Two enable pulses, one per nibble.
    assert_eq!(en.levels, vec![true, false, true, false]);
    // 0xA5 = 0b1010_0101: the lines carry 0b1010 (upper nibble,
    // d7..d4) for the first pulse and 0b0101 for the second.
    assert_eq!(d7.levels, vec![true, false]);
    assert_eq!(d6.levels, vec![false, true]);
    assert_eq!(d5.levels, vec![true, false]);
    assert_eq!(d4.levels, vec![false, true]);
}

#[test]
fn four_bit_command_write_keeps_register_select_low() {
    let mut bus = FourBitBus::from_pins(
        MockPin::new(),
        MockPin::new(),
        MockPin::new(),
        MockPin::new(),
        MockPin::new(),
        MockPin::new(),
    );
    let mut delay = MockDelay::new();

    assert!(bus.write(0xA5, false, &mut delay).is_ok());

    let (rs, en, _, _, _, _) = bus.release();
    assert_eq!(rs.levels, vec![false]);
    assert_eq!(en.levels, vec![true, false, true, false]);
}

#[test]
fn four_bit_first_failure_never_asserts_enable() {
    let mut bus = FourBitBus::from_pins(
        BrokenPin,
        MockPin::new(),
        MockPin::new(),
        MockPin::new(),
        MockPin::new(),
        MockPin::new(),
    );
    let mut delay = MockDelay::new();

    assert!(bus.write(0xA5, true, &mut delay).is_err());

    let (_, en, d4, d5, d6, d7) = bus.release();
    assert!(en.levels.is_empty());
    assert!(d4.levels.is_empty());
    assert!(d5.levels.is_empty());
    assert!(d6.levels.is_empty());
    assert!(d7.levels.is_empty());
}

#[test]
fn eight_bit_data_write_waveform() {
    let mut bus = EightBitBus::from_pins(
        MockPin::new(),
        MockPin::new(),
        MockPin::new(),
        MockPin::new(),
        MockPin::new(),
        MockPin::new(),
        MockPin::new(),
        MockPin::new(),
        MockPin::new(),
        MockPin::new(),
    );
    let mut delay = MockDelay::new();

    assert!(bus.write(0xA5, true, &mut delay).is_ok());

    let (rs, en, d0, d1, d2, d3, d4, d5, d6, d7) = bus.release();
    // Register-select asserted before the pulse and released after.
    assert_eq!(rs.levels, vec![true, false]);
    // Exactly one enable pulse.
    assert_eq!(en.levels, vec![true, false]);
    // All eight lines match 0xA5 = 0b1010_0101.
    assert_eq!(d0.levels, vec![true]);
    assert_eq!(d1.levels, vec![false]);
    assert_eq!(d2.levels, vec![true]);
    assert_eq!(d3.levels, vec![false]);
    assert_eq!(d4.levels, vec![false]);
    assert_eq!(d5.levels, vec![true]);
    assert_eq!(d6.levels, vec![false]);
    assert_eq!(d7.levels, vec![true]);
}

#[test]
fn eight_bit_first_failure_never_asserts_enable() {
    let mut bus = EightBitBus::from_pins(
        BrokenPin,
        MockPin::new(),
        MockPin::new(),
        MockPin::new(),
        MockPin::new(),
        MockPin::new(),
        MockPin::new(),
        MockPin::new(),
        MockPin::new(),
        MockPin::new(),
    );
    let mut delay = MockDelay::new();

    assert!(bus.write(0xA5, false, &mut delay).is_err());

    let (_, en, d0, _, _, _, _, _, _, _) = bus.release();
    assert!(en.levels.is_empty());
    assert!(d0.levels.is_empty());
}

#[test]
fn i2c_data_write_payloads() {
    let mut bus = I2CBus::new(MockI2c::new(), 0x27);
    let mut delay = MockDelay::new();

    assert!(bus.write(0xA5, true, &mut delay).is_ok());

    let channel = bus.release();
    // 0xA5: upper nibble payload 0xA0, lower nibble payload 0x50,
    // each with register-select (bit 0) for data, and the enable bit
    // (bit 2) set then cleared.
    assert_eq!(
        channel.written,
        vec![(0x27, 0xA5), (0x27, 0xA1), (0x27, 0x55), (0x27, 0x51)]
    );
}

#[test]
fn i2c_command_write_payloads() {
    let mut bus = I2CBus::new(MockI2c::new(), 0x27);
    let mut delay = MockDelay::new();

    assert!(bus.write(0xA5, false, &mut delay).is_ok());

    let channel = bus.release();
    assert_eq!(
        channel.written,
        vec![(0x27, 0xA4), (0x27, 0xA0), (0x27, 0x54), (0x27, 0x50)]
    );
}

#[test]
fn i2c_first_failure_transmits_nothing() {
    let mut bus = I2CBus::new(BrokenI2c, 0x27);
    let mut delay = MockDelay::new();

    assert!(bus.write(0xA5, true, &mut delay).is_err());
}

#[test]
fn bus_width_dispatches_to_four_bit() {
    let mut bus = BusWidth::<
        MockPin,
        MockPin,
        MockPin,
        MockPin,
        MockPin,
        MockPin,
        MockPin,
        MockPin,
        MockPin,
        MockPin,
    >::new_four_bit(
        MockPin::new(),
        MockPin::new(),
        MockPin::new(),
        MockPin::new(),
        MockPin::new(),
        MockPin::new(),
    );
    let mut delay = MockDelay::new();

    assert!(bus.write(0xA5, true, &mut delay).is_ok());

    match bus {
        BusWidth::FourBitBus(inner) => {
            let (rs, en, _, _, _, _) = inner.release();
            assert_eq!(rs.levels, vec![true, false]);
            assert_eq!(en.levels, vec![true, false, true, false]);
        }
        BusWidth::EightBitBus(_) => panic!("four-bit configuration expected"),
    }
}

#[test]
fn bus_width_dispatches_to_eight_bit() {
    let mut bus = BusWidth::<
        MockPin,
        MockPin,
        MockPin,
        MockPin,
        MockPin,
        MockPin,
        MockPin,
        MockPin,
        MockPin,
        MockPin,
    >::new_eight_bit(
        MockPin::new(),
        MockPin::new(),
        MockPin::new(),
        MockPin::new(),
        MockPin::new(),
        MockPin::new(),
        MockPin::new(),
        MockPin::new(),
        MockPin::new(),
        MockPin::new(),
    );
    let mut delay = MockDelay::new();

    assert!(bus.write(0xA5, true, &mut delay).is_ok());

    match bus {
        BusWidth::EightBitBus(inner) => {
            let (rs, en, _, _, _, _, _, _, _, _) = inner.release();
            assert_eq!(rs.levels, vec![true, false]);
            assert_eq!(en.levels, vec![true, false]);
        }
        BusWidth::FourBitBus(_) => panic!("eight-bit configuration expected"),
    }
}

#[test]
fn four_bit_enable_failure_mid_write_leaves_a_pulse_prefix() {
    // The enable pin manages its assertion but fails to release:
    // the write reports the error and the enable line has seen only
    // a prefix of the pulse train.
    let mut bus = FourBitBus::from_pins(
        MockPin::new(),
        FlakyPin::new(1),
        MockPin::new(),
        MockPin::new(),
        MockPin::new(),
        MockPin::new(),
    );
    let mut delay = MockDelay::new();

    assert!(bus.write(0xA5, true, &mut delay).is_err());

    let (rs, en, d4, d5, d6, d7) = bus.release();
    assert_eq!(rs.levels, vec![true]);
    assert_eq!(en.levels, vec![true]);
    // Only the upper nibble was ever presented.
    assert_eq!(d7.levels, vec![true]);
    assert_eq!(d6.levels, vec![false]);
    assert_eq!(d5.levels, vec![true]);
    assert_eq!(d4.levels, vec![false]);
}

#[test]
fn four_bit_data_line_failure_between_pulses_stops_the_write() {
    // The d4 line survives the upper nibble and fails on the lower
    // one: exactly one complete enable pulse happened.
    let mut bus = FourBitBus::from_pins(
        MockPin::new(),
        MockPin::new(),
        FlakyPin::new(1),
        MockPin::new(),
        MockPin::new(),
        MockPin::new(),
    );
    let mut delay = MockDelay::new();

    assert!(bus.write(0xA5, true, &mut delay).is_err());

    let (rs, en, d4, _, _, _) = bus.release();
    assert_eq!(rs.levels, vec![true]);
    assert_eq!(en.levels, vec![true, false]);
    assert_eq!(d4.levels, vec![false]);
}
