use lcd1602::{Cursor, CursorBlink, CursorMode, Display, DisplayMode, EntryMode, ShiftMode};

fn entry(direction: CursorMode, shift: ShiftMode) -> EntryMode {
    EntryMode { move_direction: direction, display_shift: shift }
}

fn display(d: Display, c: Cursor, b: CursorBlink) -> DisplayMode {
    DisplayMode { cursor_visibility: c, cursor_blink: b, display: d }
}

#[test]
fn entry_mode_bytes_exhaustive() {
    assert_eq!(entry(CursorMode::Increment, ShiftMode::On).as_byte(), 0b0000_0111);
    assert_eq!(entry(CursorMode::Increment, ShiftMode::Off).as_byte(), 0b0000_0110);
    assert_eq!(entry(CursorMode::Decrement, ShiftMode::On).as_byte(), 0b0000_0101);
    assert_eq!(entry(CursorMode::Decrement, ShiftMode::Off).as_byte(), 0b0000_0100);
}

#[test]
fn entry_mode_bit_positions() {
    for (direction, shift) in [
        (CursorMode::Increment, ShiftMode::On),
        (CursorMode::Increment, ShiftMode::Off),
        (CursorMode::Decrement, ShiftMode::On),
        (CursorMode::Decrement, ShiftMode::Off),
    ] {
        let byte = entry(direction, shift).as_byte();
        assert_eq!(byte & 0b0000_0100, 0b0000_0100);
        assert_eq!(byte & 0b0000_0010 != 0, matches!(direction, CursorMode::Increment));
        assert_eq!(byte & 0b0000_0001 != 0, matches!(shift, ShiftMode::On));
        assert_eq!(byte & 0b1111_1000, 0);
    }
}

#[test]
fn display_mode_bytes_exhaustive() {
    assert_eq!(display(Display::Off, Cursor::Off, CursorBlink::Off).as_byte(), 0b0000_1000);
    assert_eq!(display(Display::Off, Cursor::Off, CursorBlink::On).as_byte(), 0b0000_1001);
    assert_eq!(display(Display::Off, Cursor::On, CursorBlink::Off).as_byte(), 0b0000_1010);
    assert_eq!(display(Display::Off, Cursor::On, CursorBlink::On).as_byte(), 0b0000_1011);
    assert_eq!(display(Display::On, Cursor::Off, CursorBlink::Off).as_byte(), 0b0000_1100);
    assert_eq!(display(Display::On, Cursor::Off, CursorBlink::On).as_byte(), 0b0000_1101);
    assert_eq!(display(Display::On, Cursor::On, CursorBlink::Off).as_byte(), 0b0000_1110);
    assert_eq!(display(Display::On, Cursor::On, CursorBlink::On).as_byte(), 0b0000_1111);
}

#[test]
fn display_mode_bit_positions() {
    for d in [Display::On, Display::Off] {
        for c in [Cursor::On, Cursor::Off] {
            for b in [CursorBlink::On, CursorBlink::Off] {
                let byte = display(d, c, b).as_byte();
                assert_eq!(byte & 0b0000_1000, 0b0000_1000);
                assert_eq!(byte & 0b0000_0100 != 0, matches!(d, Display::On));
                assert_eq!(byte & 0b0000_0010 != 0, matches!(c, Cursor::On));
                assert_eq!(byte & 0b0000_0001 != 0, matches!(b, CursorBlink::On));
                assert_eq!(byte & 0b1111_0000, 0);
            }
        }
    }
}

#[test]
fn default_modes_encode_expected_bytes() {
    assert_eq!(EntryMode::default().as_byte(), 0b0000_0110);
    assert_eq!(DisplayMode::default().as_byte(), 0b0000_1111);
}

#[test]
fn display_mode_setters_change_one_field() {
    let mut mode = DisplayMode::default();
    mode.set_cursor_blinking(CursorBlink::Off);
    assert_eq!(mode.as_byte(), 0b0000_1110);
    mode.set_cursor(Cursor::Off);
    assert_eq!(mode.as_byte(), 0b0000_1100);
    mode.set_display(Display::Off);
    assert_eq!(mode.as_byte(), 0b0000_1000);
}

#[test]
fn display_mode_setters_chain() {
    let mut mode = DisplayMode::default();
    mode.set_display(Display::Off).set_cursor(Cursor::Off).set_cursor_blinking(CursorBlink::Off);
    assert_eq!(mode.as_byte(), 0b0000_1000);
}
