//! Display control settings: display on/off, cursor visibility and
//! cursor blink, and their encoding into the HD44780 "display
//! control" instruction byte.

use vstd::prelude::*;

verus! {

/// State of the display: whether the characters are shown.
#[derive(Clone, Copy, Debug, PartialEq, Eq, Structural)]
pub enum Display {
    /// Display is on.
    On,
    /// Display is off.
    Off,
}

/// State of the cursor: whether it is shown.
#[derive(Clone, Copy, Debug, PartialEq, Eq, Structural)]
pub enum Cursor {
    /// Cursor is visible.
    On,
    /// Cursor is hidden.
    Off,
}

/// Whether the cursor blinks.
#[derive(Clone, Copy, Debug, PartialEq, Eq, Structural)]
pub enum CursorBlink {
    /// Cursor blinks.
    On,
    /// Cursor does not blink.
    Off,
}

/// Display control settings of a display controller.
#[derive(Clone, Copy, Debug, PartialEq, Eq, Structural)]
pub struct DisplayMode {
    /// Whether the cursor is visible.
    pub cursor_visibility: Cursor,
    /// Whether the cursor blinks.
    pub cursor_blink: CursorBlink,
    /// Whether the display is on.
    pub display: Display,
}

impl DisplayMode {
    /// The "display control" instruction byte: the fixed marker bit
    /// 0b0000_1000, plus 0b0000_0100 when the display is on, plus
    /// 0b0000_0010 when the cursor is visible, plus 0b0000_0001 when
    /// the cursor blinks.
    pub open spec fn spec_as_byte(self) -> u8 {
        0b0000_1000u8
            | (if self.display == Display::On { 0b0000_0100u8 } else { 0u8 })
            | (if self.cursor_visibility == Cursor::On { 0b0000_0010u8 } else { 0u8 })
            | (if self.cursor_blink == CursorBlink::On { 0b0000_0001u8 } else { 0u8 })
    }

    /// Sets the entire display on or off.
    pub fn set_display(&mut self, state: Display) -> (r: &mut Self)
        ensures
            *r == (DisplayMode { display: state, ..*old(self) }),
            *final(self) == *final(r),
    {
        self.display = state;
        self
    }

    /// Sets the cursor visible or hidden.
    pub fn set_cursor(&mut self, state: Cursor) -> (r: &mut Self)
        ensures
            *r == (DisplayMode { cursor_visibility: state, ..*old(self) }),
            *final(self) == *final(r),
    {
        self.cursor_visibility = state;
        self
    }

    /// Sets the blinking of the cursor on or off.
    pub fn set_cursor_blinking(&mut self, blinking: CursorBlink) -> (r: &mut Self)
        ensures
            *r == (DisplayMode { cursor_blink: blinking, ..*old(self) }),
            *final(self) == *final(r),
    {
        self.cursor_blink = blinking;
        self
    }

    /// Encodes the settings as one instruction byte.
    pub fn as_byte(&self) -> (r: u8)
        ensures
            r == self.spec_as_byte(),
    {
        let display_bit: u8 = match self.display {
            Display::On => 0b0000_0100,
            Display::Off => 0b0000_0000,
        };
        let cursor_bit: u8 = match self.cursor_visibility {
            Cursor::On => 0b0000_0010,
            Cursor::Off => 0b0000_0000,
        };
        let blink_bit: u8 = match self.cursor_blink {
            CursorBlink::On => 0b0000_0001,
            CursorBlink::Off => 0b0000_0000,
        };
        0b0000_1000u8 | display_bit | cursor_bit | blink_bit
    }

    /// The display control settings a controller starts with: display
    /// on, cursor visible, cursor blinking.
    pub open spec fn spec_default() -> DisplayMode {
        DisplayMode {
            cursor_visibility: Cursor::On,
            cursor_blink: CursorBlink::On,
            display: Display::On,
        }
    }
}

impl Default for DisplayMode {
    /// Makes the settings a controller starts with: display on,
    /// cursor visible, cursor blinking.
    fn default() -> (r: Self)
        ensures
            r == DisplayMode::spec_default(),
    {
        DisplayMode {
            cursor_visibility: Cursor::On,
            cursor_blink: CursorBlink::On,
            display: Display::On,
        }
    }
}

/// The display control byte has the marker bit 3 always set, bit 2
/// set exactly when the display is on, bit 1 set exactly when the
/// cursor is visible, bit 0 set exactly when the cursor blinks, and
/// no other bit set.
pub proof fn lemma_display_mode_byte_bits(m: DisplayMode)
    ensures
        m.spec_as_byte() & 0b0000_1000 == 0b0000_1000,
        m.spec_as_byte() & 0b0000_0100 == 0b0000_0100 <==> m.display == Display::On,
        m.spec_as_byte() & 0b0000_0010 == 0b0000_0010 <==> m.cursor_visibility == Cursor::On,
        m.spec_as_byte() & 0b0000_0001 == 0b0000_0001 <==> m.cursor_blink == CursorBlink::On,
        m.spec_as_byte() & 0b1111_0000 == 0,
{
    let d: u8 = if m.display == Display::On { 0b0000_0100u8 } else { 0u8 };
    let c: u8 = if m.cursor_visibility == Cursor::On { 0b0000_0010u8 } else { 0u8 };
    let b: u8 = if m.cursor_blink == CursorBlink::On { 0b0000_0001u8 } else { 0u8 };
    assert((d == 0b0000_0100 || d == 0) && (c == 0b0000_0010 || c == 0) && (b == 0b0000_0001 || b
        == 0) ==> {
        let e = 0b0000_1000u8 | d | c | b;
        e & 0b0000_1000 == 0b0000_1000
            && (e & 0b0000_0100 == 0b0000_0100 <==> d == 0b0000_0100)
            && (e & 0b0000_0010 == 0b0000_0010 <==> c == 0b0000_0010)
            && (e & 0b0000_0001 == 0b0000_0001 <==> b == 0b0000_0001)
            && e & 0b1111_0000 == 0
    }) by (bit_vector);
}

} // verus!
