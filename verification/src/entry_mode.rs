//! Entry mode settings: which way the cursor moves on a character
//! write and whether the display shifts with it, and their encoding
//! into the HD44780 "entry mode set" instruction byte.

use vstd::prelude::*;

verus! {

/// Direction the cursor moves when a character code is written.
#[derive(Clone, Copy, Debug, PartialEq, Eq, Structural)]
pub enum CursorMode {
    /// The cursor moves right.
    Increment,
    /// The cursor moves left.
    Decrement,
}

/// Whether the display shifts when a character code is written.
#[derive(Clone, Copy, Debug, PartialEq, Eq, Structural)]
pub enum ShiftMode {
    /// The display shifts on write.
    On,
    /// The display stays put on write.
    Off,
}

/// Entry mode settings of a display controller.
#[derive(Clone, Copy, Debug, PartialEq, Eq, Structural)]
pub struct EntryMode {
    /// The direction to move the cursor on write.
    pub move_direction: CursorMode,
    /// Whether to shift the display on write.
    pub display_shift: ShiftMode,
}

impl EntryMode {
    /// The "entry mode set" instruction byte: the fixed marker bit
    /// 0b0000_0100, plus 0b0000_0010 when the cursor increments, plus
    /// 0b0000_0001 when the display shifts.
    pub open spec fn spec_as_byte(self) -> u8 {
        0b0000_0100u8
            | (if self.move_direction == CursorMode::Increment { 0b0000_0010u8 } else { 0u8 })
            | (if self.display_shift == ShiftMode::On { 0b0000_0001u8 } else { 0u8 })
    }

    /// Encodes the settings as one instruction byte.
    pub fn as_byte(&self) -> (r: u8)
        ensures
            r == self.spec_as_byte(),
    {
        let direction_bit: u8 = match self.move_direction {
            CursorMode::Increment => 0b0000_0010,
            CursorMode::Decrement => 0b0000_0000,
        };
        let shift_bit: u8 = match self.display_shift {
            ShiftMode::On => 0b0000_0001,
            ShiftMode::Off => 0b0000_0000,
        };
        0b0000_0100u8 | direction_bit | shift_bit
    }

    /// The entry mode a controller starts with: cursor increments,
    /// display does not shift.
    pub open spec fn spec_default() -> EntryMode {
        EntryMode { move_direction: CursorMode::Increment, display_shift: ShiftMode::Off }
    }
}

impl Default for EntryMode {
    /// Makes the settings a controller starts with: the cursor moves
    /// right on write and the display does not shift.
    fn default() -> (r: Self)
        ensures
            r == EntryMode::spec_default(),
    {
        EntryMode { move_direction: CursorMode::Increment, display_shift: ShiftMode::Off }
    }
}

/// The entry mode byte has the marker bit 2 always set, bit 1 set
/// exactly when the cursor increments, bit 0 set exactly when the
/// display shifts, and no other bit set.
pub proof fn lemma_entry_mode_byte_bits(m: EntryMode)
    ensures
        m.spec_as_byte() & 0b0000_0100 == 0b0000_0100,
        m.spec_as_byte() & 0b0000_0010 == 0b0000_0010 <==> m.move_direction == CursorMode::Increment,
        m.spec_as_byte() & 0b0000_0001 == 0b0000_0001 <==> m.display_shift == ShiftMode::On,
        m.spec_as_byte() & 0b1111_1000 == 0,
{
    let d: u8 = if m.move_direction == CursorMode::Increment { 0b0000_0010u8 } else { 0u8 };
    let s: u8 = if m.display_shift == ShiftMode::On { 0b0000_0001u8 } else { 0u8 };
    assert((d == 0b0000_0010 || d == 0) && (s == 0b0000_0001 || s == 0) ==> {
        let b = 0b0000_0100u8 | d | s;
        b & 0b0000_0100 == 0b0000_0100
            && (b & 0b0000_0010 == 0b0000_0010 <==> d == 0b0000_0010)
            && (b & 0b0000_0001 == 0b0000_0001 <==> s == 0b0000_0001)
            && b & 0b1111_1000 == 0
    }) by (bit_vector);
}

} // verus!
