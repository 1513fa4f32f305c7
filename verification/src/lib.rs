//! Driver logic for HD44780-family character displays (the common
//! 16x2 "1602" modules), reachable over an 8-bit parallel bus, a
//! 4-bit parallel bus, or an I2C port expander that multiplexes the
//! 4-bit bus onto single-byte I2C writes.

use vstd::prelude::*;
use vstd::string::StringSliceAdditionalSpecFns;

pub mod bus_width;
pub mod data_bus;
pub mod display_control;
pub mod eightbit_bus;
pub mod entry_mode;
pub mod error;
pub mod fourbit_bus;
pub mod hal;
pub mod i2c_bus;
pub mod mock;

pub use bus_width::BusWidth;
pub use data_bus::DataBus;
pub use display_control::{Cursor, CursorBlink, Display, DisplayMode};
pub use eightbit_bus::EightBitBus;
pub use entry_mode::{CursorMode, EntryMode, ShiftMode};
pub use error::Error;
pub use fourbit_bus::FourBitBus;
pub use i2c_bus::I2CBus;

use i2c_bus::spec_payload_seq;

use hal::{Delay, I2cWrite, OutputPin};

verus! {

/// Direction argument for shifting the cursor and the display.
#[derive(Clone, Copy, Debug, PartialEq, Eq, Structural)]
pub enum Direction {
    /// Shift left.
    Left,
    /// Shift right.
    Right,
}

/// The "shift cursor" instruction byte: the fixed base 0b0001_0000,
/// OR'd with 0b0000_0100 for a shift to the right.
pub open spec fn spec_shift_cursor_cmd(dir: Direction) -> u8 {
    0b0001_0000u8 | (if dir == Direction::Right { 0b0000_0100u8 } else { 0u8 })
}

/// The "shift display" instruction byte: the fixed base 0b0001_1000,
/// OR'd with 0b0000_0100 for a shift to the right.
pub open spec fn spec_shift_display_cmd(dir: Direction) -> u8 {
    0b0001_1000u8 | (if dir == Direction::Right { 0b0000_0100u8 } else { 0u8 })
}

/// The shift instruction bytes written out: shifting the cursor
/// sends 0x10 for left and 0x14 for right; shifting the display
/// sends 0x18 for left and 0x1C for right.
pub proof fn lemma_shift_command_bytes()
    ensures
        spec_shift_cursor_cmd(Direction::Left) == 0x10,
        spec_shift_cursor_cmd(Direction::Right) == 0x14,
        spec_shift_display_cmd(Direction::Left) == 0x18,
        spec_shift_display_cmd(Direction::Right) == 0x1C,
{
    assert(0b0001_0000u8 | 0u8 == 0x10 && 0b0001_0000u8 | 0b0000_0100u8 == 0x14 && 0b0001_1000u8
        | 0u8 == 0x18 && 0b0001_1000u8 | 0b0000_0100u8 == 0x1C) by (bit_vector);
}

/// The "set DDRAM address" instruction byte for a requested cursor
/// position: the marker bit 0b1000_0000 with the position truncated
/// to its lower seven bits. Positions of 0x80 and above wrap into
/// range rather than being rejected.
pub open spec fn spec_set_cursor_pos_cmd(position: u8) -> u8 {
    0b1000_0000u8 | (position & 0b0111_1111)
}

/// The command bytes, in order, that the 4-bit initialization
/// sequence delivers: force 8-bit mode, switch to 4-bit mode,
/// confirm the function set, display control, clear, the current
/// entry mode byte, and DDRAM address zero.
pub open spec fn spec_init_commands_4bit(entry_byte: u8) -> Seq<(u8, bool)> {
    seq![
        (0x33u8, false),
        (0x32u8, false),
        (0x28u8, false),
        (0x0Eu8, false),
        (0x01u8, false),
        (entry_byte, false),
        (0x80u8, false),
    ]
}

/// The command bytes, in order, that the 8-bit initialization
/// sequence delivers: force 8-bit mode, function set, display
/// control, clear, entry mode increment-and-shift, and the current
/// entry mode byte.
pub open spec fn spec_init_commands_8bit(entry_byte: u8) -> Seq<(u8, bool)> {
    seq![
        (0b0011_0000u8, false),
        (0b0011_1000u8, false),
        (0b0000_1110u8, false),
        (0b0000_0001u8, false),
        (0b0000_0111u8, false),
        (entry_byte, false),
    ]
}

/// The waits, in microseconds, of the 4-bit initialization sequence,
/// where `p` is the transport's own delay profile per write: the
/// power-on settle, then each command write followed by its
/// datasheet-mandated processing time.
pub open spec fn spec_init_delays_4bit(p: Seq<int>) -> Seq<int> {
    seq![15000int] + p + seq![5000int] + p + seq![100int] + p + seq![100int] + p + seq![100int] + p
        + seq![100int] + p + seq![100int] + p + seq![100int]
}

/// The waits, in microseconds, of the 8-bit initialization sequence,
/// where `p` is the transport's own delay profile per write.
pub open spec fn spec_init_delays_8bit(p: Seq<int>) -> Seq<int> {
    seq![15000int] + p + seq![5000int] + p + seq![100int] + p + seq![100int] + p + seq![100int] + p
        + seq![100int] + p + seq![100int]
}

/// The payload bytes, in order, that the 4-bit initialization
/// sequence puts on the expander channel: the four payloads of each
/// command of the sequence, concatenated.
pub open spec fn spec_init_payloads(address: u8, entry_byte: u8) -> Seq<(u8, u8)> {
    spec_payload_seq(address, 0x33, false) + spec_payload_seq(address, 0x32, false)
        + spec_payload_seq(address, 0x28, false) + spec_payload_seq(address, 0x0E, false)
        + spec_payload_seq(address, 0x01, false) + spec_payload_seq(address, entry_byte, false)
        + spec_payload_seq(address, 0x80, false)
}

/// A display controller: owns one transport and the current entry
/// mode and display mode settings.
pub struct LCD1602<B: DataBus> {
    bus: B,
    entry_mode: EntryMode,
    display_mode: DisplayMode,
}

impl<B: DataBus> LCD1602<B> {
    /// The tagged bytes the transport has delivered so far.
    pub closed spec fn sent(&self) -> Seq<(u8, bool)> {
        self.bus.sent()
    }

    /// The transport's delay profile per write.
    pub closed spec fn bus_delays(&self) -> Seq<int> {
        self.bus.write_delays()
    }

    /// The entry mode settings the controller holds.
    pub closed spec fn current_entry_mode(&self) -> EntryMode {
        self.entry_mode
    }

    /// The display mode settings the controller holds.
    pub closed spec fn current_display_mode(&self) -> DisplayMode {
        self.display_mode
    }

    /// Hands the transport back, consuming the controller.
    pub fn destroy(self) -> (r: B)
        ensures
            r.sent() == self.sent(),
            r.write_delays() == self.bus_delays(),
    {
        self.bus
    }

    /// Sends one command byte and waits the fixed processing time.
    fn write_command<D: Delay>(&mut self, cmd: u8, delay: &mut D) -> (r: Result<(), Error>)
        ensures
            final(self).current_entry_mode() == old(self).current_entry_mode(),
            final(self).current_display_mode() == old(self).current_display_mode(),
            final(self).bus_delays() == old(self).bus_delays(),
            r is Ok ==> final(self).sent() == old(self).sent().push((cmd, false)),
            r is Ok ==> final(delay).history() == old(delay).history() + old(self).bus_delays()
                + seq![100int],
            r is Err ==> final(self).sent() == old(self).sent(),
    {
        self.bus.write(cmd, false, delay)?;

        // Wait for the command to be processed.
        delay.delay_us(100);

        proof {
            assert(delay.history() =~= old(delay).history() + old(self).bus_delays() + seq![
                100int,
            ]);
        }
        Ok(())
    }

    /// Unshifts the display and moves the cursor back to position
    /// zero by sending the "return home" instruction.
    pub fn reset<D: Delay>(&mut self, delay: &mut D) -> (r: Result<(), Error>)
        ensures
            final(self).current_entry_mode() == old(self).current_entry_mode(),
            final(self).current_display_mode() == old(self).current_display_mode(),
            final(self).bus_delays() == old(self).bus_delays(),
            r is Ok ==> final(self).sent() == old(self).sent().push((0b0000_0010u8, false)),
            r is Ok ==> final(delay).history() == old(delay).history() + old(self).bus_delays()
                + seq![100int],
            r is Err ==> final(self).sent() == old(self).sent(),
    {
        self.write_command(0b0000_0010, delay)?;

        Ok(())
    }

    /// Clears the entire display.
    pub fn clear<D: Delay>(&mut self, delay: &mut D) -> (r: Result<(), Error>)
        ensures
            final(self).current_entry_mode() == old(self).current_entry_mode(),
            final(self).current_display_mode() == old(self).current_display_mode(),
            final(self).bus_delays() == old(self).bus_delays(),
            r is Ok ==> final(self).sent() == old(self).sent().push((0b0000_0001u8, false)),
            r is Ok ==> final(delay).history() == old(delay).history() + old(self).bus_delays()
                + seq![100int],
            r is Err ==> final(self).sent() == old(self).sent(),
    {
        self.write_command(0b0000_0001, delay)?;

        Ok(())
    }

    /// Stores the given display mode settings and sends their
    /// encoded byte in one go.
    pub fn set_display_mode<D: Delay>(&mut self, display_mode: DisplayMode, delay: &mut D) -> (r:
        Result<(), Error>)
        ensures
            final(self).current_display_mode() == display_mode,
            final(self).current_entry_mode() == old(self).current_entry_mode(),
            final(self).bus_delays() == old(self).bus_delays(),
            r is Ok ==> final(self).sent() == old(self).sent().push(
                (display_mode.spec_as_byte(), false),
            ),
            r is Ok ==> final(delay).history() == old(delay).history() + old(self).bus_delays()
                + seq![100int],
            r is Err ==> final(self).sent() == old(self).sent(),
    {
        self.display_mode = display_mode;

        let cmd_byte = self.display_mode.as_byte();

        self.write_command(cmd_byte, delay)?;

        Ok(())
    }

    /// Sets whether the display shifts automatically when a new
    /// character is written, and re-sends the whole entry mode byte.
    pub fn set_autoscroll<D: Delay>(&mut self, enabled: ShiftMode, delay: &mut D) -> (r: Result<
        (),
        Error,
    >)
        ensures
            final(self).current_entry_mode() == (EntryMode {
                display_shift: enabled,
                ..old(self).current_entry_mode()
            }),
            final(self).current_display_mode() == old(self).current_display_mode(),
            final(self).bus_delays() == old(self).bus_delays(),
            r is Ok ==> final(self).sent() == old(self).sent().push(
                (final(self).current_entry_mode().spec_as_byte(), false),
            ),
            r is Ok ==> final(delay).history() == old(delay).history() + old(self).bus_delays()
                + seq![100int],
            r is Err ==> final(self).sent() == old(self).sent(),
    {
        self.entry_mode.display_shift = enabled;

        let cmd = self.entry_mode.as_byte();

        self.write_command(cmd, delay)?;

        Ok(())
    }

    /// Sets whether the cursor is visible, and re-sends the whole
    /// display mode byte.
    pub fn set_cursor_visibility<D: Delay>(&mut self, visibility: Cursor, delay: &mut D) -> (r:
        Result<(), Error>)
        ensures
            final(self).current_display_mode() == (DisplayMode {
                cursor_visibility: visibility,
                ..old(self).current_display_mode()
            }),
            final(self).current_entry_mode() == old(self).current_entry_mode(),
            final(self).bus_delays() == old(self).bus_delays(),
            r is Ok ==> final(self).sent() == old(self).sent().push(
                (final(self).current_display_mode().spec_as_byte(), false),
            ),
            r is Ok ==> final(delay).history() == old(delay).history() + old(self).bus_delays()
                + seq![100int],
            r is Err ==> final(self).sent() == old(self).sent(),
    {
        self.display_mode.cursor_visibility = visibility;

        let cmd = self.display_mode.as_byte();

        self.write_command(cmd, delay)?;

        Ok(())
    }

    /// Sets whether the characters on the display are visible, and
    /// re-sends the whole display mode byte.
    pub fn set_display<D: Delay>(&mut self, display: Display, delay: &mut D) -> (r: Result<
        (),
        Error,
    >)
        ensures
            final(self).current_display_mode() == (DisplayMode {
                display: display,
                ..old(self).current_display_mode()
            }),
            final(self).current_entry_mode() == old(self).current_entry_mode(),
            final(self).bus_delays() == old(self).bus_delays(),
            r is Ok ==> final(self).sent() == old(self).sent().push(
                (final(self).current_display_mode().spec_as_byte(), false),
            ),
            r is Ok ==> final(delay).history() == old(delay).history() + old(self).bus_delays()
                + seq![100int],
            r is Err ==> final(self).sent() == old(self).sent(),
    {
        self.display_mode.display = display;

        let cmd = self.display_mode.as_byte();

        self.write_command(cmd, delay)?;

        Ok(())
    }

    /// Sets whether the cursor blinks, and re-sends the whole
    /// display mode byte.
    pub fn set_cursor_blink<D: Delay>(&mut self, blink: CursorBlink, delay: &mut D) -> (r: Result<
        (),
        Error,
    >)
        ensures
            final(self).current_display_mode() == (DisplayMode {
                cursor_blink: blink,
                ..old(self).current_display_mode()
            }),
            final(self).current_entry_mode() == old(self).current_entry_mode(),
            final(self).bus_delays() == old(self).bus_delays(),
            r is Ok ==> final(self).sent() == old(self).sent().push(
                (final(self).current_display_mode().spec_as_byte(), false),
            ),
            r is Ok ==> final(delay).history() == old(delay).history() + old(self).bus_delays()
                + seq![100int],
            r is Err ==> final(self).sent() == old(self).sent(),
    {
        self.display_mode.cursor_blink = blink;

        let cmd = self.display_mode.as_byte();

        self.write_command(cmd, delay)?;

        Ok(())
    }

    /// Sets which way the cursor moves when a new character is
    /// written, and re-sends the whole entry mode byte.
    pub fn set_cursor_mode<D: Delay>(&mut self, mode: CursorMode, delay: &mut D) -> (r: Result<
        (),
        Error,
    >)
        ensures
            final(self).current_entry_mode() == (EntryMode {
                move_direction: mode,
                ..old(self).current_entry_mode()
            }),
            final(self).current_display_mode() == old(self).current_display_mode(),
            final(self).bus_delays() == old(self).bus_delays(),
            r is Ok ==> final(self).sent() == old(self).sent().push(
                (final(self).current_entry_mode().spec_as_byte(), false),
            ),
            r is Ok ==> final(delay).history() == old(delay).history() + old(self).bus_delays()
                + seq![100int],
            r is Err ==> final(self).sent() == old(self).sent(),
    {
        self.entry_mode.move_direction = mode;

        let cmd = self.entry_mode.as_byte();

        self.write_command(cmd, delay)?;

        Ok(())
    }

    /// Sets the cursor position to a DDRAM address. Positions of
    /// 0x80 and above are truncated into the seven-bit range, not
    /// rejected.
    pub fn set_cursor_pos<D: Delay>(&mut self, position: u8, delay: &mut D) -> (r: Result<
        (),
        Error,
    >)
        ensures
            final(self).current_entry_mode() == old(self).current_entry_mode(),
            final(self).current_display_mode() == old(self).current_display_mode(),
            final(self).bus_delays() == old(self).bus_delays(),
            r is Ok ==> final(self).sent() == old(self).sent().push(
                (spec_set_cursor_pos_cmd(position), false),
            ),
            r is Ok ==> final(delay).history() == old(delay).history() + old(self).bus_delays()
                + seq![100int],
            r is Err ==> final(self).sent() == old(self).sent(),
    {
        let lower_7_bits: u8 = position & 0b0111_1111;

        self.write_command(0b1000_0000 | lower_7_bits, delay)?;

        Ok(())
    }

    /// Shifts just the cursor one position to the left or the right.
    pub fn shift_cursor<D: Delay>(&mut self, dir: Direction, delay: &mut D) -> (r: Result<
        (),
        Error,
    >)
        ensures
            final(self).current_entry_mode() == old(self).current_entry_mode(),
            final(self).current_display_mode() == old(self).current_display_mode(),
            final(self).bus_delays() == old(self).bus_delays(),
            r is Ok ==> final(self).sent() == old(self).sent().push(
                (spec_shift_cursor_cmd(dir), false),
            ),
            r is Ok ==> final(delay).history() == old(delay).history() + old(self).bus_delays()
                + seq![100int],
            r is Err ==> final(self).sent() == old(self).sent(),
    {
        let bits: u8 = match dir {
            Direction::Left => 0b0000_0000,
            Direction::Right => 0b0000_0100,
        };

        proof {
            assert(0b0001_0000u8 | 0u8 | 0u8 == 0b0001_0000u8 | 0u8) by (bit_vector);
            assert(0b0001_0000u8 | 0b0000_0100u8 | 0b0000_0100u8 == 0b0001_0000u8 | 0b0000_0100u8)
                by (bit_vector);
        }

        self.write_command(0b0001_0000 | bits | bits, delay)?;

        Ok(())
    }

    /// Shifts the entire display one position to the left or the
    /// right.
    pub fn shift_display<D: Delay>(&mut self, dir: Direction, delay: &mut D) -> (r: Result<
        (),
        Error,
    >)
        ensures
            final(self).current_entry_mode() == old(self).current_entry_mode(),
            final(self).current_display_mode() == old(self).current_display_mode(),
            final(self).bus_delays() == old(self).bus_delays(),
            r is Ok ==> final(self).sent() == old(self).sent().push(
                (spec_shift_display_cmd(dir), false),
            ),
            r is Ok ==> final(delay).history() == old(delay).history() + old(self).bus_delays()
                + seq![100int],
            r is Err ==> final(self).sent() == old(self).sent(),
    {
        let bits: u8 = match dir {
            Direction::Left => 0b0000_0000,
            Direction::Right => 0b0000_0100,
        };

        self.write_command(0b0001_1000 | bits, delay)?;

        Ok(())
    }

    /// Writes a single byte as character data. These usually map to
    /// ASCII characters when printed, though a few positions vary
    /// with the character ROM of the module.
    pub fn write_byte<D: Delay>(&mut self, data: u8, delay: &mut D) -> (r: Result<(), Error>)
        ensures
            final(self).current_entry_mode() == old(self).current_entry_mode(),
            final(self).current_display_mode() == old(self).current_display_mode(),
            final(self).bus_delays() == old(self).bus_delays(),
            r is Ok ==> final(self).sent() == old(self).sent().push((data, true)),
            r is Ok ==> final(delay).history() == old(delay).history() + old(self).bus_delays()
                + seq![100int],
            r is Err ==> final(self).sent() == old(self).sent(),
    {
        self.bus.write(data, true, delay)?;

        // Wait for the data to be processed.
        delay.delay_us(100);

        proof {
            assert(delay.history() =~= old(delay).history() + old(self).bus_delays() + seq![
                100int,
            ]);
        }
        Ok(())
    }

    /// Writes a single character, narrowed to one byte. Characters
    /// outside the single-byte range are truncated, not rejected;
    /// callers are responsible for staying within the module's
    /// character set.
    pub fn write_char<D: Delay>(&mut self, data: char, delay: &mut D) -> (r: Result<(), Error>)
        ensures
            final(self).current_entry_mode() == old(self).current_entry_mode(),
            final(self).current_display_mode() == old(self).current_display_mode(),
            final(self).bus_delays() == old(self).bus_delays(),
            r is Ok ==> final(self).sent() == old(self).sent().push((data as u8, true)),
            r is Ok ==> final(delay).history() == old(delay).history() + old(self).bus_delays()
                + seq![100int],
            r is Err ==> final(self).sent() == old(self).sent(),
    {
        self.write_byte(data as u8, delay)
    }

    /// Writes a sequence of bytes as character data, each one a full
    /// command cycle with its own settle delay.
    pub fn write_bytes<D: Delay>(&mut self, string: &[u8], delay: &mut D) -> (r: Result<
        (),
        Error,
    >)
        ensures
            final(self).current_entry_mode() == old(self).current_entry_mode(),
            final(self).current_display_mode() == old(self).current_display_mode(),
            final(self).bus_delays() == old(self).bus_delays(),
            r is Ok ==> final(self).sent() == old(self).sent() + string@.map(
                |i: int, b: u8| (b, true),
            ),
            r is Err ==> old(self).sent().len() <= final(self).sent().len() < old(
                self,
            ).sent().len() + string@.len() && final(self).sent() == old(self).sent() + string@.map(
                |i: int, b: u8| (b, true),
            ).take(final(self).sent().len() - old(self).sent().len()),
    {
        let ghost tagged = string@.map(|i: int, b: u8| (b, true));
        let mut idx: usize = 0;
        while idx < string.len()
            invariant
                idx <= string@.len(),
                tagged == string@.map(|i: int, b: u8| (b, true)),
                self.sent() == old(self).sent() + tagged.take(idx as int),
                self.current_entry_mode() == old(self).current_entry_mode(),
                self.current_display_mode() == old(self).current_display_mode(),
                self.bus_delays() == old(self).bus_delays(),
            decreases string@.len() - idx,
        {
            let b = string[idx];
            self.write_byte(b, delay)?;
            proof {
                assert(self.sent() =~= old(self).sent() + tagged.take(idx as int + 1));
            }
            idx += 1;
        }
        proof {
            assert(old(self).sent() + tagged.take(string@.len() as int) =~= old(self).sent()
                + tagged);
        }
        Ok(())
    }

    /// Writes a string as character data, one UTF-8 code unit at a
    /// time. Make sure the characters fit the module's single-byte
    /// character set.
    pub fn write_str<D: Delay>(&mut self, string: &str, delay: &mut D) -> (r: Result<(), Error>)
        ensures
            final(self).current_entry_mode() == old(self).current_entry_mode(),
            final(self).current_display_mode() == old(self).current_display_mode(),
            final(self).bus_delays() == old(self).bus_delays(),
            r is Ok ==> final(self).sent() == old(self).sent() + string.spec_bytes().map(
                |i: int, b: u8| (b, true),
            ),
            r is Err ==> old(self).sent().len() <= final(self).sent().len() < old(
                self,
            ).sent().len() + string.spec_bytes().len() && final(self).sent() == old(self).sent()
                + string.spec_bytes().map(|i: int, b: u8| (b, true)).take(
                final(self).sent().len() - old(self).sent().len(),
            ),
    {
        self.write_bytes(string.as_bytes(), delay)
    }

    /// Runs the 4-bit initialization sequence, used by both the
    /// 4-bit parallel and the I2C transport.
    fn init_4bit<D: Delay>(&mut self, delay: &mut D) -> (r: Result<(), Error>)
        ensures
            final(self).current_entry_mode() == old(self).current_entry_mode(),
            final(self).current_display_mode() == old(self).current_display_mode(),
            final(self).bus_delays() == old(self).bus_delays(),
            r is Ok ==> final(self).sent() == old(self).sent() + spec_init_commands_4bit(
                old(self).current_entry_mode().spec_as_byte(),
            ),
            r is Ok ==> final(delay).history() == old(delay).history() + spec_init_delays_4bit(
                old(self).bus_delays(),
            ),
            r is Err ==> old(self).sent().len() <= final(self).sent().len() < old(
                self,
            ).sent().len() + 7 && final(self).sent() == old(self).sent()
                + spec_init_commands_4bit(old(self).current_entry_mode().spec_as_byte()).take(
                final(self).sent().len() - old(self).sent().len(),
            ),
    {
        // Wait for the display to wake up if it was off.
        delay.delay_ms(15u32);

        // Force the controller into 8-bit mode first, so the switch
        // to 4-bit mode starts from a known state.
        self.bus.write(0x33, false, delay)?;

        delay.delay_ms(5u32);

        // Switch to 4-bit operation, two lines, 5x7 characters.
        self.bus.write(0x32, false, delay)?;

        delay.delay_us(100);

        self.bus.write(0x28, false, delay)?;

        delay.delay_us(100);

        self.bus.write(0x0E, false, delay)?;

        delay.delay_us(100);

        // Clear the display.
        self.bus.write(0x01, false, delay)?;

        delay.delay_us(100);

        // Set the entry mode.
        let entry_byte = self.entry_mode.as_byte();
        self.bus.write(entry_byte, false, delay)?;

        delay.delay_us(100);

        // Move the cursor to the beginning of the first line.
        self.bus.write(0x80, false, delay)?;

        delay.delay_us(100);

        proof {
            assert(self.sent() =~= old(self).sent() + spec_init_commands_4bit(
                old(self).current_entry_mode().spec_as_byte(),
            ));
            assert(delay.history() =~= old(delay).history() + spec_init_delays_4bit(
                old(self).bus_delays(),
            ));
        }

        Ok(())
    }

    /// Runs the 8-bit initialization sequence of the datasheet.
    fn init_8bit<D: Delay>(&mut self, delay: &mut D) -> (r: Result<(), Error>)
        ensures
            final(self).current_entry_mode() == old(self).current_entry_mode(),
            final(self).current_display_mode() == old(self).current_display_mode(),
            final(self).bus_delays() == old(self).bus_delays(),
            r is Ok ==> final(self).sent() == old(self).sent() + spec_init_commands_8bit(
                old(self).current_entry_mode().spec_as_byte(),
            ),
            r is Ok ==> final(delay).history() == old(delay).history() + spec_init_delays_8bit(
                old(self).bus_delays(),
            ),
            r is Err ==> old(self).sent().len() <= final(self).sent().len() < old(
                self,
            ).sent().len() + 6 && final(self).sent() == old(self).sent()
                + spec_init_commands_8bit(old(self).current_entry_mode().spec_as_byte()).take(
                final(self).sent().len() - old(self).sent().len(),
            ),
    {
        // Wait for the display to wake up if it was off.
        delay.delay_ms(15u32);

        // Put the controller in 8-bit mode.
        self.bus.write(0b0011_0000, false, delay)?;

        delay.delay_ms(5u32);

        // 8-bit operation, two lines, 5x7 characters.
        self.bus.write(0b0011_1000, false, delay)?;

        delay.delay_us(100);

        self.bus.write(0b0000_1110, false, delay)?;

        delay.delay_us(100);

        // Clear the display.
        self.bus.write(0b0000_0001, false, delay)?;

        delay.delay_us(100);

        self.bus.write(0b0000_0111, false, delay)?;

        delay.delay_us(100);

        // Set the entry mode.
        let entry_byte = self.entry_mode.as_byte();
        self.bus.write(entry_byte, false, delay)?;

        delay.delay_us(100);

        proof {
            assert(self.sent() =~= old(self).sent() + spec_init_commands_8bit(
                old(self).current_entry_mode().spec_as_byte(),
            ));
            assert(delay.history() =~= old(delay).history() + spec_init_delays_8bit(
                old(self).bus_delays(),
            ));
        }

        Ok(())
    }
}

impl<
    RS: OutputPin,
    EN: OutputPin,
    D0: OutputPin,
    D1: OutputPin,
    D2: OutputPin,
    D3: OutputPin,
    D4: OutputPin,
    D5: OutputPin,
    D6: OutputPin,
    D7: OutputPin,
> LCD1602<EightBitBus<RS, EN, D0, D1, D2, D3, D4, D5, D6, D7>> {
    /// Builds the 8-bit parallel transport from its ten pins, sets
    /// the default modes, and runs the 8-bit initialization
    /// sequence. A controller exists exactly when the whole sequence
    /// succeeded.
    pub fn new_8bit<D: Delay>(
        rs: RS,
        en: EN,
        d0: D0,
        d1: D1,
        d2: D2,
        d3: D3,
        d4: D4,
        d5: D5,
        d6: D6,
        d7: D7,
        delay: &mut D,
    ) -> (r: Result<LCD1602<EightBitBus<RS, EN, D0, D1, D2, D3, D4, D5, D6, D7>>, Error>)
        ensures
            r matches Ok(hd) ==> {
                &&& hd.sent() == spec_init_commands_8bit(EntryMode::spec_default().spec_as_byte())
                &&& hd.current_entry_mode() == EntryMode::spec_default()
                &&& hd.current_display_mode() == DisplayMode::spec_default()
                &&& final(delay).history() == old(delay).history() + spec_init_delays_8bit(
                    seq![2000int],
                )
            },
    {
        let mut hd = LCD1602 {
            bus: EightBitBus::from_pins(rs, en, d0, d1, d2, d3, d4, d5, d6, d7),
            entry_mode: EntryMode::default(),
            display_mode: DisplayMode::default(),
        };

        hd.init_8bit(delay)?;

        proof {
            assert(hd.sent() =~= spec_init_commands_8bit(EntryMode::spec_default().spec_as_byte()));
        }

        Ok(hd)
    }
}

impl<
    RS: OutputPin,
    EN: OutputPin,
    D4: OutputPin,
    D5: OutputPin,
    D6: OutputPin,
    D7: OutputPin,
> LCD1602<FourBitBus<RS, EN, D4, D5, D6, D7>> {
    /// Builds the 4-bit parallel transport from its six pins, sets
    /// the default modes, and runs the 4-bit initialization
    /// sequence. A controller exists exactly when the whole sequence
    /// succeeded.
    pub fn new_4bit<D: Delay>(
        rs: RS,
        en: EN,
        d4: D4,
        d5: D5,
        d6: D6,
        d7: D7,
        delay: &mut D,
    ) -> (r: Result<LCD1602<FourBitBus<RS, EN, D4, D5, D6, D7>>, Error>)
        ensures
            r matches Ok(hd) ==> {
                &&& hd.sent() == spec_init_commands_4bit(EntryMode::spec_default().spec_as_byte())
                &&& hd.current_entry_mode() == EntryMode::spec_default()
                &&& hd.current_display_mode() == DisplayMode::spec_default()
                &&& final(delay).history() == old(delay).history() + spec_init_delays_4bit(
                    seq![2000int, 2000int],
                )
            },
    {
        let mut hd = LCD1602 {
            bus: FourBitBus::from_pins(rs, en, d4, d5, d6, d7),
            entry_mode: EntryMode::default(),
            display_mode: DisplayMode::default(),
        };

        hd.init_4bit(delay)?;

        proof {
            assert(hd.sent() =~= spec_init_commands_4bit(EntryMode::spec_default().spec_as_byte()));
        }

        Ok(hd)
    }
}

impl<I2C: I2cWrite> LCD1602<I2CBus<I2C>> {
    /// The fixed device address of the expander transport.
    pub closed spec fn device_address(&self) -> u8 {
        self.bus.spec_address()
    }

    /// The payload bytes the expander channel has carried, each with
    /// its device address.
    pub closed spec fn channel_history(&self) -> Seq<(u8, u8)> {
        self.bus.channel_history()
    }

    /// Runs the 4-bit initialization sequence over the expander: the
    /// same command sequence as the parallel 4-bit path, written
    /// against the concrete transport so the payload stream on the
    /// channel can be stated as well.
    fn init_4bit_i2c<D: Delay>(&mut self, delay: &mut D) -> (r: Result<(), Error>)
        ensures
            final(self).current_entry_mode() == old(self).current_entry_mode(),
            final(self).current_display_mode() == old(self).current_display_mode(),
            final(self).bus_delays() == old(self).bus_delays(),
            final(self).device_address() == old(self).device_address(),
            r is Ok ==> final(self).sent() == old(self).sent() + spec_init_commands_4bit(
                old(self).current_entry_mode().spec_as_byte(),
            ),
            r is Ok ==> final(self).channel_history() == old(self).channel_history()
                + spec_init_payloads(
                old(self).device_address(),
                old(self).current_entry_mode().spec_as_byte(),
            ),
            r is Ok ==> final(delay).history() == old(delay).history() + spec_init_delays_4bit(
                old(self).bus_delays(),
            ),
            r is Err ==> old(self).sent().len() <= final(self).sent().len() < old(
                self,
            ).sent().len() + 7 && final(self).sent() == old(self).sent()
                + spec_init_commands_4bit(old(self).current_entry_mode().spec_as_byte()).take(
                final(self).sent().len() - old(self).sent().len(),
            ),
    {
        // Wait for the display to wake up if it was off.
        delay.delay_ms(15u32);

        // Force the controller into 8-bit mode first, so the switch
        // to 4-bit mode starts from a known state.
        self.bus.write(0x33, false, delay)?;

        delay.delay_ms(5u32);

        // Switch to 4-bit operation, two lines, 5x7 characters.
        self.bus.write(0x32, false, delay)?;

        delay.delay_us(100);

        self.bus.write(0x28, false, delay)?;

        delay.delay_us(100);

        self.bus.write(0x0E, false, delay)?;

        delay.delay_us(100);

        // Clear the display.
        self.bus.write(0x01, false, delay)?;

        delay.delay_us(100);

        // Set the entry mode.
        let entry_byte = self.entry_mode.as_byte();
        self.bus.write(entry_byte, false, delay)?;

        delay.delay_us(100);

        // Move the cursor to the beginning of the first line.
        self.bus.write(0x80, false, delay)?;

        delay.delay_us(100);

        proof {
            assert(self.sent() =~= old(self).sent() + spec_init_commands_4bit(
                old(self).current_entry_mode().spec_as_byte(),
            ));
            assert(self.channel_history() =~= old(self).channel_history() + spec_init_payloads(
                old(self).device_address(),
                old(self).current_entry_mode().spec_as_byte(),
            ));
            assert(delay.history() =~= old(delay).history() + spec_init_delays_4bit(
                old(self).bus_delays(),
            ));
        }

        Ok(())
    }

    /// Builds the I2C expander transport from an exclusive channel
    /// and the device's 7-bit address, sets the default modes, and
    /// runs the 4-bit initialization sequence. A controller exists
    /// exactly when the whole sequence succeeded.
    pub fn new_i2c<D: Delay>(i2c_bus: I2C, address: u8, delay: &mut D) -> (r: Result<
        LCD1602<I2CBus<I2C>>,
        Error,
    >)
        ensures
            r matches Ok(hd) ==> {
                &&& hd.sent() == spec_init_commands_4bit(EntryMode::spec_default().spec_as_byte())
                &&& hd.current_entry_mode() == EntryMode::spec_default()
                &&& hd.current_display_mode() == DisplayMode::spec_default()
                &&& hd.device_address() == address
                &&& hd.channel_history() == i2c_bus.history() + spec_init_payloads(
                    address,
                    EntryMode::spec_default().spec_as_byte(),
                )
                &&& final(delay).history() == old(delay).history() + spec_init_delays_4bit(
                    seq![2000int, 2000int],
                )
            },
    {
        let mut hd = LCD1602 {
            bus: I2CBus::new(i2c_bus, address),
            entry_mode: EntryMode::default(),
            display_mode: DisplayMode::default(),
        };

        hd.init_4bit_i2c(delay)?;

        proof {
            assert(hd.sent() =~= spec_init_commands_4bit(EntryMode::spec_default().spec_as_byte()));
            assert(hd.channel_history() =~= i2c_bus.history() + spec_init_payloads(
                address,
                EntryMode::spec_default().spec_as_byte(),
            ));
        }

        Ok(hd)
    }
}

} // verus!


