//! The I2C port-expander transport: wraps the 4-bit protocol, but
//! each nibble together with the control bits travels as one I2C
//! payload byte to a fixed 7-bit device address, and the enable
//! strobe is toggled inside the payload rather than on a discrete
//! pin.
//!
//! Payload layout (the common expander wiring): the data nibble sits
//! in bits 4 to 7, bit 2 is the enable strobe, and bit 0 is
//! register-select.

use vstd::prelude::*;

use crate::data_bus::DataBus;
use crate::error::Error;
use crate::hal::{Delay, I2cWrite};

verus! {

/// The enable strobe bit of an expander payload byte.
pub open spec fn spec_enable_bit() -> u8 {
    0b0000_0100
}

/// One expander payload byte: the data nibble already shifted into
/// bits 4 to 7, with register-select in bit 0 when `data` holds.
pub open spec fn spec_payload(nibble_bits: u8, data: bool) -> u8 {
    nibble_bits | (if data { 0b0000_0001u8 } else { 0u8 })
}

/// The four payload bytes one write of `byte` produces, in order:
/// upper nibble with enable asserted, upper nibble released, lower
/// nibble with enable asserted, lower nibble released, each paired
/// with the device address it goes to.
pub open spec fn spec_payload_seq(address: u8, byte: u8, data: bool) -> Seq<(u8, u8)> {
    let upper = spec_payload(byte & 0b1111_0000, data);
    let lower = spec_payload((byte & 0b0000_1111) << 4u8, data);
    seq![
        (address, upper | spec_enable_bit()),
        (address, upper),
        (address, lower | spec_enable_bit()),
        (address, lower),
    ]
}

/// A 4-bit bus behind an I2C port expander at a fixed 7-bit device
/// address.
pub struct I2CBus<I2C: I2cWrite> {
    i2c: I2C,
    address: u8,
    log: Ghost<Seq<(u8, bool)>>,
}

impl<I2C: I2cWrite> I2CBus<I2C> {
    /// The bytes the underlying channel has transmitted, each with
    /// its device address.
    pub closed spec fn channel_history(&self) -> Seq<(u8, u8)> {
        self.i2c.history()
    }

    /// The fixed device address this bus writes to.
    pub closed spec fn spec_address(&self) -> u8 {
        self.address
    }

    /// Takes exclusive ownership of the channel and makes a bus that
    /// has delivered nothing yet.
    pub fn new(i2c: I2C, address: u8) -> (r: I2CBus<I2C>)
        ensures
            r.sent() == Seq::<(u8, bool)>::empty(),
            r.channel_history() == i2c.history(),
            r.spec_address() == address,
    {
        I2CBus { i2c, address, log: Ghost(Seq::empty()) }
    }

    /// Hands the channel back, consuming the bus.
    pub fn release(self) -> (r: I2C)
        ensures
            r.history() == self.channel_history(),
    {
        self.i2c
    }
}

impl<I2C: I2cWrite> DataBus for I2CBus<I2C> {
    closed spec fn sent(&self) -> Seq<(u8, bool)> {
        self.log@
    }

    open spec fn write_delays(&self) -> Seq<int> {
        seq![2000, 2000]
    }

    /// On success exactly the four payload bytes of
    /// `spec_payload_seq` went over the channel, in order: each
    /// nibble once with the enable bit set and once with it cleared,
    /// with the settle wait between the two. On failure the channel
    /// carried some proper prefix of those payloads; in particular,
    /// if the first channel operation failed, nothing was
    /// transmitted and enable was never asserted.
    fn write<D: Delay>(&mut self, byte: u8, data: bool, delay: &mut D) -> (r: Result<(), Error>)
        ensures
            final(self).spec_address() == old(self).spec_address(),
            r is Ok ==> final(self).channel_history() == old(self).channel_history()
                + spec_payload_seq(old(self).spec_address(), byte, data),
            r is Err ==> exists|k: int|
                0 <= k < 4 && final(self).channel_history() == old(self).channel_history()
                    + spec_payload_seq(old(self).spec_address(), byte, data).take(k),
    {
        let upper: u8 = (byte & 0b1111_0000) | (if data { 0b0000_0001u8 } else { 0u8 });
        let lower: u8 = ((byte & 0b0000_1111) << 4u8) | (if data { 0b0000_0001u8 } else { 0u8 });

        let ghost payloads = spec_payload_seq(self.address, byte, data);
        let ghost pre = self.i2c.history();

        // Present the upper nibble and strobe enable inside the
        // payload.
        if let Err(e) = self.i2c.write(self.address, upper | 0b0000_0100) {
            proof {
                assert(self.channel_history() =~= pre + payloads.take(0));
            }
            return Err(e);
        }
        delay.delay_ms(2u32);
        if let Err(e) = self.i2c.write(self.address, upper) {
            proof {
                assert(self.channel_history() =~= pre + payloads.take(1));
            }
            return Err(e);
        }

        // Present the lower nibble and strobe enable again.
        if let Err(e) = self.i2c.write(self.address, lower | 0b0000_0100) {
            proof {
                assert(self.channel_history() =~= pre + payloads.take(2));
            }
            return Err(e);
        }
        delay.delay_ms(2u32);
        if let Err(e) = self.i2c.write(self.address, lower) {
            proof {
                assert(self.channel_history() =~= pre + payloads.take(3));
            }
            return Err(e);
        }

        self.log = Ghost(self.log@.push((byte, data)));

        proof {
            assert(self.channel_history() =~= pre + payloads);
            assert(delay.history() =~= old(delay).history() + seq![2000int, 2000int]);
        }

        Ok(())
    }
}

} // verus!
