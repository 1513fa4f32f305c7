//! The 4-bit parallel transport: presents the upper nibble of each
//! byte on four shared data lines, pulses enable, then presents the
//! lower nibble and pulses enable again. Register-select is asserted
//! once at the start and released at the end of a data write; it does
//! not toggle between the two nibble pulses.

use vstd::prelude::*;

use crate::data_bus::DataBus;
use crate::error::Error;
use crate::hal::{Delay, OutputPin};

verus! {

/// True when the data line selected by `mask` carries a one for
/// `byte`.
pub open spec fn line_level(byte: u8, mask: u8) -> bool {
    byte & mask != 0
}

/// A 4-bit parallel bus: a register-select pin, an enable pin, and
/// four data lines carrying one nibble at a time.
pub struct FourBitBus<
    RS: OutputPin,
    EN: OutputPin,
    D4: OutputPin,
    D5: OutputPin,
    D6: OutputPin,
    D7: OutputPin,
> {
    rs: RS,
    en: EN,
    d4: D4,
    d5: D5,
    d6: D6,
    d7: D7,
    log: Ghost<Seq<(u8, bool)>>,
}

impl<
    RS: OutputPin,
    EN: OutputPin,
    D4: OutputPin,
    D5: OutputPin,
    D6: OutputPin,
    D7: OutputPin,
> FourBitBus<RS, EN, D4, D5, D6, D7> {
    /// The levels the register-select pin has been driven to.
    pub closed spec fn rs_history(&self) -> Seq<bool> {
        self.rs.history()
    }

    /// The levels the enable pin has been driven to.
    pub closed spec fn en_history(&self) -> Seq<bool> {
        self.en.history()
    }

    /// The levels data line 4 has been driven to.
    pub closed spec fn d4_history(&self) -> Seq<bool> {
        self.d4.history()
    }

    /// The levels data line 5 has been driven to.
    pub closed spec fn d5_history(&self) -> Seq<bool> {
        self.d5.history()
    }

    /// The levels data line 6 has been driven to.
    pub closed spec fn d6_history(&self) -> Seq<bool> {
        self.d6.history()
    }

    /// The levels data line 7 has been driven to.
    pub closed spec fn d7_history(&self) -> Seq<bool> {
        self.d7.history()
    }

    /// Takes exclusive ownership of the six pins and makes a bus that
    /// has delivered nothing yet.
    pub fn from_pins(rs: RS, en: EN, d4: D4, d5: D5, d6: D6, d7: D7) -> (r: FourBitBus<
        RS,
        EN,
        D4,
        D5,
        D6,
        D7,
    >)
        ensures
            r.sent() == Seq::<(u8, bool)>::empty(),
            r.rs_history() == rs.history(),
            r.en_history() == en.history(),
            r.d4_history() == d4.history(),
            r.d5_history() == d5.history(),
            r.d6_history() == d6.history(),
            r.d7_history() == d7.history(),
    {
        FourBitBus { rs, en, d4, d5, d6, d7, log: Ghost(Seq::empty()) }
    }

    /// Hands the six pins back, consuming the bus.
    pub fn release(self) -> (r: (RS, EN, D4, D5, D6, D7))
        ensures
            r.0.history() == self.rs_history(),
            r.1.history() == self.en_history(),
            r.2.history() == self.d4_history(),
            r.3.history() == self.d5_history(),
            r.4.history() == self.d6_history(),
            r.5.history() == self.d7_history(),
    {
        (self.rs, self.en, self.d4, self.d5, self.d6, self.d7)
    }

    /// Presents bits 4 to 7 of `data` on the four data lines.
    fn write_upper_nibble(&mut self, data: u8) -> (r: Result<(), Error>)
        ensures
            final(self).rs_history() == old(self).rs_history(),
            final(self).en_history() == old(self).en_history(),
            final(self).sent() == old(self).sent(),
            r is Ok ==> final(self).d4_history() == old(self).d4_history().push(
                line_level(data, 0b0001_0000),
            ),
            r is Ok ==> final(self).d5_history() == old(self).d5_history().push(
                line_level(data, 0b0010_0000),
            ),
            r is Ok ==> final(self).d6_history() == old(self).d6_history().push(
                line_level(data, 0b0100_0000),
            ),
            r is Ok ==> final(self).d7_history() == old(self).d7_history().push(
                line_level(data, 0b1000_0000),
            ),
            r is Err ==> {
                &&& (final(self).d4_history() == old(self).d4_history() || final(self).d4_history() == old(self).d4_history().push(line_level(data, 0b0001_0000)))
                &&& (final(self).d5_history() == old(self).d5_history() || final(self).d5_history() == old(self).d5_history().push(line_level(data, 0b0010_0000)))
                &&& (final(self).d6_history() == old(self).d6_history() || final(self).d6_history() == old(self).d6_history().push(line_level(data, 0b0100_0000)))
                &&& (final(self).d7_history() == old(self).d7_history() || final(self).d7_history() == old(self).d7_history().push(line_level(data, 0b1000_0000)))
                &&& (final(self).d5_history() != old(self).d5_history() ==> final(self).d4_history() == old(self).d4_history().push(line_level(data, 0b0001_0000)))
                &&& (final(self).d6_history() != old(self).d6_history() ==> final(self).d5_history() == old(self).d5_history().push(line_level(data, 0b0010_0000)))
                &&& (final(self).d7_history() != old(self).d7_history() ==> final(self).d6_history() == old(self).d6_history().push(line_level(data, 0b0100_0000)))
            },
    {
        let db4: bool = (data & 0b0001_0000) != 0;
        let db5: bool = (data & 0b0010_0000) != 0;
        let db6: bool = (data & 0b0100_0000) != 0;
        let db7: bool = (data & 0b1000_0000) != 0;

        if db4 {
            self.d4.set_high()?;
        } else {
            self.d4.set_low()?;
        }

        if db5 {
            self.d5.set_high()?;
        } else {
            self.d5.set_low()?;
        }

        if db6 {
            self.d6.set_high()?;
        } else {
            self.d6.set_low()?;
        }

        if db7 {
            self.d7.set_high()?;
        } else {
            self.d7.set_low()?;
        }

        Ok(())
    }

    /// Presents bits 0 to 3 of `data` on the four data lines.
    fn write_lower_nibble(&mut self, data: u8) -> (r: Result<(), Error>)
        ensures
            final(self).rs_history() == old(self).rs_history(),
            final(self).en_history() == old(self).en_history(),
            final(self).sent() == old(self).sent(),
            r is Ok ==> final(self).d4_history() == old(self).d4_history().push(
                line_level(data, 0b0000_0001),
            ),
            r is Ok ==> final(self).d5_history() == old(self).d5_history().push(
                line_level(data, 0b0000_0010),
            ),
            r is Ok ==> final(self).d6_history() == old(self).d6_history().push(
                line_level(data, 0b0000_0100),
            ),
            r is Ok ==> final(self).d7_history() == old(self).d7_history().push(
                line_level(data, 0b0000_1000),
            ),
            r is Err ==> {
                &&& (final(self).d4_history() == old(self).d4_history() || final(self).d4_history() == old(self).d4_history().push(line_level(data, 0b0000_0001)))
                &&& (final(self).d5_history() == old(self).d5_history() || final(self).d5_history() == old(self).d5_history().push(line_level(data, 0b0000_0010)))
                &&& (final(self).d6_history() == old(self).d6_history() || final(self).d6_history() == old(self).d6_history().push(line_level(data, 0b0000_0100)))
                &&& (final(self).d7_history() == old(self).d7_history() || final(self).d7_history() == old(self).d7_history().push(line_level(data, 0b0000_1000)))
                &&& (final(self).d5_history() != old(self).d5_history() ==> final(self).d4_history() == old(self).d4_history().push(line_level(data, 0b0000_0001)))
                &&& (final(self).d6_history() != old(self).d6_history() ==> final(self).d5_history() == old(self).d5_history().push(line_level(data, 0b0000_0010)))
                &&& (final(self).d7_history() != old(self).d7_history() ==> final(self).d6_history() == old(self).d6_history().push(line_level(data, 0b0000_0100)))
            },
    {
        let db0: bool = (data & 0b0000_0001) != 0;
        let db1: bool = (data & 0b0000_0010) != 0;
        let db2: bool = (data & 0b0000_0100) != 0;
        let db3: bool = (data & 0b0000_1000) != 0;

        if db0 {
            self.d4.set_high()?;
        } else {
            self.d4.set_low()?;
        }

        if db1 {
            self.d5.set_high()?;
        } else {
            self.d5.set_low()?;
        }

        if db2 {
            self.d6.set_high()?;
        } else {
            self.d6.set_low()?;
        }

        if db3 {
            self.d7.set_high()?;
        } else {
            self.d7.set_low()?;
        }

        Ok(())
    }
}

impl<
    RS: OutputPin,
    EN: OutputPin,
    D4: OutputPin,
    D5: OutputPin,
    D6: OutputPin,
    D7: OutputPin,
> DataBus for FourBitBus<RS, EN, D4, D5, D6, D7> {
    closed spec fn sent(&self) -> Seq<(u8, bool)> {
        self.log@
    }

    open spec fn write_delays(&self) -> Seq<int> {
        seq![2000, 2000]
    }

    /// On success the waveform is exact: register-select was driven
    /// to the tag level first (and back low at the end of a data
    /// write), the enable pin was pulsed twice, and the four data
    /// lines carried the upper nibble for the first pulse and the
    /// lower nibble for the second. On failure the enable pin has
    /// only ever advanced through a prefix of those two pulses, and
    /// if register-select was never driven (the first pin operation
    /// failed), then no other pin was touched either; in particular
    /// enable was never asserted.
    fn write<D: Delay>(&mut self, byte: u8, data: bool, delay: &mut D) -> (r: Result<(), Error>)
        ensures
            r is Ok ==> final(self).rs_history() == old(self).rs_history() + (if data {
                seq![true, false]
            } else {
                seq![false]
            }),
            r is Ok ==> final(self).en_history() == old(self).en_history() + seq![
                true,
                false,
                true,
                false,
            ],
            r is Ok ==> final(self).d4_history() == old(self).d4_history() + seq![
                line_level(byte, 0b0001_0000),
                line_level(byte, 0b0000_0001),
            ],
            r is Ok ==> final(self).d5_history() == old(self).d5_history() + seq![
                line_level(byte, 0b0010_0000),
                line_level(byte, 0b0000_0010),
            ],
            r is Ok ==> final(self).d6_history() == old(self).d6_history() + seq![
                line_level(byte, 0b0100_0000),
                line_level(byte, 0b0000_0100),
            ],
            r is Ok ==> final(self).d7_history() == old(self).d7_history() + seq![
                line_level(byte, 0b1000_0000),
                line_level(byte, 0b0000_1000),
            ],
            r is Err ==> {
                ||| final(self).en_history() == old(self).en_history()
                ||| final(self).en_history() == old(self).en_history().push(true)
                ||| final(self).en_history() == old(self).en_history().push(true).push(false)
                ||| final(self).en_history() == old(self).en_history().push(true).push(
                    false,
                ).push(true)
                ||| final(self).en_history() == old(self).en_history().push(true).push(
                    false,
                ).push(true).push(false)
            },
            r is Err ==> {
                &&& (final(self).d4_history() == old(self).d4_history() || final(self).d4_history() == old(self).d4_history().push(line_level(byte, 0b0001_0000))
                    || final(self).d4_history() == old(self).d4_history().push(
                    line_level(byte, 0b0001_0000),
                ).push(line_level(byte, 0b0000_0001)))
                &&& (final(self).d5_history() == old(self).d5_history() || final(self).d5_history() == old(self).d5_history().push(line_level(byte, 0b0010_0000))
                    || final(self).d5_history() == old(self).d5_history().push(
                    line_level(byte, 0b0010_0000),
                ).push(line_level(byte, 0b0000_0010)))
                &&& (final(self).d6_history() == old(self).d6_history() || final(self).d6_history() == old(self).d6_history().push(line_level(byte, 0b0100_0000))
                    || final(self).d6_history() == old(self).d6_history().push(
                    line_level(byte, 0b0100_0000),
                ).push(line_level(byte, 0b0000_0100)))
                &&& (final(self).d7_history() == old(self).d7_history() || final(self).d7_history() == old(self).d7_history().push(line_level(byte, 0b1000_0000))
                    || final(self).d7_history() == old(self).d7_history().push(
                    line_level(byte, 0b1000_0000),
                ).push(line_level(byte, 0b0000_1000)))
            },
            r is Err && final(self).rs_history() == old(self).rs_history() ==> {
                &&& final(self).en_history() == old(self).en_history()
                &&& final(self).d4_history() == old(self).d4_history()
                &&& final(self).d5_history() == old(self).d5_history()
                &&& final(self).d6_history() == old(self).d6_history()
                &&& final(self).d7_history() == old(self).d7_history()
                &&& final(delay).history() == old(delay).history()
            },
    {
        if data {
            self.rs.set_high()?;
        } else {
            self.rs.set_low()?;
        }

        proof {
            assert(self.rs_history().len() == old(self).rs_history().len() + 1);
            assert(self.rs_history() != old(self).rs_history());
        }

        self.write_upper_nibble(byte)?;

        // Pulse the enable pin so the controller latches the upper
        // nibble.
        self.en.set_high()?;
        delay.delay_ms(2u32);
        self.en.set_low()?;

        self.write_lower_nibble(byte)?;

        // Pulse the enable pin so the controller latches the lower
        // nibble.
        self.en.set_high()?;
        delay.delay_ms(2u32);
        self.en.set_low()?;

        if data {
            self.rs.set_low()?;
        }

        self.log = Ghost(self.log@.push((byte, data)));

        proof {
            assert(self.rs_history() =~= old(self).rs_history() + (if data {
                seq![true, false]
            } else {
                seq![false]
            }));
            assert(self.en_history() =~= old(self).en_history() + seq![true, false, true, false]);
            assert(self.d4_history() =~= old(self).d4_history() + seq![
                line_level(byte, 0b0001_0000),
                line_level(byte, 0b0000_0001),
            ]);
            assert(self.d5_history() =~= old(self).d5_history() + seq![
                line_level(byte, 0b0010_0000),
                line_level(byte, 0b0000_0010),
            ]);
            assert(self.d6_history() =~= old(self).d6_history() + seq![
                line_level(byte, 0b0100_0000),
                line_level(byte, 0b0000_0100),
            ]);
            assert(self.d7_history() =~= old(self).d7_history() + seq![
                line_level(byte, 0b1000_0000),
                line_level(byte, 0b0000_1000),
            ]);
            assert(delay.history() =~= old(delay).history() + seq![2000int, 2000int]);
        }

        Ok(())
    }
}

} // verus!
