//! The 8-bit parallel transport: presents all eight bits of each
//! byte on eight dedicated data lines in a single cycle and pulses
//! enable once.

use vstd::prelude::*;

use crate::data_bus::DataBus;
use crate::error::Error;
use crate::fourbit_bus::line_level;
use crate::hal::{Delay, OutputPin};

verus! {

/// An 8-bit parallel bus: a register-select pin, an enable pin, and
/// eight data lines carrying a whole byte at once.
pub struct EightBitBus<
    RS: OutputPin,
    EN: OutputPin,
    D0: OutputPin,
    D1: OutputPin,
    D2: OutputPin,
    D3: OutputPin,
    D4: OutputPin,
    D5: OutputPin,
    D6: OutputPin,
    D7: OutputPin,
> {
    rs: RS,
    en: EN,
    d0: D0,
    d1: D1,
    d2: D2,
    d3: D3,
    d4: D4,
    d5: D5,
    d6: D6,
    d7: D7,
    log: Ghost<Seq<(u8, bool)>>,
}

impl<
    RS: OutputPin,
    EN: OutputPin,
    D0: OutputPin,
    D1: OutputPin,
    D2: OutputPin,
    D3: OutputPin,
    D4: OutputPin,
    D5: OutputPin,
    D6: OutputPin,
    D7: OutputPin,
> EightBitBus<RS, EN, D0, D1, D2, D3, D4, D5, D6, D7> {
    /// The levels the register-select pin has been driven to.
    pub closed spec fn rs_history(&self) -> Seq<bool> {
        self.rs.history()
    }

    /// The levels the enable pin has been driven to.
    pub closed spec fn en_history(&self) -> Seq<bool> {
        self.en.history()
    }

    /// The levels data line 0 has been driven to.
    pub closed spec fn d0_history(&self) -> Seq<bool> {
        self.d0.history()
    }

    /// The levels data line 1 has been driven to.
    pub closed spec fn d1_history(&self) -> Seq<bool> {
        self.d1.history()
    }

    /// The levels data line 2 has been driven to.
    pub closed spec fn d2_history(&self) -> Seq<bool> {
        self.d2.history()
    }

    /// The levels data line 3 has been driven to.
    pub closed spec fn d3_history(&self) -> Seq<bool> {
        self.d3.history()
    }

    /// The levels data line 4 has been driven to.
    pub closed spec fn d4_history(&self) -> Seq<bool> {
        self.d4.history()
    }

    /// The levels data line 5 has been driven to.
    pub closed spec fn d5_history(&self) -> Seq<bool> {
        self.d5.history()
    }

    /// The levels data line 6 has been driven to.
    pub closed spec fn d6_history(&self) -> Seq<bool> {
        self.d6.history()
    }

    /// The levels data line 7 has been driven to.
    pub closed spec fn d7_history(&self) -> Seq<bool> {
        self.d7.history()
    }

    /// The levels each of the eight data lines has been driven to,
    /// line 0 first.
    pub closed spec fn data_histories(&self) -> Seq<Seq<bool>> {
        seq![
            self.d0.history(),
            self.d1.history(),
            self.d2.history(),
            self.d3.history(),
            self.d4.history(),
            self.d5.history(),
            self.d6.history(),
            self.d7.history(),
        ]
    }

    /// Takes exclusive ownership of the ten pins and makes a bus that
    /// has delivered nothing yet.
    pub fn from_pins(
        rs: RS,
        en: EN,
        d0: D0,
        d1: D1,
        d2: D2,
        d3: D3,
        d4: D4,
        d5: D5,
        d6: D6,
        d7: D7,
    ) -> (r: EightBitBus<RS, EN, D0, D1, D2, D3, D4, D5, D6, D7>)
        ensures
            r.sent() == Seq::<(u8, bool)>::empty(),
            r.rs_history() == rs.history(),
            r.en_history() == en.history(),
            r.data_histories() == seq![
                d0.history(),
                d1.history(),
                d2.history(),
                d3.history(),
                d4.history(),
                d5.history(),
                d6.history(),
                d7.history(),
            ],
    {
        EightBitBus { rs, en, d0, d1, d2, d3, d4, d5, d6, d7, log: Ghost(Seq::empty()) }
    }

    /// Hands the ten pins back, consuming the bus.
    pub fn release(self) -> (r: (RS, EN, D0, D1, D2, D3, D4, D5, D6, D7))
        ensures
            r.0.history() == self.rs_history(),
            r.1.history() == self.en_history(),
            seq![
                r.2.history(),
                r.3.history(),
                r.4.history(),
                r.5.history(),
                r.6.history(),
                r.7.history(),
                r.8.history(),
                r.9.history(),
            ] == self.data_histories(),
    {
        (self.rs, self.en, self.d0, self.d1, self.d2, self.d3, self.d4, self.d5, self.d6, self.d7)
    }

    /// Presents all eight bits of `data` on the eight data lines.
    fn set_bus_bits(&mut self, data: u8) -> (r: Result<(), Error>)
        ensures
            final(self).rs_history() == old(self).rs_history(),
            final(self).en_history() == old(self).en_history(),
            final(self).sent() == old(self).sent(),
            r is Ok ==> final(self).data_histories() == Seq::new(8, |i: int| old(
                self,
            ).data_histories()[i].push(line_level(data, 1u8 << (i as u8)))),
            r is Ok ==> {
                &&& final(self).d0_history() == old(self).d0_history().push(line_level(data, 0b0000_0001))
                &&& final(self).d1_history() == old(self).d1_history().push(line_level(data, 0b0000_0010))
                &&& final(self).d2_history() == old(self).d2_history().push(line_level(data, 0b0000_0100))
                &&& final(self).d3_history() == old(self).d3_history().push(line_level(data, 0b0000_1000))
                &&& final(self).d4_history() == old(self).d4_history().push(line_level(data, 0b0001_0000))
                &&& final(self).d5_history() == old(self).d5_history().push(line_level(data, 0b0010_0000))
                &&& final(self).d6_history() == old(self).d6_history().push(line_level(data, 0b0100_0000))
                &&& final(self).d7_history() == old(self).d7_history().push(line_level(data, 0b1000_0000))
            },
            r is Err ==> {
                &&& (final(self).d0_history() == old(self).d0_history() || final(self).d0_history()
                    == old(self).d0_history().push(line_level(data, 0b0000_0001)))
                &&& (final(self).d1_history() == old(self).d1_history() || final(self).d1_history()
                    == old(self).d1_history().push(line_level(data, 0b0000_0010)))
                &&& (final(self).d2_history() == old(self).d2_history() || final(self).d2_history()
                    == old(self).d2_history().push(line_level(data, 0b0000_0100)))
                &&& (final(self).d3_history() == old(self).d3_history() || final(self).d3_history()
                    == old(self).d3_history().push(line_level(data, 0b0000_1000)))
                &&& (final(self).d4_history() == old(self).d4_history() || final(self).d4_history()
                    == old(self).d4_history().push(line_level(data, 0b0001_0000)))
                &&& (final(self).d5_history() == old(self).d5_history() || final(self).d5_history()
                    == old(self).d5_history().push(line_level(data, 0b0010_0000)))
                &&& (final(self).d6_history() == old(self).d6_history() || final(self).d6_history()
                    == old(self).d6_history().push(line_level(data, 0b0100_0000)))
                &&& (final(self).d7_history() == old(self).d7_history() || final(self).d7_history()
                    == old(self).d7_history().push(line_level(data, 0b1000_0000)))
                &&& (final(self).d1_history() != old(self).d1_history() ==> final(self).d0_history()
                    == old(self).d0_history().push(line_level(data, 0b0000_0001)))
                &&& (final(self).d2_history() != old(self).d2_history() ==> final(self).d1_history()
                    == old(self).d1_history().push(line_level(data, 0b0000_0010)))
                &&& (final(self).d3_history() != old(self).d3_history() ==> final(self).d2_history()
                    == old(self).d2_history().push(line_level(data, 0b0000_0100)))
                &&& (final(self).d4_history() != old(self).d4_history() ==> final(self).d3_history()
                    == old(self).d3_history().push(line_level(data, 0b0000_1000)))
                &&& (final(self).d5_history() != old(self).d5_history() ==> final(self).d4_history()
                    == old(self).d4_history().push(line_level(data, 0b0001_0000)))
                &&& (final(self).d6_history() != old(self).d6_history() ==> final(self).d5_history()
                    == old(self).d5_history().push(line_level(data, 0b0010_0000)))
                &&& (final(self).d7_history() != old(self).d7_history() ==> final(self).d6_history()
                    == old(self).d6_history().push(line_level(data, 0b0100_0000)))
            },
    {
        let db0: bool = (data & 0b0000_0001) != 0;
        let db1: bool = (data & 0b0000_0010) != 0;
        let db2: bool = (data & 0b0000_0100) != 0;
        let db3: bool = (data & 0b0000_1000) != 0;
        let db4: bool = (data & 0b0001_0000) != 0;
        let db5: bool = (data & 0b0010_0000) != 0;
        let db6: bool = (data & 0b0100_0000) != 0;
        let db7: bool = (data & 0b1000_0000) != 0;

        proof {
            assert(1u8 << 0u8 == 0b0000_0001 && 1u8 << 1u8 == 0b0000_0010 && 1u8 << 2u8
                == 0b0000_0100 && 1u8 << 3u8 == 0b0000_1000 && 1u8 << 4u8 == 0b0001_0000 && 1u8
                << 5u8 == 0b0010_0000 && 1u8 << 6u8 == 0b0100_0000 && 1u8 << 7u8 == 0b1000_0000)
                by (bit_vector);
        }

        if db0 {
            self.d0.set_high()?;
        } else {
            self.d0.set_low()?;
        }

        if db1 {
            self.d1.set_high()?;
        } else {
            self.d1.set_low()?;
        }

        if db2 {
            self.d2.set_high()?;
        } else {
            self.d2.set_low()?;
        }

        if db3 {
            self.d3.set_high()?;
        } else {
            self.d3.set_low()?;
        }

        if db4 {
            self.d4.set_high()?;
        } else {
            self.d4.set_low()?;
        }

        if db5 {
            self.d5.set_high()?;
        } else {
            self.d5.set_low()?;
        }

        if db6 {
            self.d6.set_high()?;
        } else {
            self.d6.set_low()?;
        }

        if db7 {
            self.d7.set_high()?;
        } else {
            self.d7.set_low()?;
        }

        proof {
            assert(self.data_histories() =~= Seq::new(8, |i: int| old(
                self,
            ).data_histories()[i].push(line_level(data, 1u8 << (i as u8)))));
        }

        Ok(())
    }
}

impl<
    RS: OutputPin,
    EN: OutputPin,
    D0: OutputPin,
    D1: OutputPin,
    D2: OutputPin,
    D3: OutputPin,
    D4: OutputPin,
    D5: OutputPin,
    D6: OutputPin,
    D7: OutputPin,
> DataBus for EightBitBus<RS, EN, D0, D1, D2, D3, D4, D5, D6, D7> {
    closed spec fn sent(&self) -> Seq<(u8, bool)> {
        self.log@
    }

    open spec fn write_delays(&self) -> Seq<int> {
        seq![2000]
    }

    /// On success the waveform is exact: register-select was driven
    /// to the tag level first (and back low at the end of a data
    /// write), each data line was driven to its bit of the byte, and
    /// the enable pin was pulsed exactly once. On failure the enable
    /// pin has only ever advanced through a prefix of that pulse,
    /// and if register-select was never driven (the first pin
    /// operation failed), then no other pin was touched either; in
    /// particular enable was never asserted.
    fn write<D: Delay>(&mut self, byte: u8, data: bool, delay: &mut D) -> (r: Result<(), Error>)
        ensures
            r is Ok ==> final(self).rs_history() == old(self).rs_history() + (if data {
                seq![true, false]
            } else {
                seq![false]
            }),
            r is Ok ==> final(self).en_history() == old(self).en_history() + seq![true, false],
            r is Ok ==> final(self).data_histories() == Seq::new(8, |i: int| old(
                self,
            ).data_histories()[i].push(line_level(byte, 1u8 << (i as u8)))),
            r is Err ==> {
                ||| final(self).en_history() == old(self).en_history()
                ||| final(self).en_history() == old(self).en_history().push(true)
                ||| final(self).en_history() == old(self).en_history().push(true).push(false)
            },
            r is Err ==> {
                &&& (final(self).d0_history() == old(self).d0_history() || final(self).d0_history()
                    == old(self).d0_history().push(line_level(byte, 0b0000_0001)))
                &&& (final(self).d1_history() == old(self).d1_history() || final(self).d1_history()
                    == old(self).d1_history().push(line_level(byte, 0b0000_0010)))
                &&& (final(self).d2_history() == old(self).d2_history() || final(self).d2_history()
                    == old(self).d2_history().push(line_level(byte, 0b0000_0100)))
                &&& (final(self).d3_history() == old(self).d3_history() || final(self).d3_history()
                    == old(self).d3_history().push(line_level(byte, 0b0000_1000)))
                &&& (final(self).d4_history() == old(self).d4_history() || final(self).d4_history()
                    == old(self).d4_history().push(line_level(byte, 0b0001_0000)))
                &&& (final(self).d5_history() == old(self).d5_history() || final(self).d5_history()
                    == old(self).d5_history().push(line_level(byte, 0b0010_0000)))
                &&& (final(self).d6_history() == old(self).d6_history() || final(self).d6_history()
                    == old(self).d6_history().push(line_level(byte, 0b0100_0000)))
                &&& (final(self).d7_history() == old(self).d7_history() || final(self).d7_history()
                    == old(self).d7_history().push(line_level(byte, 0b1000_0000)))
            },
            r is Err && final(self).rs_history() == old(self).rs_history() ==> {
                &&& final(self).en_history() == old(self).en_history()
                &&& final(self).data_histories() == old(self).data_histories()
                &&& final(delay).history() == old(delay).history()
            },
    {
        if data {
            self.rs.set_high()?;
        } else {
            self.rs.set_low()?;
        }

        proof {
            assert(self.rs_history().len() == old(self).rs_history().len() + 1);
            assert(self.rs_history() != old(self).rs_history());
        }

        self.set_bus_bits(byte)?;

        // Pulse the enable pin so the controller latches the byte.
        self.en.set_high()?;
        delay.delay_ms(2u32);
        self.en.set_low()?;

        if data {
            self.rs.set_low()?;
        }

        self.log = Ghost(self.log@.push((byte, data)));

        proof {
            assert(self.rs_history() =~= old(self).rs_history() + (if data {
                seq![true, false]
            } else {
                seq![false]
            }));
            assert(self.en_history() =~= old(self).en_history() + seq![true, false]);
            assert(delay.history() =~= old(delay).history() + seq![2000int]);
        }

        Ok(())
    }
}

} // verus!
