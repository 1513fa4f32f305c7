//! A closed choice between the two parallel transports, made once at
//! construction: callers pick the bus width without the display
//! controller needing two code paths.

use vstd::prelude::*;

use crate::data_bus::DataBus;
use crate::eightbit_bus::EightBitBus;
use crate::error::Error;
use crate::fourbit_bus::{line_level, FourBitBus};
use crate::hal::{Delay, OutputPin};

verus! {

/// Either a 4-bit or an 8-bit parallel bus, chosen at construction.
pub enum BusWidth<
    RS: OutputPin,
    EN: OutputPin,
    D0: OutputPin,
    D1: OutputPin,
    D2: OutputPin,
    D3: OutputPin,
    D4: OutputPin,
    D5: OutputPin,
    D6: OutputPin,
    D7: OutputPin,
> {
    /// The 4-bit parallel configuration.
    FourBitBus(FourBitBus<RS, EN, D4, D5, D6, D7>),
    /// The 8-bit parallel configuration.
    EightBitBus(EightBitBus<RS, EN, D0, D1, D2, D3, D4, D5, D6, D7>),
}

impl<
    RS: OutputPin,
    EN: OutputPin,
    D0: OutputPin,
    D1: OutputPin,
    D2: OutputPin,
    D3: OutputPin,
    D4: OutputPin,
    D5: OutputPin,
    D6: OutputPin,
    D7: OutputPin,
> BusWidth<RS, EN, D0, D1, D2, D3, D4, D5, D6, D7> {
    /// The levels the register-select pin has been driven to,
    /// whichever configuration was chosen.
    pub open spec fn rs_history(&self) -> Seq<bool> {
        match self {
            BusWidth::FourBitBus(bus) => bus.rs_history(),
            BusWidth::EightBitBus(bus) => bus.rs_history(),
        }
    }

    /// The levels the enable pin has been driven to.
    pub open spec fn en_history(&self) -> Seq<bool> {
        match self {
            BusWidth::FourBitBus(bus) => bus.en_history(),
            BusWidth::EightBitBus(bus) => bus.en_history(),
        }
    }

    /// The levels of each data line, lowest line first: four lines
    /// in the 4-bit configuration, eight in the 8-bit one.
    pub open spec fn data_line_histories(&self) -> Seq<Seq<bool>> {
        match self {
            BusWidth::FourBitBus(bus) => seq![
                bus.d4_history(),
                bus.d5_history(),
                bus.d6_history(),
                bus.d7_history(),
            ],
            BusWidth::EightBitBus(bus) => bus.data_histories(),
        }
    }

    /// Makes the 4-bit bus configuration from its six pins.
    pub fn new_four_bit(rs: RS, en: EN, d4: D4, d5: D5, d6: D6, d7: D7) -> (r: BusWidth<
        RS,
        EN,
        D0,
        D1,
        D2,
        D3,
        D4,
        D5,
        D6,
        D7,
    >)
        ensures
            r.sent() == Seq::<(u8, bool)>::empty(),
            r is FourBitBus,
            r matches BusWidth::FourBitBus(b) ==> {
                &&& b.rs_history() == rs.history()
                &&& b.en_history() == en.history()
                &&& b.d4_history() == d4.history()
                &&& b.d5_history() == d5.history()
                &&& b.d6_history() == d6.history()
                &&& b.d7_history() == d7.history()
            },
    {
        let four_bit_bus = FourBitBus::from_pins(rs, en, d4, d5, d6, d7);
        BusWidth::FourBitBus(four_bit_bus)
    }

    /// Makes the 8-bit bus configuration from its ten pins.
    pub fn new_eight_bit(
        rs: RS,
        en: EN,
        d0: D0,
        d1: D1,
        d2: D2,
        d3: D3,
        d4: D4,
        d5: D5,
        d6: D6,
        d7: D7,
    ) -> (r: BusWidth<RS, EN, D0, D1, D2, D3, D4, D5, D6, D7>)
        ensures
            r.sent() == Seq::<(u8, bool)>::empty(),
            r is EightBitBus,
            r matches BusWidth::EightBitBus(b) ==> {
                &&& b.rs_history() == rs.history()
                &&& b.en_history() == en.history()
                &&& b.data_histories() == seq![
                    d0.history(),
                    d1.history(),
                    d2.history(),
                    d3.history(),
                    d4.history(),
                    d5.history(),
                    d6.history(),
                    d7.history(),
                ]
            },
    {
        let eight_bit_bus = EightBitBus::from_pins(rs, en, d0, d1, d2, d3, d4, d5, d6, d7);
        BusWidth::EightBitBus(eight_bit_bus)
    }
}

impl<
    RS: OutputPin,
    EN: OutputPin,
    D0: OutputPin,
    D1: OutputPin,
    D2: OutputPin,
    D3: OutputPin,
    D4: OutputPin,
    D5: OutputPin,
    D6: OutputPin,
    D7: OutputPin,
> DataBus for BusWidth<RS, EN, D0, D1, D2, D3, D4, D5, D6, D7> {
    open spec fn sent(&self) -> Seq<(u8, bool)> {
        match self {
            BusWidth::FourBitBus(bus) => bus.sent(),
            BusWidth::EightBitBus(bus) => bus.sent(),
        }
    }

    open spec fn write_delays(&self) -> Seq<int> {
        match self {
            BusWidth::FourBitBus(bus) => bus.write_delays(),
            BusWidth::EightBitBus(bus) => bus.write_delays(),
        }
    }

    /// Dispatches the write to whichever parallel bus was chosen; it
    /// has no behavior of its own beyond that dispatch, and the
    /// waveform clauses of the chosen bus hold here unchanged.
    fn write<D: Delay>(&mut self, byte: u8, data: bool, delay: &mut D) -> (r: Result<(), Error>)
        ensures
            (*final(self)) is FourBitBus <==> (*old(self)) is FourBitBus,
            r is Ok ==> final(self).rs_history() == old(self).rs_history() + (if data {
                seq![true, false]
            } else {
                seq![false]
            }),
            r is Ok && (*old(self)) is FourBitBus ==> final(self).en_history() == old(
                self,
            ).en_history() + seq![true, false, true, false],
            r is Ok && (*old(self)) is EightBitBus ==> final(self).en_history() == old(
                self,
            ).en_history() + seq![true, false],
            r is Ok && (*old(self)) is FourBitBus ==> final(self).data_line_histories() == seq![
                old(self).data_line_histories()[0] + seq![
                    line_level(byte, 0b0001_0000),
                    line_level(byte, 0b0000_0001),
                ],
                old(self).data_line_histories()[1] + seq![
                    line_level(byte, 0b0010_0000),
                    line_level(byte, 0b0000_0010),
                ],
                old(self).data_line_histories()[2] + seq![
                    line_level(byte, 0b0100_0000),
                    line_level(byte, 0b0000_0100),
                ],
                old(self).data_line_histories()[3] + seq![
                    line_level(byte, 0b1000_0000),
                    line_level(byte, 0b0000_1000),
                ],
            ],
            r is Ok && (*old(self)) is EightBitBus ==> final(self).data_line_histories()
                == Seq::new(8, |i: int| old(self).data_line_histories()[i].push(
                line_level(byte, 1u8 << (i as u8)),
            )),
            r is Err ==> {
                ||| final(self).en_history() == old(self).en_history()
                ||| final(self).en_history() == old(self).en_history().push(true)
                ||| final(self).en_history() == old(self).en_history().push(true).push(false)
                ||| final(self).en_history() == old(self).en_history().push(true).push(
                    false,
                ).push(true)
                ||| final(self).en_history() == old(self).en_history().push(true).push(
                    false,
                ).push(true).push(false)
            },
            r is Err && final(self).rs_history() == old(self).rs_history() ==> {
                &&& final(self).en_history() == old(self).en_history()
                &&& final(self).data_line_histories() == old(self).data_line_histories()
                &&& final(delay).history() == old(delay).history()
            },
    {
        match self {
            BusWidth::FourBitBus(bus) => {
                let r = bus.write(byte, data, delay);
                proof {
                    if r is Ok {
                        assert(self.data_line_histories() =~= seq![
                            old(self).data_line_histories()[0] + seq![
                                line_level(byte, 0b0001_0000),
                                line_level(byte, 0b0000_0001),
                            ],
                            old(self).data_line_histories()[1] + seq![
                                line_level(byte, 0b0010_0000),
                                line_level(byte, 0b0000_0010),
                            ],
                            old(self).data_line_histories()[2] + seq![
                                line_level(byte, 0b0100_0000),
                                line_level(byte, 0b0000_0100),
                            ],
                            old(self).data_line_histories()[3] + seq![
                                line_level(byte, 0b1000_0000),
                                line_level(byte, 0b0000_1000),
                            ],
                        ]);
                    }
                }
                r
            }
            BusWidth::EightBitBus(bus) => {
                let r = bus.write(byte, data, delay);
                proof {
                    if r is Ok {
                        assert(self.data_line_histories() =~= Seq::new(8, |i: int| old(
                            self,
                        ).data_line_histories()[i].push(line_level(byte, 1u8 << (i as u8)))));
                    }
                }
                r
            }
        }
    }
}

} // verus!
