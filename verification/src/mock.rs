//! Test doubles for the consumed capabilities: pins that record the
//! levels they are driven to, a channel that records the bytes it
//! transmits, a delay provider that only logs its waits, and
//! always-failing variants for exercising the error paths.

use vstd::prelude::*;

use crate::error::Error;
use crate::hal::{Delay, I2cWrite, OutputPin};

verus! {

/// A pin that never fails and records every level it is driven to.
pub struct MockPin {
    /// The levels driven so far, oldest first.
    pub levels: Vec<bool>,
}

impl MockPin {
    /// Makes a pin that has been driven to nothing yet.
    pub fn new() -> (r: MockPin)
        ensures
            r.history() == Seq::<bool>::empty(),
    {
        MockPin { levels: Vec::new() }
    }
}

impl OutputPin for MockPin {
    open spec fn history(&self) -> Seq<bool> {
        self.levels@
    }

    fn set_high(&mut self) -> (r: Result<(), Error>)
        ensures
            r is Ok,
    {
        self.levels.push(true);
        Ok(())
    }

    fn set_low(&mut self) -> (r: Result<(), Error>)
        ensures
            r is Ok,
    {
        self.levels.push(false);
        Ok(())
    }
}

/// A pin that carries out a fixed number of operations and then
/// fails every further one, for exercising failures part way
/// through a write.
pub struct FlakyPin {
    /// The levels driven so far, oldest first.
    pub levels: Vec<bool>,
    /// How many more operations will still succeed.
    pub remaining: usize,
}

impl FlakyPin {
    /// Makes a pin whose next `remaining` operations succeed.
    pub fn new(remaining: usize) -> (r: FlakyPin)
        ensures
            r.history() == Seq::<bool>::empty(),
            r.remaining == remaining,
    {
        FlakyPin { levels: Vec::new(), remaining }
    }
}

impl OutputPin for FlakyPin {
    open spec fn history(&self) -> Seq<bool> {
        self.levels@
    }

    fn set_high(&mut self) -> (r: Result<(), Error>)
        ensures
            r is Ok <==> old(self).remaining > 0,
    {
        if self.remaining == 0 {
            Err(Error)
        } else {
            self.remaining = self.remaining - 1;
            self.levels.push(true);
            Ok(())
        }
    }

    fn set_low(&mut self) -> (r: Result<(), Error>)
        ensures
            r is Ok <==> old(self).remaining > 0,
    {
        if self.remaining == 0 {
            Err(Error)
        } else {
            self.remaining = self.remaining - 1;
            self.levels.push(false);
            Ok(())
        }
    }
}

/// A pin whose every operation fails and drives nothing.
pub struct BrokenPin;

impl OutputPin for BrokenPin {
    open spec fn history(&self) -> Seq<bool> {
        Seq::empty()
    }

    fn set_high(&mut self) -> (r: Result<(), Error>)
        ensures
            r is Err,
    {
        Err(Error)
    }

    fn set_low(&mut self) -> (r: Result<(), Error>)
        ensures
            r is Err,
    {
        Err(Error)
    }
}

/// A delay provider that waits for no time at all and only records
/// what was asked of it.
pub struct MockDelay {
    waited: Ghost<Seq<int>>,
}

impl MockDelay {
    /// Makes a provider that has waited for nothing yet.
    pub fn new() -> (r: MockDelay)
        ensures
            r.history() == Seq::<int>::empty(),
    {
        MockDelay { waited: Ghost(Seq::empty()) }
    }
}

impl Delay for MockDelay {
    closed spec fn history(&self) -> Seq<int> {
        self.waited@
    }

    fn delay_ms(&mut self, ms: u32) {
        self.waited = Ghost(self.waited@.push(ms * 1000));
    }

    fn delay_us(&mut self, us: u32) {
        self.waited = Ghost(self.waited@.push(us as int));
    }
}

/// A channel that never fails and records every byte it transmits,
/// with the address it went to.
pub struct MockI2c {
    /// The transmitted bytes, oldest first, each with its address.
    pub written: Vec<(u8, u8)>,
}

impl MockI2c {
    /// Makes a channel that has transmitted nothing yet.
    pub fn new() -> (r: MockI2c)
        ensures
            r.history() == Seq::<(u8, u8)>::empty(),
    {
        MockI2c { written: Vec::new() }
    }
}

impl I2cWrite for MockI2c {
    open spec fn history(&self) -> Seq<(u8, u8)> {
        self.written@
    }

    fn write(&mut self, address: u8, byte: u8) -> (r: Result<(), Error>)
        ensures
            r is Ok,
    {
        self.written.push((address, byte));
        Ok(())
    }
}

/// A channel whose every operation fails and transmits nothing.
pub struct BrokenI2c;

impl I2cWrite for BrokenI2c {
    open spec fn history(&self) -> Seq<(u8, u8)> {
        Seq::empty()
    }

    fn write(&mut self, address: u8, byte: u8) -> (r: Result<(), Error>)
        ensures
            r is Err,
    {
        Err(Error)
    }
}

} // verus!
