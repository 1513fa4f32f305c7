//! The capabilities the driver consumes, as traits for the user to
//! implement: an output-only digital pin, a blocking delay provider,
//! and a write-only I2C channel.
//!
//! Each fallible capability exposes, as specification state, the
//! history of the operations it has carried out, so that the driver's
//! contracts can pin down exactly which signals a command produced.
//! A failed operation contributes nothing to the history: the
//! capability reports in its history what it has driven, not what was
//! asked of it.
//!
//! Each capability records only its own history, so the model orders
//! the events on one pin or channel but not events across different
//! pins; where the relative order of signals matters, the transports
//! state it per signal, and the expander transport states it fully,
//! since all its events travel over the one channel.

use vstd::prelude::*;

use crate::error::Error;

verus! {

/// An output-only digital signal with two operations, drive-high and
/// drive-low, each fallible.
pub trait OutputPin {
    /// The levels this pin has been driven to, oldest first.
    spec fn history(&self) -> Seq<bool>;

    /// Drives the pin high.
    fn set_high(&mut self) -> (r: Result<(), Error>)
        ensures
            r is Ok ==> final(self).history() == old(self).history().push(true),
            r is Err ==> final(self).history() == old(self).history(),
    ;

    /// Drives the pin low.
    fn set_low(&mut self) -> (r: Result<(), Error>)
        ensures
            r is Ok ==> final(self).history() == old(self).history().push(false),
            r is Err ==> final(self).history() == old(self).history(),
    ;
}

/// A blocking delay provider with millisecond and microsecond waits,
/// infallible. The history records each wait in microseconds.
pub trait Delay {
    /// The waits this provider has performed, in microseconds, oldest
    /// first.
    spec fn history(&self) -> Seq<int>;

    /// Blocks for at least `ms` milliseconds.
    fn delay_ms(&mut self, ms: u32)
        ensures
            final(self).history() == old(self).history().push(ms * 1000),
    ;

    /// Blocks for at least `us` microseconds.
    fn delay_us(&mut self, us: u32)
        ensures
            final(self).history() == old(self).history().push(us as int),
    ;
}

/// A write-only I2C channel: transmits single bytes to a 7-bit device
/// address, fallible. The history records each transmitted byte with
/// the address it went to.
pub trait I2cWrite {
    /// The bytes this channel has transmitted, oldest first, each
    /// with its device address.
    spec fn history(&self) -> Seq<(u8, u8)>;

    /// Transmits one byte to the device at `address`.
    fn write(&mut self, address: u8, byte: u8) -> (r: Result<(), Error>)
        ensures
            r is Ok ==> final(self).history() == old(self).history().push((address, byte)),
            r is Err ==> final(self).history() == old(self).history(),
    ;
}

} // verus!
