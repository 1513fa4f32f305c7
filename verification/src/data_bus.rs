//! The transport capability: transmit one instruction byte, tagged
//! as command or character data, with correct timing.

use vstd::prelude::*;

use crate::error::Error;
use crate::hal::Delay;

verus! {

/// A transport to the display controller.
///
/// Each implementation drives a physically different medium, but all
/// offer the same operation: deliver one byte, tagged as command or
/// character data, pulsing the enable signal so the controller
/// latches it and honoring the datasheet settle times.
///
/// On success exactly one tagged byte has been delivered and the
/// transport has waited exactly its own fixed delay profile. On
/// failure the write was aborted wherever the underlying operation
/// failed: the display's state must be treated as unknown, and the
/// write is not recorded as delivered.
pub trait DataBus {
    /// The tagged bytes this transport has delivered completely,
    /// oldest first; `true` tags character data, `false` a command.
    spec fn sent(&self) -> Seq<(u8, bool)>;

    /// The waits, in microseconds, that one successful write of this
    /// transport performs.
    spec fn write_delays(&self) -> Seq<int>;

    /// Delivers `byte` to the display, as character data when `data`
    /// is true and as a command otherwise.
    fn write<D: Delay>(&mut self, byte: u8, data: bool, delay: &mut D) -> (r: Result<(), Error>)
        ensures
            final(self).write_delays() == old(self).write_delays(),
            r is Ok ==> final(self).sent() == old(self).sent().push((byte, data)),
            r is Ok ==> final(delay).history() == old(delay).history() + old(self).write_delays(),
            r is Err ==> final(self).sent() == old(self).sent(),
    ;
}

} // verus!
