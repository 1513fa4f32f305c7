use vstd::prelude::*;

verus! {

/// The single error kind of the driver: an underlying pin drive or
/// channel write failed. The protocol layer does not attempt partial
/// recovery; after an error the display's state must be treated as
/// unknown.
#[derive(Clone, Copy, Debug, PartialEq, Eq, Structural)]
pub struct Error;

} // verus!
