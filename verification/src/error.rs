//! The failures of a bus transfer.

use vstd::prelude::*;

verus! {

/// Failures of a bus transfer, as the transfer layer reports them from the
/// peripheral's status.
#[derive(Debug, PartialEq, Eq)]
#[non_exhaustive]
pub enum Error {
    /// A start or stop condition appeared where the protocol has none.
    Bus,
    /// Another master took the bus.
    Arbitration,
    /// The addressed device did not acknowledge.
    Acknowledge,
    /// The data register was overrun or underrun.
    Overrun,
    /// The transfer layer waited longer than it was told to.
    Timeout,
}

} // verus!
