//! Bus accesses requested by the register sequencers.

use vstd::prelude::*;

verus! {

/// The next thing a register sequencer asks the bus to do.
#[derive(Clone, Copy, Debug, PartialEq, Eq, Structural)]
pub enum Access {
    /// Load the 32-bit register at `addr`; its value is handed to the next `step`.
    Read { addr: usize },
    /// Store `value` into the 32-bit register at `addr`.
    Write { addr: usize, value: u32 },
    /// The sequence is complete.
    Done,
    /// The sequence cannot complete (a hardware wait ran out of budget).
    Fault,
}

/// A single register store.
#[derive(Clone, Copy, Debug, PartialEq, Eq, Structural)]
pub struct RegWrite {
    pub addr: usize,
    pub value: u32,
}

} // verus!
