//! The quality-of-service settings that a publication carries to the session.
use vstd::prelude::*;

verus! {

/// What the network does with a message when a queue on its way is full.
#[derive(Clone, Copy, Debug, PartialEq, Eq, Structural)]
pub enum CongestionControl {
    /// The message is dropped.
    Drop,
    /// The sender waits for room.
    Block,
}

impl Default for CongestionControl {
    fn default() -> (r: Self)
        ensures
            r == CongestionControl::Drop,
    {
        CongestionControl::Drop
    }
}

/// The priority of a message, from the most urgent to the least.
#[derive(Clone, Copy, Debug, PartialEq, Eq, Structural, PartialOrd, Ord)]
pub enum Priority {
    RealTime,
    InteractiveHigh,
    InteractiveLow,
    DataHigh,
    Data,
    DataLow,
    Background,
}

impl Default for Priority {
    fn default() -> (r: Self)
        ensures
            r == Priority::Data,
    {
        Priority::Data
    }
}

/// Which kind of link a message would rather take. It is a hint: nothing is
/// sent again on its account.
#[derive(Clone, Copy, Debug, PartialEq, Eq, Structural)]
pub enum Reliability {
    BestEffort,
    Reliable,
}

impl Default for Reliability {
    fn default() -> (r: Self)
        ensures
            r == Reliability::Reliable,
    {
        Reliability::Reliable
    }
}

} // verus!
