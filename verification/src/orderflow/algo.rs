//! The controls and states of algorithmic orders.
use vstd::prelude::*;

verus! {

#[derive(Debug, Clone, Copy, PartialEq, Eq, Structural)]
pub enum AlgoControlCommand {
    Start,
    Pause,
    End,
}

#[derive(Debug, Clone, Copy, PartialEq, Eq, Structural, PartialOrd, Ord)]
pub enum AlgoRunningStatus {
    NotYetStarted,
    Active,
    Paused,
    Done,
}

} // verus!
