//! Blocks of order numbers handed out by the order id authority.
use vstd::prelude::*;

verus! {

/// A block of order numbers, from `allocation_min` to `allocation_max`.
#[derive(Debug, Clone, Copy, PartialEq, Eq, Structural)]
pub struct OrderIdAllocation {
    pub allocation_min: u64,
    pub allocation_max: u64,
}

} // verus!
