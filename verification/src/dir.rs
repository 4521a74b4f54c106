//! The two sides of a market.
use vstd::prelude::*;

verus! {

/// Side of an order or a trade.
#[derive(Debug, Clone, Copy, PartialEq, Eq, Structural)]
pub enum Dir {
    Buy,
    Sell,
}

/// One value for each side.
#[derive(Debug, Clone, Copy, PartialEq, Eq)]
pub struct DirPair<T> {
    pub buy: T,
    pub sell: T,
}

} // verus!
