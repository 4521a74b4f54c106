//! Kinds of markets.
use crate::ids::ProductId;
use vstd::prelude::*;

verus! {

/// A regular exchange trading pair, e.g. Coinbase BTC/USD.
#[derive(Debug, Clone, Copy, PartialEq, Eq, Structural)]
pub struct ExchangeMarketKind {
    pub base: ProductId,
    pub quote: ProductId,
}

} // verus!
