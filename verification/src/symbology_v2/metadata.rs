//! What is known of products, tradable products and their venues.
use super::product::Product;
use super::venue::{ExecutionVenue, MarketdataVenue};
use crate::symbology::execution_info::MinOrderQuantityUnit;
use std::collections::HashMap;
use crate::decimal::Decimal;
use vstd::prelude::*;

verus! {

/// What is known of a tradable product: its quote.
#[derive(Debug, Clone)]
pub struct TradableProductInfo {
    pub quote: Product,
}

#[derive(Debug, Copy, Clone, PartialEq, Eq, Structural)]
pub enum DerivativeKind {
    /// Normal futures
    Linear,
    /// Futures settled in the base currency
    Inverse,
    /// Quote currency different from settle currency
    Quanto,
}

/// One leg of a spread: a product and the quantity of it that one unit
/// of the spread holds.
#[derive(Debug, Clone)]
pub struct SpreadLeg {
    pub product: Product,
    /// Some spreads have different ratios for their legs, like buy 1 A, sell 2 B, buy 1 C;
    /// We would represent that with quantities in the legs: 1, -2, 1
    pub quantity: Decimal,
}

/// Information about a symbol related to its marketdata source.
#[derive(Clone, Debug)]
pub struct MarketdataInfo {
    pub marketdata_venue: MarketdataVenue,
    pub source_raw_symbol: String,
}

/// Information about a symbol related to its execution route.
#[derive(Clone, Debug)]
pub struct ExecutionInfo {
    pub execution_venue: ExecutionVenue,
    /// For series products, the interpretation of `venue_raw_symbol` is
    /// venue-specific.
    pub venue_raw_symbol: String,
    pub only_possible_quote_symbol: Option<Product>,
    pub tick_size: Vec<TickSize>,
    pub step_size: Decimal,
    pub min_order_quantity: Decimal,
    pub min_order_quantity_unit: MinOrderQuantityUnit,
    pub is_delisted: bool,
    pub additional_info: Option<HashMap<String, String>>,
}

/// The tick size of a symbol: one size, or (threshold, tick size) pairs.
/// For a price at or above each threshold, the tick size is the
/// corresponding value.
#[derive(Clone, Debug)]
pub enum TickSize {
    Simple(Decimal),
    Varying { thresholds: Vec<(Decimal, Decimal)> },
}

impl TickSize {
    pub fn simple(tick_size: Decimal) -> (r: Self)
        ensures
            r == TickSize::Simple(tick_size),
    {
        TickSize::Simple(tick_size)
    }
}

} // verus!
