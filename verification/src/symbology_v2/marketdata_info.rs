//! What is known of a symbol at the venue that provides its marketdata.
use super::product::Product;
use super::venue::MarketdataVenue;
use vstd::prelude::*;

verus! {

/// Information about a symbol related to its marketdata source.
#[derive(Clone, Debug)]
pub struct MarketdataInfo {
    pub marketdata_venue: MarketdataVenue,
    pub venue_raw_symbol: String,
    /// For products or series, if there's only one possible quote symbol
    pub only_possible_quote_symbol: Option<Product>,
    /// If true, this symbol is a scalar (e.g. index value);
    /// `only_possible_quote_symbol` isn't applicable in this case.
    pub is_scalar: bool,
}

} // verus!
