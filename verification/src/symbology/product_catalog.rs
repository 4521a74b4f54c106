//! Loosely normalized information about exchange products.
use super::product::Product;
use super::venue::ExecutionVenue;
use crate::decimal::Decimal;
use crate::error::Error;
use crate::strings::{first_index, owned, split_once};
use crate::time::{NaiveDate, UtcTimestamp};
use vstd::prelude::*;

verus! {

/// Loosely normalized information about exchange products; used to
/// seed symbology loaders and populate extended product info.
///
/// Numeric data is very rough and not at all precise in time.
/// These fields, such as eps_adj, dividend_yield, etc. should be
/// considered almost cosmetic.
#[derive(Debug, Clone)]
pub struct ProductCatalogInfo {
    pub last_updated: Option<UtcTimestamp>,
    pub as_of_date: Option<NaiveDate>,
    pub exchange: ExecutionVenue,
    /// Could be anything really
    pub exchange_product: String,
    pub quote_currency: Option<Product>,
    /// For derivatives contracts, the multiplier
    pub multiplier: Option<Decimal>,
    pub category: Option<String>,
    pub sub_category: Option<String>,
    /// Short description of the product, suitable for display in a bubble, for example
    pub short_description: Option<String>,
    pub long_description: Option<String>,
    pub schedule_description: Option<String>,
    pub settle_method: Option<String>,
    pub price_display_format: Option<String>,
    pub market_cap: Option<Decimal>,
    pub price_to_earnings: Option<Decimal>,
    /// For stocks, adjusted earnings per share
    pub eps_adj: Option<Decimal>,
    pub shared_outstanding_weighted_adj: Option<Decimal>,
    pub dividend: Option<Decimal>,
    pub dividend_yield: Option<Decimal>,
    /// URL to more product info
    pub info_url: Option<String>,
    pub cqg_contract_symbol: Option<String>,
}

impl ProductCatalogInfo {
    /// What the exchange product's name holds before its first space.
    pub fn product_root(&self) -> (r: Result<&str, Error>)
        ensures
            match split_once(self.exchange_product@, ' ') {
                Some(parts) => r matches Ok(root) && root@ == parts.0,
                None => r matches Err(Error::NoRoot(s)) && s@ == self.exchange_product@,
            },
    {
        let s = self.exchange_product.as_str();
        match first_index(s, ' ') {
            Some(i) => Ok(s.substring_char(0, i)),
            None => Err(Error::NoRoot(owned(s))),
        }
    }

    /// For US-EQUITIES, the canonical synonym for category
    pub fn sector(&self) -> (r: Option<&str>)
        ensures
            match self.category {
                Some(c) => r matches Some(t) && t@ == c@,
                None => r is None,
            },
    {
        match &self.category {
            Some(c) => Some(c.as_str()),
            None => None,
        }
    }
}

} // verus!
