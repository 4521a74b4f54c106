//! Identifiers of users, accounts and markets: uuids, held as 128-bit
//! numbers.
use vstd::prelude::*;

verus! {

/// A user (trader) id.
#[derive(Debug, Clone, Copy, Hash, PartialEq, Eq, Structural, PartialOrd, Ord)]
pub struct UserId(pub u128);

/// An account id.
#[derive(Debug, Clone, Copy, Hash, PartialEq, Eq, Structural, PartialOrd, Ord)]
pub struct AccountId(pub u128);

/// A market id.
#[derive(Debug, Clone, Copy, Hash, PartialEq, Eq, Structural, PartialOrd, Ord)]
pub struct MarketId(pub u128);

/// A product id.
#[derive(Debug, Clone, Copy, Hash, PartialEq, Eq, Structural, PartialOrd, Ord)]
pub struct ProductId(pub u128);

/// A venue id.
#[derive(Debug, Clone, Copy, Hash, PartialEq, Eq, Structural, PartialOrd, Ord)]
pub struct VenueId(pub u128);

/// A route id.
#[derive(Debug, Clone, Copy, Hash, PartialEq, Eq, Structural, PartialOrd, Ord)]
pub struct RouteId(pub u128);

} // verus!
