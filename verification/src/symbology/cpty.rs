//! Counterparties: a venue reached by a route.
use crate::ids::{RouteId, VenueId};
use vstd::prelude::*;

verus! {

/// A counterparty: the venue and the route to it.
#[derive(Debug, Clone, Copy, PartialEq, Eq, Structural, PartialOrd, Ord, Hash)]
pub struct CptyId {
    pub venue: VenueId,
    pub route: RouteId,
}

} // verus!
