//! Routes represent a specific path to a venue.  For direct exchange or
//! venue connections, this is the canonical route "DIRECT".  For brokered
//! or third-party connections, e.g. NASDAQ via JPM, this would be the route
//! "JPM".
use crate::ids::RouteId;
use vstd::prelude::*;

verus! {

/// A route: its id and its name.
#[derive(Debug, Clone)]
pub struct Route {
    pub id: RouteId,
    pub name: String,
}

} // verus!
