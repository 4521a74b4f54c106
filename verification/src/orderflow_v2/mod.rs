//! The second version of orderflow: order statuses, reject reasons and
//! dropcopy requests.
pub mod order;

use vstd::prelude::*;

verus! {

/// Which kinds of event a dropcopy subscription receives.
#[derive(Debug, Clone, Copy, PartialEq, Eq, Structural)]
pub struct DropcopyRequest {
    pub orders: bool,
    pub fills: bool,
    pub aberrant_fills: bool,
}

impl DropcopyRequest {
    /// Fills are sent unless the request says otherwise.
    pub fn default_fills() -> (r: bool)
        ensures
            r,
    {
        true
    }
}

impl Default for DropcopyRequest {
    /// The request a missing field leaves: fills only.
    fn default() -> (r: Self)
        ensures
            r == (DropcopyRequest { orders: false, fills: true, aberrant_fills: false }),
    {
        DropcopyRequest { orders: false, fills: Self::default_fills(), aberrant_fills: false }
    }
}

} // verus!
