//! Responses of the order management service.
use vstd::prelude::*;

verus! {

#[derive(Debug, Clone, Copy, PartialEq, Eq, Structural)]
pub struct CancelAllOrdersResponse {}

#[derive(Debug, Clone, Copy, PartialEq, Eq, Structural)]
pub struct ReconcileOutResponse {}

} // verus!
