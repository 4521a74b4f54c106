//! Order statuses and reject reasons.
use vstd::prelude::*;

verus! {

#[derive(Debug, Clone, Copy, PartialEq, Eq, Structural)]
pub enum OrderStatus {
    Pending,
    Acked,
    Rejected,
    Open,
    Out,
    Canceling,
    Canceled,
    Stale,
}

#[derive(Debug, Clone, Copy, PartialEq, Eq, Structural)]
pub enum OrderRejectReason {
    DuplicateOrderId,
    NotAuthorized,
    Unknown,
}

} // verus!
