//! The states of a cancel request, and its refusal.
use super::order::message_or_dashes;
use super::order_id::{uuid_hyphenated, uuid_to_string, OrderId};
use crate::strings::push_str;
use vstd::prelude::*;

verus! {

#[derive(Debug, Clone, Copy, PartialEq, Eq, Structural)]
pub enum CancelStatus {
    Pending,
    Acked,
    Rejected,
    Out,
}

/// The number that stands for a cancel status on the wire.
pub open spec fn cancel_status_code(s: CancelStatus) -> u8 {
    match s {
        CancelStatus::Pending => 0,
        CancelStatus::Acked => 1,
        CancelStatus::Rejected => 2,
        CancelStatus::Out => 127,
    }
}

impl CancelStatus {
    /// The status's number on the wire.
    pub fn as_u8(&self) -> (r: u8)
        ensures
            r == cancel_status_code(*self),
    {
        match self {
            CancelStatus::Pending => 0,
            CancelStatus::Acked => 1,
            CancelStatus::Rejected => 2,
            CancelStatus::Out => 127,
        }
    }
}

/// A cancel request was refused.
#[derive(Debug, Clone)]
pub struct CancelReject {
    pub cancel_id: u128,
    pub order_id: OrderId,
    pub message: Option<String>,
}

impl CancelReject {
    /// "cancel ID rejected: MESSAGE".
    pub fn to_error_string(&self) -> (r: String)
        ensures
            r@ == "cancel "@ + uuid_hyphenated(self.cancel_id) + " rejected: "@
                + message_or_dashes(self.message),
    {
        let mut out = String::from_str("cancel ");
        let id = uuid_to_string(self.cancel_id);
        push_str(&mut out, id.as_str());
        push_str(&mut out, " rejected: ");
        match &self.message {
            Some(m) => push_str(&mut out, m.as_str()),
            None => push_str(&mut out, "--"),
        }
        out
    }
}

} // verus!
