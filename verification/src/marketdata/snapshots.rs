//! Requests for marketdata snapshots.
use vstd::prelude::*;

verus! {

#[derive(Debug, Clone, Copy, PartialEq, Eq, Structural)]
pub struct SubscribeMarketdataSnapshotsRequest {}

} // verus!
