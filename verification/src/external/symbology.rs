//! Requests of the external symbology plugin protocol.
use vstd::prelude::*;

verus! {

#[derive(Debug, Clone, Copy, PartialEq, Eq, Structural)]
pub struct SymbologySnapshotRequest {}

#[derive(Debug, Clone, Copy, PartialEq, Eq, Structural)]
pub struct SubscribeSymbologyUpdatesRequest {}

} // verus!
