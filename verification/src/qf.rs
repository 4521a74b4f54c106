//! Headers of marketdata publications.
use vstd::prelude::*;

verus! {

/// Whether a publication holds updates or a whole snapshot.
#[derive(Debug, Clone, Copy, PartialEq, Eq, Structural)]
pub enum MessageHeader {
    Updates,
    Snapshot,
}

} // verus!
