//! Symbology updates of the external plugin protocol.
use crate::time::UtcTimestamp;
use vstd::prelude::*;

verus! {

/// Add a symbol with its metadata, or remove it.
#[derive(Debug, Clone)]
pub enum AddOrRemove<Symbol, Metadata> {
    Add { symbol: Symbol, metadata: Metadata },
    Remove { symbol: Symbol },
}

/// Add a symbol's metadata at a venue, or remove the symbol at the venue.
#[derive(Debug, Clone)]
pub enum AddOrRemoveVenue<Symbol, Venue, Metadata> {
    Add { symbol: Symbol, venue: Venue, metadata: Metadata },
    Remove { symbol: Symbol, venue: Venue },
}

#[derive(Debug, Clone, Copy, PartialEq, Eq, Structural)]
pub struct SubscribeSymbologyV2 {}

#[derive(Debug, Clone, Copy, PartialEq, Eq, Structural)]
pub struct UploadSymbologyV2Response {}

/// One-shot request to make the symbol store expire symbols.
#[derive(Debug, Clone, Copy, PartialEq, Eq, Structural)]
pub struct PruneExpiredSymbolsRequest {
    /// If None then it will just use server current time;
    /// otherwise, a unix timestamp in seconds.
    pub cutoff: Option<i64>,
}

impl PruneExpiredSymbolsRequest {
    /// A request with the cutoff's Unix time in seconds, if one is given.
    pub fn new(cutoff: Option<UtcTimestamp>) -> (r: Self)
        ensures
            r.cutoff == (match cutoff {
                Some(t) => Some(t.secs),
                None => None,
            }),
    {
        let cutoff = match cutoff {
            Some(t) => Some(t.secs),
            None => None,
        };
        PruneExpiredSymbolsRequest { cutoff }
    }
}

#[derive(Debug, Clone, Copy, PartialEq, Eq, Structural)]
pub struct PruneExpiredSymbolsResponse {}

} // verus!
