//! Requests for options marketdata.
use vstd::prelude::*;

verus! {

#[derive(Debug, Clone)]
pub struct OptionsExpirationsRequest {
    pub underlying: String,
}

} // verus!
