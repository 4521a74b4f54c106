//! Reference data about exchange products.
use vstd::prelude::*;

verus! {

/// The security types of CME products.
#[allow(non_camel_case_types, clippy::upper_case_acronyms)]
#[derive(Clone, Debug, Hash, Eq, PartialEq, Structural, PartialOrd, Ord)]
pub enum CmeSecurityType {
    CASH,
    COMBO,
    FRA,
    FUT,
    FWD,
    IDX,
    INDEX,
    IRS,
    OOC,
    OOF,
}

} // verus!
