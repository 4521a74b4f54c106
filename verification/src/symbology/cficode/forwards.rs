//! Forwards (CFI category J).
use vstd::prelude::*;

verus! {

#[derive(Debug, Clone, Copy, Hash, PartialEq, Eq, PartialOrd, Ord, Structural)]
pub enum Class {
    Equity,
    Forex,
    Credit,
    Rates,
    Commodities,
    NA,
}

/// The class that the letter of the code says.
pub open spec fn spec_class(code: Seq<u8>) -> Class {
    if code[1] == 0x45 {
        Class::Equity
    } else if code[1] == 0x46 {
        Class::Forex
    } else if code[1] == 0x43 {
        Class::Credit
    } else if code[1] == 0x52 {
        Class::Rates
    } else if code[1] == 0x54 {
        Class::Commodities
    } else {
        Class::NA
    }
}

impl From<&[u8; 8]> for Class {
    fn from(value: &[u8; 8]) -> (r: Self) {
        match value[1] {
            0x45 => Self::Equity,  // 'E'
            0x46 => Self::Forex,  // 'F'
            0x43 => Self::Credit,  // 'C'
            0x52 => Self::Rates,  // 'R'
            0x54 => Self::Commodities,  // 'T'
            _ => Self::NA,
        }
    }
}

impl vstd::std_specs::convert::FromSpecImpl<&[u8; 8]> for Class {
    open spec fn obeys_from_spec() -> bool {
        true
    }

    open spec fn from_spec(value: &[u8; 8]) -> Class {
        spec_class(value@)
    }
}

/// The letter at position 1 of a code decides the class, one
/// letter for each value under ISO 10962 ('E' Equity, 'F' Forex, 'C' Credit, 'R' Rates, 'T' Commodities), and any other
/// letter gives NA.
pub proof fn law_class_letters(code: Seq<u8>)
    ensures
        (spec_class(code) is Equity) <==> code[1] == 0x45,  // 'E'
        (spec_class(code) is Forex) <==> code[1] == 0x46,  // 'F'
        (spec_class(code) is Credit) <==> code[1] == 0x43,  // 'C'
        (spec_class(code) is Rates) <==> code[1] == 0x52,  // 'R'
        (spec_class(code) is Commodities) <==> code[1] == 0x54,  // 'T'
        (spec_class(code) is NA) <==> (code[1] != 0x45 && code[1] != 0x46 && code[1] != 0x43 && code[1] != 0x52 && code[1] != 0x54),
{
}

} // verus!
