//! Spot (CFI category I).
use vstd::prelude::*;

verus! {

#[derive(Debug, Clone, Copy, Hash, PartialEq, Eq, PartialOrd, Ord, Structural)]
pub enum Kind {
    Agriculture,
    Energy,
    Metals,
    Environmental,
    PolypropyleneProducts,
    Fertilizer,
    Paper,
    Other,
    NA,
}

/// The kind that the letter of the code says.
pub open spec fn spec_kind(code: Seq<u8>) -> Kind {
    if code[2] == 0x41 {
        Kind::Agriculture
    } else if code[2] == 0x4A {
        Kind::Energy
    } else if code[2] == 0x4B {
        Kind::Metals
    } else if code[2] == 0x4E {
        Kind::Environmental
    } else if code[2] == 0x50 {
        Kind::PolypropyleneProducts
    } else if code[2] == 0x53 {
        Kind::Fertilizer
    } else if code[2] == 0x54 {
        Kind::Paper
    } else if code[2] == 0x4D {
        Kind::Other
    } else {
        Kind::NA
    }
}

impl From<&[u8; 8]> for Kind {
    fn from(value: &[u8; 8]) -> (r: Self) {
        match value[2] {
            0x41 => Self::Agriculture,  // 'A'
            0x4A => Self::Energy,  // 'J'
            0x4B => Self::Metals,  // 'K'
            0x4E => Self::Environmental,  // 'N'
            0x50 => Self::PolypropyleneProducts,  // 'P'
            0x53 => Self::Fertilizer,  // 'S'
            0x54 => Self::Paper,  // 'T'
            0x4D => Self::Other,  // 'M'
            _ => Self::NA,
        }
    }
}

impl vstd::std_specs::convert::FromSpecImpl<&[u8; 8]> for Kind {
    open spec fn obeys_from_spec() -> bool {
        true
    }

    open spec fn from_spec(value: &[u8; 8]) -> Kind {
        spec_kind(value@)
    }
}

#[derive(Debug, Clone, Copy, Hash, PartialEq, Eq, PartialOrd, Ord, Structural)]
pub enum Class {
    Forex,
    Commodities(Kind),
    NA,
}

/// The class that the letter of the code says.
pub open spec fn spec_class(code: Seq<u8>) -> Class {
    if code[1] == 0x46 {
        Class::Forex
    } else if code[1] == 0x54 {
        Class::Commodities(spec_kind(code))
    } else {
        Class::NA
    }
}

impl From<&[u8; 8]> for Class {
    fn from(value: &[u8; 8]) -> (r: Self) {
        match value[1] {
            0x46 => Self::Forex,  // 'F'
            0x54 => Self::Commodities(Kind::from(value)),  // 'T'
            _ => Self::NA,
        }
    }
}

impl vstd::std_specs::convert::FromSpecImpl<&[u8; 8]> for Class {
    open spec fn obeys_from_spec() -> bool {
        true
    }

    open spec fn from_spec(value: &[u8; 8]) -> Class {
        spec_class(value@)
    }
}

/// The letter at position 2 of a code decides the kind, one
/// letter for each value under ISO 10962 ('A' Agriculture, 'J' Energy, 'K' Metals, 'N' Environmental, 'P' PolypropyleneProducts, 'S' Fertilizer, 'T' Paper, 'M' Other), and any other
/// letter gives NA.
pub proof fn law_kind_letters(code: Seq<u8>)
    ensures
        (spec_kind(code) is Agriculture) <==> code[2] == 0x41,  // 'A'
        (spec_kind(code) is Energy) <==> code[2] == 0x4A,  // 'J'
        (spec_kind(code) is Metals) <==> code[2] == 0x4B,  // 'K'
        (spec_kind(code) is Environmental) <==> code[2] == 0x4E,  // 'N'
        (spec_kind(code) is PolypropyleneProducts) <==> code[2] == 0x50,  // 'P'
        (spec_kind(code) is Fertilizer) <==> code[2] == 0x53,  // 'S'
        (spec_kind(code) is Paper) <==> code[2] == 0x54,  // 'T'
        (spec_kind(code) is Other) <==> code[2] == 0x4D,  // 'M'
        (spec_kind(code) is NA) <==> (code[2] != 0x41 && code[2] != 0x4A && code[2] != 0x4B && code[2] != 0x4E && code[2] != 0x50 && code[2] != 0x53 && code[2] != 0x54 && code[2] != 0x4D),
{
}

/// The letter at position 1 of a code decides the class, one
/// letter for each value under ISO 10962 ('F' Forex, 'T' Commodities), and any other
/// letter gives NA.
pub proof fn law_class_letters(code: Seq<u8>)
    ensures
        (spec_class(code) is Forex) <==> code[1] == 0x46,  // 'F'
        (spec_class(code) is Commodities) <==> code[1] == 0x54,  // 'T'
        (spec_class(code) is NA) <==> (code[1] != 0x46 && code[1] != 0x54),
{
}

} // verus!
