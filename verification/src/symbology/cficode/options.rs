//! Listed options (CFI category O).
use vstd::prelude::*;

verus! {

#[derive(Debug, Clone, Copy, Hash, PartialEq, Eq, PartialOrd, Ord, Structural)]
pub enum Exercise {
    American,
    European,
    Bermudan,
    NA,
}

/// The exercise that the letter of the code says.
pub open spec fn spec_exercise(code: Seq<u8>) -> Exercise {
    if code[2] == 0x41 {
        Exercise::American
    } else if code[2] == 0x45 {
        Exercise::European
    } else if code[2] == 0x42 {
        Exercise::Bermudan
    } else {
        Exercise::NA
    }
}

impl From<&[u8; 8]> for Exercise {
    fn from(value: &[u8; 8]) -> (r: Self) {
        match value[2] {
            0x41 => Self::American,  // 'A'
            0x45 => Self::European,  // 'E'
            0x42 => Self::Bermudan,  // 'B'
            _ => Self::NA,
        }
    }
}

impl vstd::std_specs::convert::FromSpecImpl<&[u8; 8]> for Exercise {
    open spec fn obeys_from_spec() -> bool {
        true
    }

    open spec fn from_spec(value: &[u8; 8]) -> Exercise {
        spec_exercise(value@)
    }
}

#[derive(Debug, Clone, Copy, Hash, PartialEq, Eq, PartialOrd, Ord, Structural)]
pub enum Underlying {
    Baskets,
    Equities,
    Debt,
    Commodities,
    Currencies,
    Indices,
    Options,
    Futures,
    Swaps,
    InterestRates,
    Others,
    NA,
}

/// The underlying that the letter of the code says.
pub open spec fn spec_underlying(code: Seq<u8>) -> Underlying {
    if code[3] == 0x42 {
        Underlying::Baskets
    } else if code[3] == 0x53 {
        Underlying::Equities
    } else if code[3] == 0x44 {
        Underlying::Debt
    } else if code[3] == 0x54 {
        Underlying::Commodities
    } else if code[3] == 0x43 {
        Underlying::Currencies
    } else if code[3] == 0x49 {
        Underlying::Indices
    } else if code[3] == 0x4F {
        Underlying::Options
    } else if code[3] == 0x46 {
        Underlying::Futures
    } else if code[3] == 0x57 {
        Underlying::Swaps
    } else if code[3] == 0x4E {
        Underlying::InterestRates
    } else if code[3] == 0x4D {
        Underlying::Others
    } else {
        Underlying::NA
    }
}

impl From<&[u8; 8]> for Underlying {
    fn from(value: &[u8; 8]) -> (r: Self) {
        match value[3] {
            0x42 => Self::Baskets,  // 'B'
            0x53 => Self::Equities,  // 'S'
            0x44 => Self::Debt,  // 'D'
            0x54 => Self::Commodities,  // 'T'
            0x43 => Self::Currencies,  // 'C'
            0x49 => Self::Indices,  // 'I'
            0x4F => Self::Options,  // 'O'
            0x46 => Self::Futures,  // 'F'
            0x57 => Self::Swaps,  // 'W'
            0x4E => Self::InterestRates,  // 'N'
            0x4D => Self::Others,  // 'M'
            _ => Self::NA,
        }
    }
}

impl vstd::std_specs::convert::FromSpecImpl<&[u8; 8]> for Underlying {
    open spec fn obeys_from_spec() -> bool {
        true
    }

    open spec fn from_spec(value: &[u8; 8]) -> Underlying {
        spec_underlying(value@)
    }
}

#[derive(Debug, Clone, Copy, Hash, PartialEq, Eq, PartialOrd, Ord, Structural)]
pub enum Delivery {
    Physical,
    Cash,
    NonDeliverable,
    ElectAtExercise,
    NA,
}

/// The delivery that the letter of the code says.
pub open spec fn spec_delivery(code: Seq<u8>) -> Delivery {
    if code[4] == 0x50 {
        Delivery::Physical
    } else if code[4] == 0x43 {
        Delivery::Cash
    } else if code[4] == 0x4E {
        Delivery::NonDeliverable
    } else if code[4] == 0x45 {
        Delivery::ElectAtExercise
    } else {
        Delivery::NA
    }
}

impl From<&[u8; 8]> for Delivery {
    fn from(value: &[u8; 8]) -> (r: Self) {
        match value[4] {
            0x50 => Self::Physical,  // 'P'
            0x43 => Self::Cash,  // 'C'
            0x4E => Self::NonDeliverable,  // 'N'
            0x45 => Self::ElectAtExercise,  // 'E'
            _ => Self::NA,
        }
    }
}

impl vstd::std_specs::convert::FromSpecImpl<&[u8; 8]> for Delivery {
    open spec fn obeys_from_spec() -> bool {
        true
    }

    open spec fn from_spec(value: &[u8; 8]) -> Delivery {
        spec_delivery(value@)
    }
}

#[derive(Debug, Clone, Copy, Hash, PartialEq, Eq, PartialOrd, Ord, Structural)]
pub enum Standard {
    Standard,
    NonStandard,
    NA,
}

/// The standard that the letter of the code says.
pub open spec fn spec_standard(code: Seq<u8>) -> Standard {
    if code[5] == 0x53 {
        Standard::Standard
    } else if code[5] == 0x4E {
        Standard::NonStandard
    } else {
        Standard::NA
    }
}

impl From<&[u8; 8]> for Standard {
    fn from(value: &[u8; 8]) -> (r: Self) {
        match value[5] {
            0x53 => Self::Standard,  // 'S'
            0x4E => Self::NonStandard,  // 'N'
            _ => Self::NA,
        }
    }
}

impl vstd::std_specs::convert::FromSpecImpl<&[u8; 8]> for Standard {
    open spec fn obeys_from_spec() -> bool {
        true
    }

    open spec fn from_spec(value: &[u8; 8]) -> Standard {
        spec_standard(value@)
    }
}

#[derive(Debug, Clone, Copy, Hash, PartialEq, Eq, PartialOrd, Ord, Structural)]
pub struct Attrs {
    pub exercise: Exercise,
    pub underlying: Underlying,
    pub delivery: Delivery,
    pub standard: Standard,
}

/// The attributes that the code letters stand for.
pub open spec fn spec_attrs(code: Seq<u8>) -> Attrs {
    Attrs {
        exercise: spec_exercise(code),
        underlying: spec_underlying(code),
        delivery: spec_delivery(code),
        standard: spec_standard(code),
    }
}

impl From<&[u8; 8]> for Attrs {
    fn from(value: &[u8; 8]) -> (r: Self) {
        Self {
            exercise: Exercise::from(value),
            underlying: Underlying::from(value),
            delivery: Delivery::from(value),
            standard: Standard::from(value),
        }
    }
}

impl vstd::std_specs::convert::FromSpecImpl<&[u8; 8]> for Attrs {
    open spec fn obeys_from_spec() -> bool {
        true
    }

    open spec fn from_spec(value: &[u8; 8]) -> Attrs {
        spec_attrs(value@)
    }
}

#[derive(Debug, Clone, Copy, Hash, PartialEq, Eq, PartialOrd, Ord, Structural)]
pub enum Class {
    Put(Attrs),
    Call(Attrs),
    Other,
    NA,
}

/// The class that the letter of the code says.
pub open spec fn spec_class(code: Seq<u8>) -> Class {
    if code[1] == 0x50 {
        Class::Put(spec_attrs(code))
    } else if code[1] == 0x43 {
        Class::Call(spec_attrs(code))
    } else if code[1] == 0x4D {
        Class::Other
    } else {
        Class::NA
    }
}

impl From<&[u8; 8]> for Class {
    fn from(value: &[u8; 8]) -> (r: Self) {
        match value[1] {
            0x50 => Self::Put(Attrs::from(value)),  // 'P'
            0x43 => Self::Call(Attrs::from(value)),  // 'C'
            0x4D => Self::Other,  // 'M'
            _ => Self::NA,
        }
    }
}

impl vstd::std_specs::convert::FromSpecImpl<&[u8; 8]> for Class {
    open spec fn obeys_from_spec() -> bool {
        true
    }

    open spec fn from_spec(value: &[u8; 8]) -> Class {
        spec_class(value@)
    }
}

/// The letter at position 2 of a code decides the exercise, one
/// letter for each value under ISO 10962 ('A' American, 'E' European, 'B' Bermudan), and any other
/// letter gives NA.
pub proof fn law_exercise_letters(code: Seq<u8>)
    ensures
        (spec_exercise(code) is American) <==> code[2] == 0x41,  // 'A'
        (spec_exercise(code) is European) <==> code[2] == 0x45,  // 'E'
        (spec_exercise(code) is Bermudan) <==> code[2] == 0x42,  // 'B'
        (spec_exercise(code) is NA) <==> (code[2] != 0x41 && code[2] != 0x45 && code[2] != 0x42),
{
}

/// The letter at position 3 of a code decides the underlying, one
/// letter for each value under ISO 10962 ('B' Baskets, 'S' Equities, 'D' Debt, 'T' Commodities, 'C' Currencies, 'I' Indices, 'O' Options, 'F' Futures, 'W' Swaps, 'N' InterestRates, 'M' Others), and any other
/// letter gives NA.
pub proof fn law_underlying_letters(code: Seq<u8>)
    ensures
        (spec_underlying(code) is Baskets) <==> code[3] == 0x42,  // 'B'
        (spec_underlying(code) is Equities) <==> code[3] == 0x53,  // 'S'
        (spec_underlying(code) is Debt) <==> code[3] == 0x44,  // 'D'
        (spec_underlying(code) is Commodities) <==> code[3] == 0x54,  // 'T'
        (spec_underlying(code) is Currencies) <==> code[3] == 0x43,  // 'C'
        (spec_underlying(code) is Indices) <==> code[3] == 0x49,  // 'I'
        (spec_underlying(code) is Options) <==> code[3] == 0x4F,  // 'O'
        (spec_underlying(code) is Futures) <==> code[3] == 0x46,  // 'F'
        (spec_underlying(code) is Swaps) <==> code[3] == 0x57,  // 'W'
        (spec_underlying(code) is InterestRates) <==> code[3] == 0x4E,  // 'N'
        (spec_underlying(code) is Others) <==> code[3] == 0x4D,  // 'M'
        (spec_underlying(code) is NA) <==> (code[3] != 0x42 && code[3] != 0x53 && code[3] != 0x44 && code[3] != 0x54 && code[3] != 0x43 && code[3] != 0x49 && code[3] != 0x4F && code[3] != 0x46 && code[3] != 0x57 && code[3] != 0x4E && code[3] != 0x4D),
{
}

/// The letter at position 4 of a code decides the delivery, one
/// letter for each value under ISO 10962 ('P' Physical, 'C' Cash, 'N' NonDeliverable, 'E' ElectAtExercise), and any other
/// letter gives NA.
pub proof fn law_delivery_letters(code: Seq<u8>)
    ensures
        (spec_delivery(code) is Physical) <==> code[4] == 0x50,  // 'P'
        (spec_delivery(code) is Cash) <==> code[4] == 0x43,  // 'C'
        (spec_delivery(code) is NonDeliverable) <==> code[4] == 0x4E,  // 'N'
        (spec_delivery(code) is ElectAtExercise) <==> code[4] == 0x45,  // 'E'
        (spec_delivery(code) is NA) <==> (code[4] != 0x50 && code[4] != 0x43 && code[4] != 0x4E && code[4] != 0x45),
{
}

/// The letter at position 5 of a code decides the standard, one
/// letter for each value under ISO 10962 ('S' Standard, 'N' NonStandard), and any other
/// letter gives NA.
pub proof fn law_standard_letters(code: Seq<u8>)
    ensures
        (spec_standard(code) is Standard) <==> code[5] == 0x53,  // 'S'
        (spec_standard(code) is NonStandard) <==> code[5] == 0x4E,  // 'N'
        (spec_standard(code) is NA) <==> (code[5] != 0x53 && code[5] != 0x4E),
{
}

/// The letter at position 1 of a code decides the class, one
/// letter for each value under ISO 10962 ('P' Put, 'C' Call, 'M' Other), and any other
/// letter gives NA.
pub proof fn law_class_letters(code: Seq<u8>)
    ensures
        (spec_class(code) is Put) <==> code[1] == 0x50,  // 'P'
        (spec_class(code) is Call) <==> code[1] == 0x43,  // 'C'
        (spec_class(code) is Other) <==> code[1] == 0x4D,  // 'M'
        (spec_class(code) is NA) <==> (code[1] != 0x50 && code[1] != 0x43 && code[1] != 0x4D),
{
}

} // verus!
