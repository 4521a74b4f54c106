//! Futures (CFI category F).
use vstd::prelude::*;

verus! {

#[derive(Debug, Clone, Copy, Hash, PartialEq, Eq, PartialOrd, Ord, Structural)]
pub enum FinancialUnderlying {
    Baskets,
    Equities,
    Debt,
    Currencies,
    Indices,
    Options,
    Futures,
    Swaps,
    InterestRates,
    StockDividends,
    Other,
    NA,
}

/// The financial underlying that the letter of the code says.
pub open spec fn spec_financial_underlying(code: Seq<u8>) -> FinancialUnderlying {
    if code[2] == 0x42 {
        FinancialUnderlying::Baskets
    } else if code[2] == 0x53 {
        FinancialUnderlying::Equities
    } else if code[2] == 0x44 {
        FinancialUnderlying::Debt
    } else if code[2] == 0x43 {
        FinancialUnderlying::Currencies
    } else if code[2] == 0x49 {
        FinancialUnderlying::Indices
    } else if code[2] == 0x4F {
        FinancialUnderlying::Options
    } else if code[2] == 0x46 {
        FinancialUnderlying::Futures
    } else if code[2] == 0x57 {
        FinancialUnderlying::Swaps
    } else if code[2] == 0x4E {
        FinancialUnderlying::InterestRates
    } else if code[2] == 0x56 {
        FinancialUnderlying::StockDividends
    } else if code[2] == 0x4D {
        FinancialUnderlying::Other
    } else {
        FinancialUnderlying::NA
    }
}

impl From<&[u8; 8]> for FinancialUnderlying {
    fn from(value: &[u8; 8]) -> (r: Self) {
        match value[2] {
            0x42 => Self::Baskets,  // 'B'
            0x53 => Self::Equities,  // 'S'
            0x44 => Self::Debt,  // 'D'
            0x43 => Self::Currencies,  // 'C'
            0x49 => Self::Indices,  // 'I'
            0x4F => Self::Options,  // 'O'
            0x46 => Self::Futures,  // 'F'
            0x57 => Self::Swaps,  // 'W'
            0x4E => Self::InterestRates,  // 'N'
            0x56 => Self::StockDividends,  // 'V'
            0x4D => Self::Other,  // 'M'
            _ => Self::NA,
        }
    }
}

impl vstd::std_specs::convert::FromSpecImpl<&[u8; 8]> for FinancialUnderlying {
    open spec fn obeys_from_spec() -> bool {
        true
    }

    open spec fn from_spec(value: &[u8; 8]) -> FinancialUnderlying {
        spec_financial_underlying(value@)
    }
}

#[derive(Debug, Clone, Copy, Hash, PartialEq, Eq, PartialOrd, Ord, Structural)]
pub enum CommodityUnderlying {
    ExtractionResources,
    Agriculture,
    IndustrialProducts,
    Services,
    Environmental,
    PolypropyleneProducts,
    GeneratedResources,
    Other,
    NA,
}

/// The commodity underlying that the letter of the code says.
pub open spec fn spec_commodity_underlying(code: Seq<u8>) -> CommodityUnderlying {
    if code[2] == 0x45 {
        CommodityUnderlying::ExtractionResources
    } else if code[2] == 0x41 {
        CommodityUnderlying::Agriculture
    } else if code[2] == 0x49 {
        CommodityUnderlying::IndustrialProducts
    } else if code[2] == 0x53 {
        CommodityUnderlying::Services
    } else if code[2] == 0x4E {
        CommodityUnderlying::Environmental
    } else if code[2] == 0x50 {
        CommodityUnderlying::PolypropyleneProducts
    } else if code[2] == 0x48 {
        CommodityUnderlying::GeneratedResources
    } else if code[2] == 0x4D {
        CommodityUnderlying::Other
    } else {
        CommodityUnderlying::NA
    }
}

impl From<&[u8; 8]> for CommodityUnderlying {
    fn from(value: &[u8; 8]) -> (r: Self) {
        match value[2] {
            0x45 => Self::ExtractionResources,  // 'E'
            0x41 => Self::Agriculture,  // 'A'
            0x49 => Self::IndustrialProducts,  // 'I'
            0x53 => Self::Services,  // 'S'
            0x4E => Self::Environmental,  // 'N'
            0x50 => Self::PolypropyleneProducts,  // 'P'
            0x48 => Self::GeneratedResources,  // 'H'
            0x4D => Self::Other,  // 'M'
            _ => Self::NA,
        }
    }
}

impl vstd::std_specs::convert::FromSpecImpl<&[u8; 8]> for CommodityUnderlying {
    open spec fn obeys_from_spec() -> bool {
        true
    }

    open spec fn from_spec(value: &[u8; 8]) -> CommodityUnderlying {
        spec_commodity_underlying(value@)
    }
}

#[derive(Debug, Clone, Copy, Hash, PartialEq, Eq, PartialOrd, Ord, Structural)]
pub enum Delivery {
    Physical,
    Cash,
    NonDeliverable,
    NA,
}

/// The delivery that the letter of the code says.
pub open spec fn spec_delivery(code: Seq<u8>) -> Delivery {
    if code[3] == 0x50 {
        Delivery::Physical
    } else if code[3] == 0x43 {
        Delivery::Cash
    } else if code[3] == 0x4E {
        Delivery::NonDeliverable
    } else {
        Delivery::NA
    }
}

impl From<&[u8; 8]> for Delivery {
    fn from(value: &[u8; 8]) -> (r: Self) {
        match value[3] {
            0x50 => Self::Physical,  // 'P'
            0x43 => Self::Cash,  // 'C'
            0x4E => Self::NonDeliverable,  // 'N'
            _ => Self::NA,
        }
    }
}

impl vstd::std_specs::convert::FromSpecImpl<&[u8; 8]> for Delivery {
    open spec fn obeys_from_spec() -> bool {
        true
    }

    open spec fn from_spec(value: &[u8; 8]) -> Delivery {
        spec_delivery(value@)
    }
}

#[derive(Debug, Clone, Copy, Hash, PartialEq, Eq, PartialOrd, Ord, Structural)]
pub enum Standard {
    Standardized,
    NonStandardized,
    NA,
}

/// The standard that the letter of the code says.
pub open spec fn spec_standard(code: Seq<u8>) -> Standard {
    if code[4] == 0x53 {
        Standard::Standardized
    } else if code[4] == 0x4E {
        Standard::NonStandardized
    } else {
        Standard::NA
    }
}

impl From<&[u8; 8]> for Standard {
    fn from(value: &[u8; 8]) -> (r: Self) {
        match value[4] {
            0x53 => Self::Standardized,  // 'S'
            0x4E => Self::NonStandardized,  // 'N'
            _ => Self::NA,
        }
    }
}

impl vstd::std_specs::convert::FromSpecImpl<&[u8; 8]> for Standard {
    open spec fn obeys_from_spec() -> bool {
        true
    }

    open spec fn from_spec(value: &[u8; 8]) -> Standard {
        spec_standard(value@)
    }
}

#[derive(Debug, Clone, Copy, Hash, PartialEq, Eq, PartialOrd, Ord, Structural)]
pub struct FinancialAttrs {
    pub underlying: FinancialUnderlying,
    pub delivery: Delivery,
    pub standard: Standard,
}

/// The attributes that the code letters stand for.
pub open spec fn spec_financial_attrs(code: Seq<u8>) -> FinancialAttrs {
    FinancialAttrs {
        underlying: spec_financial_underlying(code),
        delivery: spec_delivery(code),
        standard: spec_standard(code),
    }
}

impl From<&[u8; 8]> for FinancialAttrs {
    fn from(value: &[u8; 8]) -> (r: Self) {
        Self {
            underlying: FinancialUnderlying::from(value),
            delivery: Delivery::from(value),
            standard: Standard::from(value),
        }
    }
}

impl vstd::std_specs::convert::FromSpecImpl<&[u8; 8]> for FinancialAttrs {
    open spec fn obeys_from_spec() -> bool {
        true
    }

    open spec fn from_spec(value: &[u8; 8]) -> FinancialAttrs {
        spec_financial_attrs(value@)
    }
}

#[derive(Debug, Clone, Copy, Hash, PartialEq, Eq, PartialOrd, Ord, Structural)]
pub struct CommodityAttrs {
    pub underlying: CommodityUnderlying,
    pub delivery: Delivery,
    pub standard: Standard,
}

/// The attributes that the code letters stand for.
pub open spec fn spec_commodity_attrs(code: Seq<u8>) -> CommodityAttrs {
    CommodityAttrs {
        underlying: spec_commodity_underlying(code),
        delivery: spec_delivery(code),
        standard: spec_standard(code),
    }
}

impl From<&[u8; 8]> for CommodityAttrs {
    fn from(value: &[u8; 8]) -> (r: Self) {
        Self {
            underlying: CommodityUnderlying::from(value),
            delivery: Delivery::from(value),
            standard: Standard::from(value),
        }
    }
}

impl vstd::std_specs::convert::FromSpecImpl<&[u8; 8]> for CommodityAttrs {
    open spec fn obeys_from_spec() -> bool {
        true
    }

    open spec fn from_spec(value: &[u8; 8]) -> CommodityAttrs {
        spec_commodity_attrs(value@)
    }
}

#[derive(Debug, Clone, Copy, Hash, PartialEq, Eq, PartialOrd, Ord, Structural)]
pub enum Class {
    Financial(FinancialAttrs),
    Commodities(CommodityAttrs),
    NA,
}

/// The class that the letter of the code says.
pub open spec fn spec_class(code: Seq<u8>) -> Class {
    if code[1] == 0x46 {
        Class::Financial(spec_financial_attrs(code))
    } else if code[1] == 0x43 {
        Class::Commodities(spec_commodity_attrs(code))
    } else {
        Class::NA
    }
}

impl From<&[u8; 8]> for Class {
    fn from(value: &[u8; 8]) -> (r: Self) {
        match value[1] {
            0x46 => Self::Financial(FinancialAttrs::from(value)),  // 'F'
            0x43 => Self::Commodities(CommodityAttrs::from(value)),  // 'C'
            _ => Self::NA,
        }
    }
}

impl vstd::std_specs::convert::FromSpecImpl<&[u8; 8]> for Class {
    open spec fn obeys_from_spec() -> bool {
        true
    }

    open spec fn from_spec(value: &[u8; 8]) -> Class {
        spec_class(value@)
    }
}

/// The letter at position 2 of a code decides the financial underlying, one
/// letter for each value under ISO 10962 ('B' Baskets, 'S' Equities, 'D' Debt, 'C' Currencies, 'I' Indices, 'O' Options, 'F' Futures, 'W' Swaps, 'N' InterestRates, 'V' StockDividends, 'M' Other), and any other
/// letter gives NA.
pub proof fn law_financial_underlying_letters(code: Seq<u8>)
    ensures
        (spec_financial_underlying(code) is Baskets) <==> code[2] == 0x42,  // 'B'
        (spec_financial_underlying(code) is Equities) <==> code[2] == 0x53,  // 'S'
        (spec_financial_underlying(code) is Debt) <==> code[2] == 0x44,  // 'D'
        (spec_financial_underlying(code) is Currencies) <==> code[2] == 0x43,  // 'C'
        (spec_financial_underlying(code) is Indices) <==> code[2] == 0x49,  // 'I'
        (spec_financial_underlying(code) is Options) <==> code[2] == 0x4F,  // 'O'
        (spec_financial_underlying(code) is Futures) <==> code[2] == 0x46,  // 'F'
        (spec_financial_underlying(code) is Swaps) <==> code[2] == 0x57,  // 'W'
        (spec_financial_underlying(code) is InterestRates) <==> code[2] == 0x4E,  // 'N'
        (spec_financial_underlying(code) is StockDividends) <==> code[2] == 0x56,  // 'V'
        (spec_financial_underlying(code) is Other) <==> code[2] == 0x4D,  // 'M'
        (spec_financial_underlying(code) is NA) <==> (code[2] != 0x42 && code[2] != 0x53 && code[2] != 0x44 && code[2] != 0x43 && code[2] != 0x49 && code[2] != 0x4F && code[2] != 0x46 && code[2] != 0x57 && code[2] != 0x4E && code[2] != 0x56 && code[2] != 0x4D),
{
}

/// The letter at position 2 of a code decides the commodity underlying, one
/// letter for each value under ISO 10962 ('E' ExtractionResources, 'A' Agriculture, 'I' IndustrialProducts, 'S' Services, 'N' Environmental, 'P' PolypropyleneProducts, 'H' GeneratedResources, 'M' Other), and any other
/// letter gives NA.
pub proof fn law_commodity_underlying_letters(code: Seq<u8>)
    ensures
        (spec_commodity_underlying(code) is ExtractionResources) <==> code[2] == 0x45,  // 'E'
        (spec_commodity_underlying(code) is Agriculture) <==> code[2] == 0x41,  // 'A'
        (spec_commodity_underlying(code) is IndustrialProducts) <==> code[2] == 0x49,  // 'I'
        (spec_commodity_underlying(code) is Services) <==> code[2] == 0x53,  // 'S'
        (spec_commodity_underlying(code) is Environmental) <==> code[2] == 0x4E,  // 'N'
        (spec_commodity_underlying(code) is PolypropyleneProducts) <==> code[2] == 0x50,  // 'P'
        (spec_commodity_underlying(code) is GeneratedResources) <==> code[2] == 0x48,  // 'H'
        (spec_commodity_underlying(code) is Other) <==> code[2] == 0x4D,  // 'M'
        (spec_commodity_underlying(code) is NA) <==> (code[2] != 0x45 && code[2] != 0x41 && code[2] != 0x49 && code[2] != 0x53 && code[2] != 0x4E && code[2] != 0x50 && code[2] != 0x48 && code[2] != 0x4D),
{
}

/// The letter at position 3 of a code decides the delivery, one
/// letter for each value under ISO 10962 ('P' Physical, 'C' Cash, 'N' NonDeliverable), and any other
/// letter gives NA.
pub proof fn law_delivery_letters(code: Seq<u8>)
    ensures
        (spec_delivery(code) is Physical) <==> code[3] == 0x50,  // 'P'
        (spec_delivery(code) is Cash) <==> code[3] == 0x43,  // 'C'
        (spec_delivery(code) is NonDeliverable) <==> code[3] == 0x4E,  // 'N'
        (spec_delivery(code) is NA) <==> (code[3] != 0x50 && code[3] != 0x43 && code[3] != 0x4E),
{
}

/// The letter at position 4 of a code decides the standard, one
/// letter for each value under ISO 10962 ('S' Standardized, 'N' NonStandardized), and any other
/// letter gives NA.
pub proof fn law_standard_letters(code: Seq<u8>)
    ensures
        (spec_standard(code) is Standardized) <==> code[4] == 0x53,  // 'S'
        (spec_standard(code) is NonStandardized) <==> code[4] == 0x4E,  // 'N'
        (spec_standard(code) is NA) <==> (code[4] != 0x53 && code[4] != 0x4E),
{
}

/// The letter at position 1 of a code decides the class, one
/// letter for each value under ISO 10962 ('F' Financial, 'C' Commodities), and any other
/// letter gives NA.
pub proof fn law_class_letters(code: Seq<u8>)
    ensures
        (spec_class(code) is Financial) <==> code[1] == 0x46,  // 'F'
        (spec_class(code) is Commodities) <==> code[1] == 0x43,  // 'C'
        (spec_class(code) is NA) <==> (code[1] != 0x46 && code[1] != 0x43),
{
}

} // verus!
