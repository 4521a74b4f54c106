//! Errors of the constructors and parsers of this library.
use vstd::prelude::*;

verus! {

/// Why a name could not be built or a string could not be read.
#[derive(Debug, Clone, PartialEq, Eq)]
pub enum Error {
    /// A name or one of its parts holds the forward slash character '/',
    /// which separates the base and quote of a tradable product.
    ForwardSlash,
    /// The base product of a tradable product holds a '/'.
    SlashInBase,
    /// The quote product of a tradable product holds a '/'.
    SlashInQuote,
    /// A venue discriminant was given but is empty.
    EmptyVenueDiscriminant,
    /// A fiat product symbol holds whitespace.
    Whitespace,
    /// A tradable product symbol holds more than one forward slash.
    TooManySlashes,
    /// The string names no candle width.
    InvalidCandleWidth(String),
    /// The string is neither "P" nor "C".
    InvalidPutOrCall(String),
    /// The string is not a price display format.
    InvalidPriceDisplayFormat,
    /// A `CME_FRACTIONAL(..)` format without exactly three parts.
    InvalidCmeFractional,
    /// A part of a `CME_FRACTIONAL(..)` format is not a 32-bit integer.
    InvalidInteger(String),
    /// The text is not an order id.
    InvalidOrderId(String),
    /// A market order has no price to modify.
    MarketOrderPrice,
    /// A symbol does not have the form of an option of the series.
    SymbolFormat,
    /// An option symbol's expiration is not a date.
    InvalidDate,
    /// An expiration names no single instant in the series' time zone.
    ExpirationNotSingle,
    /// An option symbol's strike is not a decimal.
    InvalidDecimal,
    /// The series expects a venue discriminant that the symbol lacks.
    MissingVenueDiscriminant,
    /// The symbol's venue discriminant is not the series'.
    VenueDiscriminantMismatch,
    /// The series name does not end as the series' names do.
    InvalidOptionsSeriesName,
    /// An instant that `chrono` cannot hold.
    InvalidTimestamp,
    /// A spread leg's text is not a quantity, a space and a product.
    InvalidSpreadLeg,
    /// An exchange product without a space has no root.
    NoRoot(String),
}

} // verus!
