//! A tradable product describes a trading pair, e.g. BTC/USD.
//!
//! For products whose quote currency is unambiguous, it may be omitted.
use super::product::Product;
use crate::error::Error;
use crate::strings::{contains_char, count_char, count_occurrences, join_with, owned, split_once_char};
use crate::symbology::tradable_product::{spec_base, spec_quote, spec_tradable_name};
use vstd::prelude::*;

verus! {

/// A base product, and a quote product after a '/' where there is one.
#[derive(Debug, Clone, Eq, PartialOrd, Ord, Hash)]
pub struct TradableProduct(String);

impl View for TradableProduct {
    type V = Seq<char>;

    closed spec fn view(&self) -> Seq<char> {
        self.0@
    }
}

/// Two values are equal when their names are.
impl PartialEq for TradableProduct {
    fn eq(&self, other: &TradableProduct) -> (r: bool) {
        self.0 == other.0
    }
}

impl vstd::std_specs::cmp::PartialEqSpecImpl for TradableProduct {
    open spec fn obeys_eq_spec() -> bool {
        true
    }

    open spec fn eq_spec(&self, other: &TradableProduct) -> bool {
        self@ == other@
    }
}

/// The view of an optional product.
pub open spec fn opt_product_view(p: Option<&Product>) -> Option<Seq<char>> {
    match p {
        Some(p) => Some(p@),
        None => None,
    }
}

/// The view of an optional owned product.
pub open spec fn opt_owned_product_view(p: Option<Product>) -> Option<Seq<char>> {
    match p {
        Some(p) => Some(p@),
        None => None,
    }
}

/// The view of a built tradable product.
pub open spec fn tradable_view(r: Result<TradableProduct, Error>) -> Result<Seq<char>, Error> {
    match r {
        Ok(t) => Ok(t@),
        Err(e) => Err(e),
    }
}

impl TradableProduct {
    /// The pair `base/quote`, or `base` alone.
    pub fn new(base: &Product, quote: Option<&Product>) -> (r: Result<Self, Error>)
        ensures
            tradable_view(r) == spec_tradable_name(base@, opt_product_view(quote)),
    {
        if contains_char(base.as_str(), '/') {
            return Err(Error::SlashInBase);
        }
        match quote {
            Some(quote) => {
                if contains_char(quote.as_str(), '/') {
                    return Err(Error::SlashInQuote);
                }
                Ok(Self(join_with(base.as_str(), '/', quote.as_str())))
            },
            None => Ok(Self(owned(base.as_str()))),
        }
    }

    pub(crate) fn new_unchecked(symbol: &str) -> (r: Self)
        ensures
            r@ == symbol@,
    {
        Self(owned(symbol))
    }

    /// The base product.
    pub fn base(&self) -> (r: Product)
        ensures
            r@ == spec_base(self@),
    {
        match split_once_char(self.0.as_str(), '/') {
            Some(parts) => Product::new_unchecked(parts.0.as_str()),
            None => Product::new_unchecked(self.0.as_str()),
        }
    }

    /// The quote product, if the name has one.
    pub fn quote(&self) -> (r: Option<Product>)
        ensures
            opt_owned_product_view(r) == spec_quote(self@),
    {
        match split_once_char(self.0.as_str(), '/') {
            Some(parts) => Some(Product::new_unchecked(parts.1.as_str())),
            None => None,
        }
    }

    /// A tradable product name holds at most one '/'.
    pub fn parse(s: &str) -> (r: Result<Self, Error>)
        ensures
            tradable_view(r) == (if count_char(s@, '/') > 1 {
                Err(Error::TooManySlashes)
            } else {
                Ok(s@)
            }),
    {
        if count_occurrences(s, '/') > 1 {
            return Err(Error::TooManySlashes);
        }
        Ok(Self::new_unchecked(s))
    }
}

impl std::str::FromStr for TradableProduct {
    type Err = Error;

    fn from_str(s: &str) -> (r: Result<Self, Error>)
        ensures
            tradable_view(r) == (if count_char(s@, '/') > 1 {
                Err(Error::TooManySlashes)
            } else {
                Ok(s@)
            }),
    {
        Self::parse(s)
    }
}

} // verus!
