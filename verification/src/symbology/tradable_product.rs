//! A tradable product describes a trading pair, e.g. BTC/USD.
//!
//! For products whose quote currency is unambiguous, it may be omitted.
use super::product::Product;
use crate::error::Error;
use crate::strings::{
    lemma_count_char_absent, lemma_count_char_concat,
    contains_char, count_char, count_occurrences, join_with, owned, split_once, split_once_char,
};
use vstd::prelude::*;

verus! {

/// A base product, and a quote product after a '/' where there is one.
#[derive(Debug, Clone, Eq, PartialOrd, Ord, Hash)]
pub struct TradableProduct(pub String);

impl View for TradableProduct {
    type V = Seq<char>;

    open spec fn view(&self) -> Seq<char> {
        self.0@
    }
}

/// Two values are equal when their names are.
impl PartialEq for TradableProduct {
    fn eq(&self, other: &TradableProduct) -> (r: bool) {
        self.0 == other.0
    }
}

impl vstd::std_specs::cmp::PartialEqSpecImpl for TradableProduct {
    open spec fn obeys_eq_spec() -> bool {
        true
    }

    open spec fn eq_spec(&self, other: &TradableProduct) -> bool {
        self@ == other@
    }
}

/// The name `new` builds: the base, then '/' and the quote where one is
/// given.  Neither part may hold a '/'.
pub open spec fn spec_tradable_name(base: Seq<char>, quote: Option<Seq<char>>) -> Result<
    Seq<char>,
    Error,
> {
    if base.contains('/') {
        Err(Error::SlashInBase)
    } else {
        match quote {
            Some(q) => if q.contains('/') {
                Err(Error::SlashInQuote)
            } else {
                Ok(base + seq!['/'] + q)
            },
            None => Ok(base),
        }
    }
}

/// The base part of a tradable product name: what comes before the first
/// '/', or the whole name.
pub open spec fn spec_base(s: Seq<char>) -> Seq<char> {
    match split_once(s, '/') {
        Some(parts) => parts.0,
        None => s,
    }
}

/// The quote part of a tradable product name: what comes after the first
/// '/', if there is one.
pub open spec fn spec_quote(s: Seq<char>) -> Option<Seq<char>> {
    match split_once(s, '/') {
        Some(parts) => Some(parts.1),
        None => None,
    }
}

/// The view of an optional product.
pub open spec fn opt_product_view(p: Option<&Product>) -> Option<Seq<char>> {
    match p {
        Some(p) => Some(p@),
        None => None,
    }
}

/// The view of a built tradable product.
pub open spec fn tradable_view(r: Result<TradableProduct, Error>) -> Result<Seq<char>, Error> {
    match r {
        Ok(t) => Ok(t@),
        Err(e) => Err(e),
    }
}

impl TradableProduct {
    /// The pair `base/quote`, or `base` alone.
    pub fn new(base: &Product, quote: Option<&Product>) -> (r: Result<Self, Error>)
        ensures
            tradable_view(r) == spec_tradable_name(base@, opt_product_view(quote)),
    {
        if contains_char(base.0.as_str(), '/') {
            return Err(Error::SlashInBase);
        }
        match quote {
            Some(quote) => {
                if contains_char(quote.0.as_str(), '/') {
                    return Err(Error::SlashInQuote);
                }
                Ok(Self(join_with(base.0.as_str(), '/', quote.0.as_str())))
            },
            None => Ok(Self(owned(base.0.as_str()))),
        }
    }

    /// The base product.
    pub fn base(&self) -> (r: Product)
        ensures
            r@ == spec_base(self@),
    {
        match split_once_char(self.0.as_str(), '/') {
            Some(parts) => Product(parts.0),
            None => Product(owned(self.0.as_str())),
        }
    }

    /// The quote product, if the name has one.
    pub fn quote(&self) -> (r: Option<Product>)
        ensures
            opt_owned_product_view(r) == spec_quote(self@),
    {
        match split_once_char(self.0.as_str(), '/') {
            Some(parts) => Some(Product(parts.1)),
            None => None,
        }
    }

    /// A tradable product name holds at most one '/'.
    pub fn parse(s: &str) -> (r: Result<Self, Error>)
        ensures
            tradable_view(r) == (if count_char(s@, '/') > 1 {
                Err(Error::TooManySlashes)
            } else {
                Ok(s@)
            }),
    {
        if count_occurrences(s, '/') > 1 {
            return Err(Error::TooManySlashes);
        }
        Ok(Self(owned(s)))
    }
}

/// The view of an optional owned product.
pub open spec fn opt_owned_product_view(p: Option<Product>) -> Option<Seq<char>> {
    match p {
        Some(p) => Some(p@),
        None => None,
    }
}

impl std::str::FromStr for TradableProduct {
    type Err = Error;

    fn from_str(s: &str) -> (r: Result<Self, Error>)
        ensures
            tradable_view(r) == (if count_char(s@, '/') > 1 {
                Err(Error::TooManySlashes)
            } else {
                Ok(s@)
            }),
    {
        Self::parse(s)
    }
}

/// What is known of a tradable product: its quote.
#[derive(Debug, Clone)]
pub struct TradableProductInfo {
    pub quote: Product,
}

/// A product built from its parts and split again gives the parts back.
pub proof fn law_base_quote_round_trip(base: Seq<char>, quote: Option<Seq<char>>)
    requires
        spec_tradable_name(base, quote) is Ok,
    ensures
        spec_base(spec_tradable_name(base, quote)->Ok_0) == base,
        spec_quote(spec_tradable_name(base, quote)->Ok_0) == quote,
{
    let name = spec_tradable_name(base, quote)->Ok_0;
    match quote {
        Some(q) => {
            assert(name[base.len() as int] == '/');
            assert forall|j: int| 0 <= j < base.len() implies name[j] != '/' by {
                assert(name[j] == base[j]);
            }
            crate::strings::lemma_find_char_bound(name, '/', base.len() as int);
            assert(name.subrange(0, base.len() as int) =~= base);
            assert(name.subrange(base.len() + 1int, name.len() as int) =~= q);
        },
        None => {
            crate::strings::lemma_find_char_absent(name, '/');
        },
    }
}

/// A tradable product built from its parts holds at most one '/', so
/// reading its name back succeeds.
pub proof fn law_built_name_reads_back(base: Seq<char>, quote: Option<Seq<char>>)
    requires
        spec_tradable_name(base, quote) is Ok,
    ensures
        count_char(spec_tradable_name(base, quote)->Ok_0, '/') <= 1,
{
    lemma_count_char_absent(base, '/');
    match quote {
        Some(q) => {
            lemma_count_char_absent(q, '/');
            lemma_count_char_absent(Seq::<char>::empty(), '/');
            lemma_count_char_concat(base, seq!['/'], '/');
            lemma_count_char_concat(base + seq!['/'], q, '/');
            assert(seq!['/'].drop_last() =~= Seq::<char>::empty());
        },
        None => {},
    }
}

} // verus!
