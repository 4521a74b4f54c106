//! A product is a thing you can have a position in.
use crate::error::Error;
use crate::strings::{char_is_whitespace, contains_char, contains_whitespace, join_space, owned, to_uppercase};
use crate::symbology::product::{opt_view, spec_product_name};
use vstd::prelude::*;

verus! {

/// The name of a product, e.g. "BTC Crypto".
#[derive(Debug, Clone, Eq, PartialOrd, Ord, Hash)]
pub struct Product(String);

impl View for Product {
    type V = Seq<char>;

    closed spec fn view(&self) -> Seq<char> {
        self.0@
    }
}

/// Two values are equal when their names are.
impl PartialEq for Product {
    fn eq(&self, other: &Product) -> (r: bool) {
        self.0 == other.0
    }
}

impl vstd::std_specs::cmp::PartialEqSpecImpl for Product {
    open spec fn obeys_eq_spec() -> bool {
        true
    }

    open spec fn eq_spec(&self, other: &Product) -> bool {
        self@ == other@
    }
}

/// The view of a product built by a constructor.
pub open spec fn product_view(r: Result<Product, Error>) -> Result<Seq<char>, Error> {
    match r {
        Ok(p) => Ok(p@),
        Err(e) => Err(e),
    }
}

impl Product {
    fn try_new(name: &str, venue_discriminant: Option<&str>, product_kind: &str) -> (r: Result<
        Self,
        Error,
    >)
        ensures
            product_view(r) == spec_product_name(name@, opt_view(venue_discriminant), product_kind@),
    {
        let vd_slash = match venue_discriminant {
            Some(v) => contains_char(v, '/'),
            None => false,
        };
        if contains_char(name, '/') || vd_slash || contains_char(product_kind, '/') {
            return Err(Error::ForwardSlash);
        }
        let inner = match venue_discriminant {
            Some(venue_discriminant) => {
                if venue_discriminant.unicode_len() == 0 {
                    return Err(Error::EmptyVenueDiscriminant);
                }
                let upper = to_uppercase(venue_discriminant);
                let head = join_space(name, upper.as_str());
                join_space(head.as_str(), product_kind)
            },
            None => join_space(name, product_kind),
        };
        Ok(Self(inner))
    }

    pub(crate) fn new_unchecked(name: &str) -> (r: Self)
        ensures
            r@ == name@,
    {
        Self(owned(name))
    }

    /// The product's name.
    pub fn as_str(&self) -> (r: &str)
        ensures
            r@ == self@,
    {
        self.0.as_str()
    }

    /// A fiat currency, named by its bare symbol, e.g. "USD".
    pub fn fiat(name: &str) -> (r: Result<Self, Error>)
        ensures
            product_view(r) == (if exists|i: int|
                0 <= i < name@.len() && char_is_whitespace(#[trigger] name@[i]) {
                Err(Error::Whitespace)
            } else if name@.contains('/') {
                Err(Error::ForwardSlash)
            } else {
                Ok(name@)
            }),
    {
        if contains_whitespace(name) {
            return Err(Error::Whitespace);
        }
        if contains_char(name, '/') {
            return Err(Error::ForwardSlash);
        }
        Ok(Self(owned(name)))
    }

    pub fn crypto(name: &str) -> (r: Result<Self, Error>)
        ensures
            product_view(r) == spec_product_name(name@, None, "Crypto"@),
    {
        Self::try_new(name, None, "Crypto")
    }

    pub fn perpetual(name: &str, venue_discriminant: Option<&str>) -> (r: Result<Self, Error>)
        ensures
            product_view(r) == spec_product_name(name@, opt_view(venue_discriminant), "Perpetual"@),
    {
        Self::try_new(name, venue_discriminant, "Perpetual")
    }

    pub fn index(name: &str, venue_discriminant: Option<&str>) -> (r: Result<Self, Error>)
        ensures
            product_view(r) == spec_product_name(name@, opt_view(venue_discriminant), "Index"@),
    {
        Self::try_new(name, venue_discriminant, "Index")
    }
}

} // verus!
