//! A product is a thing you can have a position in.
use crate::decimal::Decimal;
use crate::error::Error;
use crate::decimal::{
    decimal_normal_text, decimal_normalized_to_string, decimal_parse, decimal_text,
    decimal_text_value, decimal_to_string, parts_decimal,
};
use crate::time::{format_yyyymmdd, timestamp_le, yyyymmdd_text, NaiveDate, UtcTimestamp};
use super::options_series::{put_or_call_letter, PutOrCall};
use super::event_contract_series::{EventContractSeries, EventContractSeriesInstance};
use super::options_series::{OptionsSeries, OptionsSeriesInstance};
use crate::numfmt::{
    format_i32, law_i32_text_round_trip, lemma_signed_text_chars, parse_i32, signed_text,
    spec_parse_i32,
};
use crate::strings::{
    char_is_whitespace, contains_char, split_once, split_once_char, contains_whitespace, join_space, owned, push_char,
    lemma_split_all_first, lemma_split_all_none, lemma_trim_trailing_other, rest_trimmed,
    split_all, split_char, starts_with, str_to_uppercase, to_uppercase, trim_trailing,
    join_parts, join_strings, join_strs, push_str, str_views, string_views,
};
use vstd::prelude::*;

verus! {

/// The name of a product, e.g. "BTC Crypto" or "ES 20241220 CME Future".
#[derive(Debug, Clone, Eq, PartialOrd, Ord, Hash)]
pub struct Product(pub String);

impl View for Product {
    type V = Seq<char>;

    open spec fn view(&self) -> Seq<char> {
        self.0@
    }
}

/// Two values are equal when their names are.
impl PartialEq for Product {
    fn eq(&self, other: &Product) -> (r: bool) {
        self.0 == other.0
    }
}

impl vstd::std_specs::cmp::PartialEqSpecImpl for Product {
    open spec fn obeys_eq_spec() -> bool {
        true
    }

    open spec fn eq_spec(&self, other: &Product) -> bool {
        self@ == other@
    }
}

/// The name `new` builds: the symbol, the upper-cased venue discriminant
/// if one is given, and the product kind, separated by spaces.  No part may
/// hold a '/', and a given discriminant may not be empty.
pub open spec fn spec_product_name(
    symbol: Seq<char>,
    venue_discriminant: Option<Seq<char>>,
    product_kind: Seq<char>,
) -> Result<Seq<char>, Error> {
    if symbol.contains('/') || (venue_discriminant matches Some(v) && v.contains('/'))
        || product_kind.contains('/') {
        Err(Error::ForwardSlash)
    } else {
        match venue_discriminant {
            Some(v) => if v.len() == 0 {
                Err(Error::EmptyVenueDiscriminant)
            } else {
                Ok(symbol + seq![' '] + str_to_uppercase(v) + seq![' '] + product_kind)
            },
            None => Ok(symbol + seq![' '] + product_kind),
        }
    }
}

/// How `rust_decimal` writes each decimal of a list.
pub open spec fn decimal_texts(ds: Seq<Decimal>) -> Seq<Seq<char>> {
    ds.map_values(|d: Decimal| decimal_text(d.mantissa as int, d.scale as int))
}

/// The symbol part of an option's name: the stem, the expiration date, the
/// strike without trailing zeros, and P or C, separated by spaces.
pub open spec fn option_symbol(
    stem: Seq<char>,
    expiration: NaiveDate,
    strike: Decimal,
    put_or_call: PutOrCall,
) -> Seq<char> {
    stem + seq![' '] + yyyymmdd_text(expiration) + seq![' '] + decimal_normal_text(
        strike.mantissa as int,
        strike.scale as int,
    ) + seq![' '] + put_or_call_letter(put_or_call)
}

/// The view of an optional string.
pub open spec fn opt_view(s: Option<&str>) -> Option<Seq<char>> {
    match s {
        Some(v) => Some(v@),
        None => None,
    }
}

/// The view of a product built by a constructor.
pub open spec fn product_view(r: Result<Product, Error>) -> Result<Seq<char>, Error> {
    match r {
        Ok(p) => Ok(p@),
        Err(e) => Err(e),
    }
}

impl Product {
    fn new(symbol: &str, venue_discriminant: Option<&str>, product_kind: &str) -> (r: Result<
        Self,
        Error,
    >)
        ensures
            product_view(r) == spec_product_name(symbol@, opt_view(venue_discriminant), product_kind@),
    {
        let vd_slash = match venue_discriminant {
            Some(v) => contains_char(v, '/'),
            None => false,
        };
        if contains_char(symbol, '/') || vd_slash || contains_char(product_kind, '/') {
            return Err(Error::ForwardSlash);
        }
        let inner = match venue_discriminant {
            Some(venue_discriminant) => {
                if venue_discriminant.unicode_len() == 0 {
                    return Err(Error::EmptyVenueDiscriminant);
                }
                let upper = to_uppercase(venue_discriminant);
                let head = join_space(symbol, upper.as_str());
                join_space(head.as_str(), product_kind)
            },
            None => join_space(symbol, product_kind),
        };
        Ok(Self(inner))
    }

    /// A fiat currency, named by its bare symbol, e.g. "USD".
    pub fn fiat(symbol: &str) -> (r: Result<Self, Error>)
        ensures
            product_view(r) == (if exists|i: int|
                0 <= i < symbol@.len() && char_is_whitespace(#[trigger] symbol@[i]) {
                Err(Error::Whitespace)
            } else if symbol@.contains('/') {
                Err(Error::ForwardSlash)
            } else {
                Ok(symbol@)
            }),
    {
        if contains_whitespace(symbol) {
            return Err(Error::Whitespace);
        }
        if contains_char(symbol, '/') {
            return Err(Error::ForwardSlash);
        }
        Ok(Self(owned(symbol)))
    }

    pub fn commodity(symbol: &str) -> (r: Result<Self, Error>)
        ensures
            product_view(r) == spec_product_name(symbol@, None, "Commodity"@),
    {
        Self::new(symbol, None, "Commodity")
    }

    pub fn crypto(symbol: &str) -> (r: Result<Self, Error>)
        ensures
            product_view(r) == spec_product_name(symbol@, None, "Crypto"@),
    {
        Self::new(symbol, None, "Crypto")
    }

    pub fn index(symbol: &str, venue_discriminant: Option<&str>) -> (r: Result<Self, Error>)
        ensures
            product_view(r) == spec_product_name(symbol@, opt_view(venue_discriminant), "Index"@),
    {
        Self::new(symbol, venue_discriminant, "Index")
    }

    /// An equity, named by its symbol and country, e.g. "AAPL US Equity".
    pub fn equity(symbol: &str, country: &str) -> (r: Result<Self, Error>)
        ensures
            product_view(r) == spec_product_name(
                symbol@ + seq![' '] + country@,
                None,
                "Equity"@,
            ),
    {
        let symbol = join_space(symbol, country);
        Self::new(symbol.as_str(), None, "Equity")
    }

    /// A future, named by its symbol and expiration date, e.g.
    /// "ES 20241220 CME Future".
    pub fn future(symbol: &str, expiration: NaiveDate, venue_discriminant: Option<&str>) -> (r:
        Result<Self, Error>)
        requires
            1 <= expiration.month <= 12,
            1 <= expiration.day <= 31,
        ensures
            product_view(r) == spec_product_name(
                symbol@ + seq![' '] + yyyymmdd_text(expiration),
                opt_view(venue_discriminant),
                "Future"@,
            ),
    {
        let date = format_yyyymmdd(expiration);
        let symbol = join_space(symbol, date.as_str());
        Self::new(symbol.as_str(), venue_discriminant, "Future")
    }

    /// A futures spread: the legs joined by '-', the leg ratios joined by
    /// ':' where given, and the expiration date, e.g.
    /// "ESZ4-ESH5 1:1 20241220 CME Futures Spread".
    pub fn futures_spread(
        legs: &[&str],
        ratios: Option<&[Decimal]>,
        expiration: NaiveDate,
        venue_discriminant: Option<&str>,
    ) -> (r: Result<Self, Error>)
        requires
            1 <= expiration.month <= 12,
            1 <= expiration.day <= 31,
            ratios matches Some(rs) ==> forall|i: int| 0 <= i < rs@.len() ==> (#[trigger] rs@[i]).wf(),
        ensures
            product_view(r) == spec_product_name(
                match ratios {
                    Some(rs) => join_parts(str_views(legs@), "-"@) + seq![' '] + join_parts(
                        decimal_texts(rs@),
                        ":"@,
                    ) + seq![' '] + yyyymmdd_text(expiration),
                    None => join_parts(str_views(legs@), "-"@) + seq![' '] + yyyymmdd_text(
                        expiration,
                    ),
                },
                opt_view(venue_discriminant),
                "Futures Spread"@,
            ),
    {
        let legs_str = join_strs(legs, "-");
        let expiration_str = format_yyyymmdd(expiration);
        let symbol = match ratios {
            Some(rs) => {
                let mut texts: Vec<String> = Vec::new();
                let mut i: usize = 0;
                while i < rs.len()
                    invariant
                        i <= rs@.len(),
                        forall|j: int| 0 <= j < rs@.len() ==> (#[trigger] rs@[j]).wf(),
                        string_views(texts@) == decimal_texts(rs@.take(i as int)),
                    decreases rs.len() - i,
                {
                    proof {
                        assert(rs@.take(i + 1).drop_last() =~= rs@.take(i as int));
                    }
                    let t = decimal_to_string(rs[i]);
                    let ghost before = string_views(texts@);
                    texts.push(t);
                    proof {
                        assert(string_views(texts@) =~= before.push(t@));
                    }
                    i += 1;
                }
                proof {
                    assert(rs@.take(rs@.len() as int) =~= rs@);
                }
                let ratios_str = join_strings(&texts, ":");
                let head = join_space(legs_str.as_str(), ratios_str.as_str());
                join_space(head.as_str(), expiration_str.as_str())
            },
            None => join_space(legs_str.as_str(), expiration_str.as_str()),
        };
        Self::new(symbol.as_str(), venue_discriminant, "Futures Spread")
    }

    /// An option, e.g. "AAPL US 20241227 300 C Option": the stem, the
    /// expiration date, the strike without trailing zeros, and P or C.
    pub fn option(
        stem: &str,
        expiration: NaiveDate,
        strike: Decimal,
        put_or_call: PutOrCall,
        venue_discriminant: Option<&str>,
    ) -> (r: Result<Self, Error>)
        requires
            1 <= expiration.month <= 12,
            1 <= expiration.day <= 31,
            strike.wf(),
        ensures
            product_view(r) == spec_product_name(
                option_symbol(stem@, expiration, strike, put_or_call),
                opt_view(venue_discriminant),
                "Option"@,
            ),
    {
        let mut symbol = String::from_str(stem);
        push_char(&mut symbol, ' ');
        let date = format_yyyymmdd(expiration);
        push_str(&mut symbol, date.as_str());
        push_char(&mut symbol, ' ');
        let k = decimal_normalized_to_string(strike);
        push_str(&mut symbol, k.as_str());
        push_char(&mut symbol, ' ');
        let pc = put_or_call.to_string();
        push_str(&mut symbol, pc.as_str());
        assert(symbol@ =~= option_symbol(stem@, expiration, strike, put_or_call));
        Self::new(symbol.as_str(), venue_discriminant, "Option")
    }

    pub fn perpetual(symbol: &str, venue_discriminant: Option<&str>) -> (r: Result<Self, Error>)
        ensures
            product_view(r) == spec_product_name(
                symbol@,
                opt_view(venue_discriminant),
                "Perpetual"@,
            ),
    {
        Self::new(symbol, venue_discriminant, "Perpetual")
    }
}

impl Product {
    /// A product name may be anything without a '/'.
    pub fn parse(s: &str) -> (r: Result<Self, Error>)
        ensures
            product_view(r) == (if s@.contains('/') {
                Err(Error::ForwardSlash)
            } else {
                Ok(s@)
            }),
    {
        if contains_char(s, '/') {
            return Err(Error::ForwardSlash);
        }
        Ok(Self(owned(s)))
    }
}

impl std::str::FromStr for Product {
    type Err = Error;

    fn from_str(s: &str) -> (r: Result<Self, Error>)
        ensures
            product_view(r) == (if s@.contains('/') {
                Err(Error::ForwardSlash)
            } else {
                Ok(s@)
            }),
    {
        Self::parse(s)
    }
}

/// What is known of a product: its kind, where it mainly trades, and how
/// its prices are shown.
#[derive(Debug, Clone)]
pub struct ProductInfo {
    pub product_type: ProductType,
    pub primary_venue: Option<String>,
    pub price_display_format: Option<PriceDisplayFormat>,
}

/// The kind of a product, with what is particular to it.
#[derive(Debug, Clone)]
pub enum ProductType {
    Fiat,
    Commodity,
    Crypto,
    Equity { easy_to_borrow: Option<bool> },
    Index,
    Future {
        series: Option<String>,
        underlying: Option<Product>,
        multiplier: Decimal,
        expiration: UtcTimestamp,
        derivative_kind: DerivativeKind,
        first_notice_date: Option<NaiveDate>,
    },
    FutureSpread { legs: Vec<SpreadLeg> },
    Perpetual { underlying: Option<Product>, multiplier: Decimal, derivative_kind: DerivativeKind },
    Option { series: OptionsSeries, instance: OptionsSeriesInstance },
    EventContract { series: EventContractSeries, instance: EventContractSeriesInstance },
    Unknown,
}

/// One leg of a spread: a product and the quantity of it that one unit
/// of the spread holds.
#[derive(Debug, Clone)]
pub struct SpreadLeg {
    pub product: Product,
    /// Some spreads have different ratios for their legs, like buy 1 A, sell 2 B, buy 1 C;
    /// We would represent that with quantities in the legs: 1, -2, 1
    pub quantity: Decimal,
}

/// The text of a spread leg: the quantity, with a '+' where it is
/// positive, a space, and the product.
pub open spec fn spread_leg_text(leg: SpreadLeg) -> Seq<char> {
    let q = decimal_text(leg.quantity.mantissa as int, leg.quantity.scale as int);
    if leg.quantity.mantissa > 0 {
        seq!['+'] + q + seq![' '] + leg.product@
    } else {
        q + seq![' '] + leg.product@
    }
}

impl SpreadLeg {
    /// The leg as text, e.g. "+1 ESZ4 CME Future" or "-2 ESH5 CME Future".
    pub fn to_string(&self) -> (r: String)
        requires
            self.quantity.wf(),
        ensures
            r@ == spread_leg_text(*self),
    {
        let q = decimal_to_string(self.quantity);
        let mut out = String::new();
        if self.quantity.mantissa > 0 {
            push_char(&mut out, '+');
        }
        push_str(&mut out, q.as_str());
        push_char(&mut out, ' ');
        push_str(&mut out, self.product.0.as_str());
        out
    }

    /// Reads a leg: a quantity, a space, then the product.
    pub fn parse(s: &str) -> (r: Result<Self, Error>)
        ensures
            match split_once(s@, ' ') {
                None => r == Err::<SpreadLeg, Error>(Error::InvalidSpreadLeg),
                Some(parts) => if parts.1.contains('/') {
                    r == Err::<SpreadLeg, Error>(Error::ForwardSlash)
                } else {
                    match parts_decimal(decimal_text_value(parts.0)) {
                        None => r == Err::<SpreadLeg, Error>(Error::InvalidDecimal),
                        Some(q) => r matches Ok(leg) && leg.product@ == parts.1 && leg.quantity
                            == q,
                    }
                },
            },
    {
        let parts = match split_once_char(s, ' ') {
            Some(p) => p,
            None => {
                return Err(Error::InvalidSpreadLeg);
            },
        };
        let product = Product::parse(parts.1.as_str())?;
        let quantity = match decimal_parse(parts.0.as_str()) {
            Some(q) => q,
            None => {
                return Err(Error::InvalidDecimal);
            },
        };
        Ok(SpreadLeg { product, quantity })
    }
}

impl std::str::FromStr for SpreadLeg {
    type Err = Error;

    fn from_str(s: &str) -> (r: Result<Self, Error>)
        ensures
            match split_once(s@, ' ') {
                None => r == Err::<SpreadLeg, Error>(Error::InvalidSpreadLeg),
                Some(parts) => if parts.1.contains('/') {
                    r == Err::<SpreadLeg, Error>(Error::ForwardSlash)
                } else {
                    match parts_decimal(decimal_text_value(parts.0)) {
                        None => r == Err::<SpreadLeg, Error>(Error::InvalidDecimal),
                        Some(q) => r matches Ok(leg) && leg.product@ == parts.1 && leg.quantity
                            == q,
                    }
                },
            },
    {
        Self::parse(s)
    }
}

/// When a product expires, if it does: a future or an option at its
/// expiration, an event contract where its instance has one.
pub open spec fn spec_expiration(t: ProductType) -> Option<UtcTimestamp> {
    match t {
        ProductType::Option { instance, .. } => Some(instance.expiration),
        ProductType::EventContract { instance, .. } => match instance {
            EventContractSeriesInstance::Enumerated { .. } => None,
            EventContractSeriesInstance::OptionLike { expiration, .. } => expiration,
        },
        ProductType::Future { expiration, .. } => Some(expiration),
        _ => None,
    }
}

impl ProductInfo {
    /// The series of a future, if it names one.
    pub fn series(&self) -> (r: Option<&str>)
        ensures
            match self.product_type {
                ProductType::Future { series, .. } => match series {
                    Some(s) => r matches Some(t) && t@ == s@,
                    None => r is None,
                },
                _ => r is None,
            },
    {
        match &self.product_type {
            ProductType::Future { series, .. } => match series {
                Some(s) => Some(s.as_str()),
                None => None,
            },
            _ => None,
        }
    }

    /// The contract multiplier of a future or perpetual.
    pub fn multiplier(&self) -> (r: Option<Decimal>)
        ensures
            r == (match self.product_type {
                ProductType::Perpetual { multiplier, .. } => Some(multiplier),
                ProductType::Future { multiplier, .. } => Some(multiplier),
                _ => None,
            }),
    {
        match &self.product_type {
            ProductType::Crypto | ProductType::Fiat | ProductType::Equity { .. }
            | ProductType::Index | ProductType::Commodity | ProductType::Unknown
            | ProductType::Option { .. } | ProductType::EventContract { .. }
            | ProductType::FutureSpread { .. } => None,
            ProductType::Perpetual { multiplier, .. } => Some(*multiplier),
            ProductType::Future { multiplier, .. } => Some(*multiplier),
        }
    }

    /// The underlying of a future or perpetual, if it names one.
    pub fn underlying(&self) -> (r: Option<&Product>)
        ensures
            r == (match self.product_type {
                ProductType::Perpetual { underlying, .. } => match underlying {
                    Some(u) => Some(&u),
                    None => None,
                },
                ProductType::Future { underlying, .. } => match underlying {
                    Some(u) => Some(&u),
                    None => None,
                },
                _ => None,
            }),
    {
        match &self.product_type {
            ProductType::Crypto | ProductType::Fiat | ProductType::Equity { .. }
            | ProductType::Index | ProductType::Commodity | ProductType::Unknown
            | ProductType::Option { .. } | ProductType::EventContract { .. }
            | ProductType::FutureSpread { .. } => None,
            ProductType::Perpetual { underlying, .. } => match underlying {
                Some(u) => Some(u),
                None => None,
            },
            ProductType::Future { underlying, .. } => match underlying {
                Some(u) => Some(u),
                None => None,
            },
        }
    }

    /// When the product expires, if it does.
    pub fn expiration(&self) -> (r: Option<UtcTimestamp>)
        ensures
            r == spec_expiration(self.product_type),
    {
        match &self.product_type {
            ProductType::Crypto | ProductType::Fiat | ProductType::Equity { .. }
            | ProductType::Index | ProductType::Commodity | ProductType::Unknown
            | ProductType::Perpetual { .. } | ProductType::FutureSpread { .. } => None,
            ProductType::Option { instance, .. } => Some(instance.expiration),
            ProductType::EventContract { instance, .. } => instance.expiration(),
            ProductType::Future { expiration, .. } => Some(*expiration),
        }
    }

    /// Whether the product expires at or before `cutoff`.
    pub fn is_expired(&self, cutoff: UtcTimestamp) -> (r: bool)
        ensures
            r == (match spec_expiration(self.product_type) {
                Some(e) => timestamp_le(e, cutoff),
                None => false,
            }),
    {
        match self.expiration() {
            Some(expiration) => expiration.le(&cutoff),
            None => false,
        }
    }

    /// How a future or perpetual settles.
    pub fn derivative_kind(&self) -> (r: Option<DerivativeKind>)
        ensures
            r == (match self.product_type {
                ProductType::Future { derivative_kind, .. } => Some(derivative_kind),
                ProductType::Perpetual { derivative_kind, .. } => Some(derivative_kind),
                _ => None,
            }),
    {
        match &self.product_type {
            ProductType::Future { derivative_kind, .. } => Some(*derivative_kind),
            ProductType::Perpetual { derivative_kind, .. } => Some(*derivative_kind),
            _ => None,
        }
    }

    /// The first notice date of a future, if known.
    pub fn first_notice_date(&self) -> (r: Option<NaiveDate>)
        ensures
            r == (match self.product_type {
                ProductType::Future { first_notice_date, .. } => first_notice_date,
                _ => None,
            }),
    {
        match &self.product_type {
            ProductType::Future { first_notice_date, .. } => *first_notice_date,
            _ => None,
        }
    }

    /// Whether an equity is easy to borrow, if known.
    pub fn easy_to_borrow(&self) -> (r: Option<bool>)
        ensures
            r == (match self.product_type {
                ProductType::Equity { easy_to_borrow } => easy_to_borrow,
                _ => None,
            }),
    {
        match &self.product_type {
            ProductType::Equity { easy_to_borrow } => *easy_to_borrow,
            _ => None,
        }
    }
}

/// A product that expires is expired at every cutoff from its expiration
/// on, and one that never expires is never expired.
pub proof fn law_expired_stays_expired(t: ProductType, c1: UtcTimestamp, c2: UtcTimestamp)
    requires
        timestamp_le(c1, c2),
    ensures
        (match spec_expiration(t) {
            Some(e) => timestamp_le(e, c1),
            None => false,
        }) ==> (match spec_expiration(t) {
            Some(e) => timestamp_le(e, c2),
            None => false,
        }),
{
}

#[derive(Debug, Copy, Clone, PartialEq, Eq, Structural)]
pub enum DerivativeKind {
    /// Normal futures
    Linear,
    /// Futures settled in the base currency
    Inverse,
    /// Quote currency different from settle currency
    Quanto,
}

#[derive(Debug, Clone, Copy, PartialEq, Eq, PartialOrd, Ord, Hash)]
pub enum AliasKind {
    CmeGlobex,
    Cfe,
}

#[derive(Debug, Clone, Copy, PartialEq, Eq, Structural)]
pub enum PriceDisplayFormat {
    CmeFractional {
        main_fraction: i32,
        sub_fraction: i32,  // 0 if no subfraction
        tick_decimals: i32,  // number of decimals to the right of the tick mark
    },
}

impl PriceDisplayFormat {
    pub fn main_fraction(&self) -> (r: Option<i32>)
        ensures
            r == Some(self->main_fraction),
    {
        match self {
            Self::CmeFractional { main_fraction, .. } => Some(*main_fraction),
        }
    }

    pub fn tick_decimals(&self) -> (r: Option<i32>)
        ensures
            r == Some(self->tick_decimals),
    {
        match self {
            Self::CmeFractional { tick_decimals, .. } => Some(*tick_decimals),
        }
    }
}

/// The text before the three numbers of a CME fractional format.
pub open spec fn cme_prefix() -> Seq<char> {
    "CME_FRACTIONAL("@
}

/// The three parts of a CME fractional format's text: what follows the
/// prefix, without the closing brackets, split at the commas.
pub open spec fn cme_parts(s: Seq<char>) -> Seq<Seq<char>> {
    split_all(trim_trailing(s.skip(cme_prefix().len() as int), ')'), ',')
}

/// The text `to_string` writes for a format.
pub open spec fn spec_display_format_text(f: PriceDisplayFormat) -> Seq<char> {
    match f {
        PriceDisplayFormat::CmeFractional { main_fraction, sub_fraction, tick_decimals } =>
            cme_prefix() + signed_text(main_fraction as int) + seq![','] + signed_text(
            sub_fraction as int) + seq![','] + signed_text(tick_decimals as int) + seq![')'],
    }
}

/// What reading a format's text gives.  The text must start with
/// "CME_FRACTIONAL("; what follows, without the closing brackets, must be
/// three 32-bit integers separated by commas.  The first part that is not
/// an integer is named in the error.
pub open spec fn spec_parse_display_format(s: Seq<char>) -> Result<PriceDisplayFormat, Seq<char>> {
    if !(cme_prefix().len() <= s.len() && s.take(cme_prefix().len() as int) == cme_prefix()) {
        Err(Seq::empty())
    } else {
        let parts = cme_parts(s);
        if parts.len() != 3 {
            Err(Seq::empty())
        } else if spec_parse_i32(parts[0]) is None {
            Err(parts[0])
        } else if spec_parse_i32(parts[1]) is None {
            Err(parts[1])
        } else if spec_parse_i32(parts[2]) is None {
            Err(parts[2])
        } else {
            Ok(
                PriceDisplayFormat::CmeFractional {
                    main_fraction: spec_parse_i32(parts[0])->Some_0,
                    sub_fraction: spec_parse_i32(parts[1])->Some_0,
                    tick_decimals: spec_parse_i32(parts[2])->Some_0,
                },
            )
        }
    }
}

impl PriceDisplayFormat {
    /// The format as text, e.g. "CME_FRACTIONAL(32,4,1)".
    pub fn to_string(&self) -> (r: String)
        ensures
            r@ == spec_display_format_text(*self),
    {
        match self {
            PriceDisplayFormat::CmeFractional { main_fraction, sub_fraction, tick_decimals } => {
                let mut out = String::from_str("CME_FRACTIONAL(");
                let a = format_i32(*main_fraction);
                out.append(a.as_str());
                push_char(&mut out, ',');
                let b = format_i32(*sub_fraction);
                out.append(b.as_str());
                push_char(&mut out, ',');
                let c = format_i32(*tick_decimals);
                out.append(c.as_str());
                push_char(&mut out, ')');
                proof {
                    reveal_strlit("CME_FRACTIONAL(");
                }
                out
            },
        }
    }

    /// Reads a format from its text.
    pub fn parse(s: &str) -> (r: Result<Self, Error>)
        ensures
            if !(cme_prefix().len() <= s@.len() && s@.take(cme_prefix().len() as int)
                == cme_prefix()) {
                r == Err::<PriceDisplayFormat, Error>(Error::InvalidPriceDisplayFormat)
            } else if cme_parts(s@).len() != 3 {
                r == Err::<PriceDisplayFormat, Error>(Error::InvalidCmeFractional)
            } else {
                match spec_parse_display_format(s@) {
                    Ok(f) => r == Ok::<PriceDisplayFormat, Error>(f),
                    Err(part) => r matches Err(Error::InvalidInteger(t)) && t@ == part,
                }
            },
    {
        proof {
            reveal_strlit("CME_FRACTIONAL(");
        }
        if !starts_with(s, "CME_FRACTIONAL(") {
            return Err(Error::InvalidPriceDisplayFormat);
        }
        let body = rest_trimmed(s, 15, ')');
        let parts = split_char(body.as_str(), ',');
        if parts.len() != 3 {
            return Err(Error::InvalidCmeFractional);
        }
        let main_fraction = match parse_i32(parts[0].as_str()) {
            Some(v) => v,
            None => {
                return Err(Error::InvalidInteger(owned(parts[0].as_str())));
            },
        };
        let sub_fraction = match parse_i32(parts[1].as_str()) {
            Some(v) => v,
            None => {
                return Err(Error::InvalidInteger(owned(parts[1].as_str())));
            },
        };
        let tick_decimals = match parse_i32(parts[2].as_str()) {
            Some(v) => v,
            None => {
                return Err(Error::InvalidInteger(owned(parts[2].as_str())));
            },
        };
        Ok(PriceDisplayFormat::CmeFractional { main_fraction, sub_fraction, tick_decimals })
    }
}

impl std::str::FromStr for PriceDisplayFormat {
    type Err = Error;

    fn from_str(s: &str) -> (r: Result<Self, Error>)
        ensures
            if !(cme_prefix().len() <= s@.len() && s@.take(cme_prefix().len() as int)
                == cme_prefix()) {
                r == Err::<PriceDisplayFormat, Error>(Error::InvalidPriceDisplayFormat)
            } else if cme_parts(s@).len() != 3 {
                r == Err::<PriceDisplayFormat, Error>(Error::InvalidCmeFractional)
            } else {
                match spec_parse_display_format(s@) {
                    Ok(f) => r == Ok::<PriceDisplayFormat, Error>(f),
                    Err(part) => r matches Err(Error::InvalidInteger(t)) && t@ == part,
                }
            },
    {
        Self::parse(s)
    }
}

/// The text of a number holds neither a comma nor a closing bracket.
proof fn lemma_signed_text_plain(n: int)
    ensures
        !signed_text(n).contains(','),
        !signed_text(n).contains(')'),
        signed_text(n).len() > 0,
        signed_text(n).last() != ')',
{
    lemma_signed_text_chars(n);
    let t = signed_text(n);
    assert(forall|i: int| 0 <= i < t.len() ==> #[trigger] t[i] != ',' && t[i] != ')') by {
        assert forall|i: int| 0 <= i < t.len() implies #[trigger] t[i] != ',' && t[i] != ')' by {
            assert(crate::numfmt::is_digit(t[i]) || t[i] == '-');
        }
    }
}

/// A format written as text and read back gives the format again.
#[verifier::spinoff_prover]
#[verifier::rlimit(40)]
pub proof fn law_display_format_round_trip(f: PriceDisplayFormat)
    ensures
        spec_parse_display_format(spec_display_format_text(f)) == Ok::<
            PriceDisplayFormat,
            Seq<char>,
        >(f),
{
    reveal_strlit("CME_FRACTIONAL(");
    match f {
        PriceDisplayFormat::CmeFractional { main_fraction, sub_fraction, tick_decimals } => {
            let a = signed_text(main_fraction as int);
            let b = signed_text(sub_fraction as int);
            let c = signed_text(tick_decimals as int);
            lemma_signed_text_plain(main_fraction as int);
            lemma_signed_text_plain(sub_fraction as int);
            lemma_signed_text_plain(tick_decimals as int);
            let text = spec_display_format_text(f);
            assert(text.take(cme_prefix().len() as int) =~= cme_prefix());
            let body = a + seq![','] + (b + seq![','] + c);
            assert(text.skip(cme_prefix().len() as int) =~= body + seq![')']);
            assert((body + seq![')']).drop_last() =~= body);
            assert(body.last() == c.last());
            lemma_trim_trailing_other(body, ')');
            lemma_split_all_first(a, b + seq![','] + c, ',');
            lemma_split_all_first(b, c, ',');
            lemma_split_all_none(c, ',');
            assert(cme_parts(text) =~= seq![a, b, c]);
            law_i32_text_round_trip(main_fraction);
            law_i32_text_round_trip(sub_fraction);
            law_i32_text_round_trip(tick_decimals);
        },
    }
}

} // verus!
