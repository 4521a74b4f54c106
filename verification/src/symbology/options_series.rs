//! Options series: a family of options on one underlying, and the parts
//! that name one option of it.
use crate::error::Error;
use crate::decimal::Decimal;
use crate::decimal::{decimal_normal_text, decimal_parse, decimal_text_value, parts_decimal};
use crate::strings::{ends_with, is_single_char, owned, strip_suffix, trim, trim_end, trim_end_ws, trim_ws};
use crate::time::{UtcTimestamp, date_from_text, local_to_utc, parse_date, utc_calendar_date, utc_date, ymd_date, yyyymmdd_text, zoned_utc, NaiveDate, TimeOfDay};
use super::product::{spec_product_name, option_symbol, product_view, DerivativeKind, Product};
use super::tradable_product::{spec_tradable_name, tradable_view, TradableProduct};
use vstd::prelude::*;

verus! {

/// The name of an options series, e.g. "AAPL US Options".
#[derive(Debug, Clone, Hash, Eq, PartialOrd, Ord)]
pub struct OptionsSeries(String);

impl View for OptionsSeries {
    type V = Seq<char>;

    closed spec fn view(&self) -> Seq<char> {
        self.0@
    }
}

/// Two values are equal when their names are.
impl PartialEq for OptionsSeries {
    fn eq(&self, other: &OptionsSeries) -> (r: bool) {
        self.0 == other.0
    }
}

impl vstd::std_specs::cmp::PartialEqSpecImpl for OptionsSeries {
    open spec fn obeys_eq_spec() -> bool {
        true
    }

    open spec fn eq_spec(&self, other: &OptionsSeries) -> bool {
        self@ == other@
    }
}

impl OptionsSeries {
    pub(crate) fn new_unchecked(name: &str) -> (r: Self)
        ensures
            r@ == name@,
    {
        Self(owned(name))
    }

    /// Any string names a series.
    pub fn parse(s: &str) -> (r: Result<Self, Error>)
        ensures
            r matches Ok(v) && v@ == s@,
    {
        Ok(Self::new_unchecked(s))
    }

    /// The series' name.
    pub fn as_str(&self) -> (r: &str)
        ensures
            r@ == self@,
    {
        self.0.as_str()
    }
}

impl std::str::FromStr for OptionsSeries {
    type Err = Error;

    fn from_str(s: &str) -> (r: Result<Self, Error>)
        ensures
            r matches Ok(v) && v@ == s@,
    {
        Self::parse(s)
    }
}

/// What is known of an options series.
#[derive(Debug, Clone)]
pub struct OptionsSeriesInfo {
    pub options_series: OptionsSeries,
    pub venue_discriminant: Option<String>,
    pub quote_symbol: Product,
    pub underlying: Product,
    pub multiplier: Decimal,
    pub expiration_time_of_day: TimeOfDay,
    /// The name of the time zone expirations are given in, e.g.
    /// "America/Chicago".
    pub expiration_time_zone: String,
    /// The strikes listed for each expiration date: a sorted map from date
    /// to a sorted set of strikes (see `strikes_wf`).
    pub strikes_by_expiration: Vec<(NaiveDate, Vec<Decimal>)>,
    pub derivative_kind: DerivativeKind,
    pub exercise_type: OptionsExerciseType,
    pub is_cash_settled: bool,
}

/// Whether calendar date `a` comes before `b`.
pub open spec fn date_before(a: NaiveDate, b: NaiveDate) -> bool {
    ||| a.year < b.year
    ||| a.year == b.year && a.month < b.month
    ||| a.year == b.year && a.month == b.month && a.day < b.day
}

/// Strikes in strictly increasing order of value, so none occurs twice.
pub open spec fn strikes_sorted(strikes: Seq<Decimal>) -> bool {
    forall|i: int, j: int| 0 <= i < j < strikes.len() ==> strikes[i].units() < strikes[j].units()
}

impl OptionsSeriesInfo {
    /// The strikes form a map from expiration date to a set of strikes: the
    /// dates strictly increase, and so do the strikes of each date.
    pub open spec fn strikes_wf(&self) -> bool {
        let m = self.strikes_by_expiration@;
        &&& forall|i: int, j: int|
            0 <= i < j < m.len() ==> date_before(#[trigger] m[i].0, #[trigger] m[j].0)
        &&& forall|i: int| 0 <= i < m.len() ==> strikes_sorted((#[trigger] m[i]).1@)
    }
}

/// The groups a regular expression captures in a text, as the `regex`
/// crate finds the first match: the whole match first, then each group,
/// `None` for a group that took no part.  `None` where nothing matches.
pub uninterp spec fn regex_captures_of(pattern: Seq<char>, text: Seq<char>) -> Option<
    Seq<Option<Seq<char>>>,
>;

/// The views of a list of optional strings.
pub open spec fn opt_string_views(v: Seq<Option<String>>) -> Seq<Option<Seq<char>>> {
    v.map_values(|o: Option<String>| match o {
        Some(s) => Some(s@),
        None => None,
    })
}

/// `regex::Regex::new(pattern)` then `captures(text)`: the groups of the
/// first match.  The result is named.
#[verifier::external_body]
fn regex_captures(pattern: &str, text: &str) -> (r: Option<Vec<Option<String>>>)
    ensures
        match r {
            Some(v) => regex_captures_of(pattern@, text@) == Some(opt_string_views(v@)),
            None => regex_captures_of(pattern@, text@) is None,
        },
{
    let re = regex::Regex::new(pattern).ok()?;
    let caps = re.captures(text)?;
    Some(caps.iter().map(|m| m.map(|m| m.as_str().to_string())).collect())
}

/// The form of an option's symbol: a stem, an eight-digit expiration
/// date, a strike, P or C, an optional venue discriminant, then "Option".
pub open spec fn option_symbol_pattern() -> Seq<char> {
    "^([\\w\\s]+) (\\d{8}) ([\\d\\.]+) ([PC])( \\w*)? Option/?.*$"@
}

/// The format an option symbol's expiration date is read with.
pub open spec fn expiration_date_format() -> Seq<char> {
    "%Y%m%d"@
}

/// Group `i` of a list of captures, if it took part.
pub open spec fn group(caps: Seq<Option<Seq<char>>>, i: int) -> Option<Seq<char>> {
    if 0 <= i < caps.len() {
        caps[i]
    } else {
        None
    }
}

/// The instance an option symbol names, read with the series' time of day,
/// time zone and venue discriminant.
pub open spec fn spec_parse_instance(
    venue_discriminant: Option<Seq<char>>,
    time: TimeOfDay,
    zone: Seq<char>,
    symbol: Seq<char>,
) -> Result<OptionsSeriesInstance, Error> {
    match regex_captures_of(option_symbol_pattern(), symbol) {
        None => Err(Error::SymbolFormat),
        Some(caps) => match (group(caps, 2), group(caps, 3), group(caps, 4)) {
            (Some(date_text), Some(strike_text), Some(pc_text)) => match ymd_date(
                date_from_text(date_text, expiration_date_format()),
            ) {
                None => Err(Error::InvalidDate),
                Some(date) => match zoned_utc(
                    date.year as int,
                    date.month as int,
                    date.day as int,
                    time.secs as int,
                    time.nanos as int,
                    zone,
                ) {
                    None => Err(Error::ExpirationNotSingle),
                    Some(t) => match parts_decimal(decimal_text_value(strike_text)) {
                        None => Err(Error::InvalidDecimal),
                        Some(strike) => match spec_put_or_call(pc_text) {
                            None => Err(Error::SymbolFormat),
                            Some(put_or_call) => match venue_discriminant {
                                Some(expected) => match group(caps, 5) {
                                    None => Err(Error::MissingVenueDiscriminant),
                                    Some(v) => if trim_ws(v).len() == 0 || trim_ws(v)
                                        != expected {
                                        Err(Error::VenueDiscriminantMismatch)
                                    } else {
                                        Ok(
                                            OptionsSeriesInstance {
                                                expiration: UtcTimestamp {
                                                    secs: t.0 as i64,
                                                    nanos: t.1 as u32,
                                                },
                                                strike,
                                                put_or_call,
                                            },
                                        )
                                    },
                                },
                                None => Ok(
                                    OptionsSeriesInstance {
                                        expiration: UtcTimestamp {
                                            secs: t.0 as i64,
                                            nanos: t.1 as u32,
                                        },
                                        strike,
                                        put_or_call,
                                    },
                                ),
                            },
                        },
                    },
                },
            },
            _ => Err(Error::SymbolFormat),
        },
    }
}

/// The stem of a series' names: the series name without " Options", and
/// without the venue discriminant and the whitespace before it where the
/// series has one.
pub open spec fn series_stem(series: Seq<char>, venue_discriminant: Option<Seq<char>>) -> Option<
    Seq<char>,
> {
    if !ends_with(series, " Options"@) {
        None
    } else {
        let rest = series.take(series.len() - " Options"@.len());
        match venue_discriminant {
            Some(v) => if ends_with(rest, v) {
                Some(trim_end_ws(rest.take(rest.len() - v.len())))
            } else {
                None
            },
            None => Some(rest),
        }
    }
}

/// The view of an optional owned string.
pub open spec fn opt_owned_view(s: Option<String>) -> Option<Seq<char>> {
    match s {
        Some(v) => Some(v@),
        None => None,
    }
}

/// The name of the product an instance of a series stands for.
pub open spec fn spec_series_product(
    series: Seq<char>,
    venue_discriminant: Option<Seq<char>>,
    instance: OptionsSeriesInstance,
) -> Result<Seq<char>, Error> {
    match series_stem(series, venue_discriminant) {
        None => Err(Error::InvalidOptionsSeriesName),
        Some(stem) => match ymd_date(
            utc_calendar_date(instance.expiration.secs as int, instance.expiration.nanos as int),
        ) {
            None => Err(Error::InvalidTimestamp),
            Some(date) => spec_product_name(
                option_symbol(stem, date, instance.strike, instance.put_or_call),
                venue_discriminant,
                "Option"@,
            ),
        },
    }
}

impl OptionsSeriesInfo {
    /// The product an instance of this series stands for, e.g.
    /// "AAPL US 20241227 300 C Option" for the series "AAPL US Options".
    pub fn get_product(&self, instance: &OptionsSeriesInstance) -> (r: Result<Product, Error>)
        requires
            instance.strike.wf(),
        ensures
            product_view(r) == spec_series_product(
                self.options_series@,
                opt_owned_view(self.venue_discriminant),
                *instance,
            ),
    {
        let stem_and_venue_discriminant = match strip_suffix(
            self.options_series.as_str(),
            " Options",
        ) {
            Some(s) => s,
            None => {
                return Err(Error::InvalidOptionsSeriesName);
            },
        };
        let stem = match &self.venue_discriminant {
            Some(venue_discriminant) => match strip_suffix(
                stem_and_venue_discriminant,
                venue_discriminant.as_str(),
            ) {
                Some(s) => trim_end(s),
                None => {
                    return Err(Error::InvalidOptionsSeriesName);
                },
            },
            None => stem_and_venue_discriminant,
        };
        let expiration = match utc_date(instance.expiration) {
            Some(d) => d,
            None => {
                return Err(Error::InvalidTimestamp);
            },
        };
        let vd = match &self.venue_discriminant {
            Some(v) => Some(v.as_str()),
            None => None,
        };
        Product::option(stem, expiration, instance.strike, instance.put_or_call, vd)
    }

    /// The pair of the instance's product and the series' quote.
    pub fn get_tradable_product(&self, instance: &OptionsSeriesInstance) -> (r: Result<
        TradableProduct,
        Error,
    >)
        requires
            instance.strike.wf(),
        ensures
            tradable_view(r) == match spec_series_product(
                self.options_series@,
                opt_owned_view(self.venue_discriminant),
                *instance,
            ) {
                Ok(base) => spec_tradable_name(base, Some(self.quote_symbol@)),
                Err(e) => Err(e),
            },
    {
        let base = self.get_product(instance)?;
        TradableProduct::new(&base, Some(&self.quote_symbol))
    }

    /// Reads the instance an option symbol names, e.g.
    /// "AAPL US 20241227 300 C Option": the expiration date at the series'
    /// time of day in its time zone, the strike, and put or call.  Where
    /// the series has a venue discriminant the symbol must carry it.
    pub fn parse_instance(&self, symbol: &str) -> (r: Result<OptionsSeriesInstance, Error>)
        ensures
            r == spec_parse_instance(
                opt_owned_view(self.venue_discriminant),
                self.expiration_time_of_day,
                self.expiration_time_zone@,
                symbol@,
            ),
            r matches Ok(i) ==> i.strike.wf(),
    {
        let caps = match regex_captures(
            "^([\\w\\s]+) (\\d{8}) ([\\d\\.]+) ([PC])( \\w*)? Option/?.*$",
            symbol,
        ) {
            Some(c) => c,
            None => {
                return Err(Error::SymbolFormat);
            },
        };
        let date_text = capture(&caps, 2);
        let strike_text = capture(&caps, 3);
        let pc_text = capture(&caps, 4);
        if date_text.is_none() || strike_text.is_none() || pc_text.is_none() {
            return Err(Error::SymbolFormat);
        }
        let date_text = date_text.unwrap();
        let strike_text = strike_text.unwrap();
        let pc_text = pc_text.unwrap();
        let expiration_date = match parse_date(date_text, "%Y%m%d") {
            Some(d) => d,
            None => {
                return Err(Error::InvalidDate);
            },
        };
        let expiration = match local_to_utc(
            expiration_date,
            self.expiration_time_of_day,
            self.expiration_time_zone.as_str(),
        ) {
            Some(t) => t,
            None => {
                return Err(Error::ExpirationNotSingle);
            },
        };
        let strike = match decimal_parse(strike_text) {
            Some(k) => k,
            None => {
                return Err(Error::InvalidDecimal);
            },
        };
        let put_or_call = match PutOrCall::parse(pc_text) {
            Ok(p) => p,
            Err(_) => {
                return Err(Error::SymbolFormat);
            },
        };
        if let Some(expected_venue) = &self.venue_discriminant {
            let venue_match = match capture(&caps, 5) {
                Some(v) => v,
                None => {
                    return Err(Error::MissingVenueDiscriminant);
                },
            };
            let venue = trim(venue_match);
            if venue.unicode_len() == 0 || !crate::strings::str_eq(venue, expected_venue.as_str()) {
                return Err(Error::VenueDiscriminantMismatch);
            }
        }
        Ok(OptionsSeriesInstance { expiration, strike, put_or_call })
    }
}

/// Group `i` of a list of captures, if it took part.
fn capture(caps: &Vec<Option<String>>, i: usize) -> (r: Option<&str>)
    ensures
        match group(opt_string_views(caps@), i as int) {
            Some(g) => r matches Some(t) && t@ == g,
            None => r is None,
        },
{
    if i < caps.len() {
        match &caps[i] {
            Some(s) => Some(s.as_str()),
            None => None,
        }
    } else {
        None
    }
}

/// A specific option from a series.
#[derive(Debug, Clone, Copy)]
pub struct OptionsSeriesInstance {
    pub expiration: UtcTimestamp,
    pub strike: Decimal,
    pub put_or_call: PutOrCall,
}

/// Strikes from `start` to `end`, `stride` apart.
#[derive(Debug, Clone, Copy)]
pub struct OptionsStrikes {
    pub start: Decimal,
    pub end: Decimal,
    pub stride: Decimal,
}

#[derive(Debug, Clone, Copy, PartialEq, Eq, Structural)]
pub enum OptionsExerciseType {
    American,
    European,
    Unknown,
}

#[derive(Debug, Clone, Copy, PartialEq, Eq, Structural, Hash)]
pub enum PutOrCall {
    Put,
    Call,
}

/// The letter that stands for a put or a call.
pub open spec fn put_or_call_letter(p: PutOrCall) -> Seq<char> {
    match p {
        PutOrCall::Put => seq!['P'],
        PutOrCall::Call => seq!['C'],
    }
}

/// The put or call a string stands for, if any.
pub open spec fn spec_put_or_call(s: Seq<char>) -> Option<PutOrCall> {
    if s == seq!['P'] {
        Some(PutOrCall::Put)
    } else if s == seq!['C'] {
        Some(PutOrCall::Call)
    } else {
        None
    }
}

/// The one-letter strings "P" and "C" differ.
proof fn lemma_letters_differ()
    ensures
        seq!['P'] != seq!['C'],
{
    assert(seq!['P'][0] != seq!['C'][0]);
}

impl PutOrCall {
    /// "P" for a put, "C" for a call.
    pub fn to_string(&self) -> (r: String)
        ensures
            r@ == put_or_call_letter(*self),
    {
        let r = match self {
            PutOrCall::Put => String::from_str("P"),
            PutOrCall::Call => String::from_str("C"),
        };
        proof {
            reveal_strlit("P");
            reveal_strlit("C");
        }
        r
    }

    /// Reads "P" or "C"; any other string is refused.
    pub fn parse(s: &str) -> (r: Result<Self, Error>)
        ensures
            match spec_put_or_call(s@) {
                Some(p) => r == Ok::<PutOrCall, Error>(p),
                None => r matches Err(Error::InvalidPutOrCall(t)) && t@ == s@,
            },
    {
        proof {
            lemma_letters_differ();
        }
        if is_single_char(s, 'P') {
            Ok(PutOrCall::Put)
        } else if is_single_char(s, 'C') {
            Ok(PutOrCall::Call)
        } else {
            Err(Error::InvalidPutOrCall(owned(s)))
        }
    }
}

impl std::str::FromStr for PutOrCall {
    type Err = Error;

    fn from_str(s: &str) -> (r: Result<Self, Error>)
        ensures
            match spec_put_or_call(s@) {
                Some(p) => r == Ok::<PutOrCall, Error>(p),
                None => r matches Err(Error::InvalidPutOrCall(t)) && t@ == s@,
            },
    {
        Self::parse(s)
    }
}

/// Writing a put or call and reading it back gives it again.
pub proof fn law_put_or_call_round_trip(p: PutOrCall)
    ensures
        spec_put_or_call(put_or_call_letter(p)) == Some(p),
{
    lemma_letters_differ();
}

/// Reading back the product name of an instance of a series without a
/// venue discriminant gives the instance again (its strike by value), where
/// the outside readers undo the writers: the symbol pattern captures the
/// date, strike and put-or-call texts that were written, `chrono` reads the
/// written date back, the series' local expiration time of that date is the
/// instance's expiration, and `rust_decimal` reads the written strike back.
pub proof fn law_option_product_round_trip(
    series: Seq<char>,
    time: TimeOfDay,
    zone: Seq<char>,
    inst: OptionsSeriesInstance,
)
    requires
        spec_series_product(series, None, inst) is Ok,
        ({
            let text = spec_series_product(series, None, inst).unwrap();
            let date = ymd_date(
                utc_calendar_date(inst.expiration.secs as int, inst.expiration.nanos as int),
            ).unwrap();
            let strike_text = decimal_normal_text(
                inst.strike.mantissa as int,
                inst.strike.scale as int,
            );
            &&& regex_captures_of(option_symbol_pattern(), text) matches Some(caps) && group(caps, 2)
                == Some(yyyymmdd_text(date)) && group(caps, 3) == Some(strike_text) && group(caps, 4)
                == Some(put_or_call_letter(inst.put_or_call))
            &&& ymd_date(date_from_text(yyyymmdd_text(date), expiration_date_format())) == Some(date)
            &&& zoned_utc(
                date.year as int,
                date.month as int,
                date.day as int,
                time.secs as int,
                time.nanos as int,
                zone,
            ) == Some((inst.expiration.secs as int, inst.expiration.nanos as int))
            &&& parts_decimal(decimal_text_value(strike_text)) matches Some(d) && d.units()
                == inst.strike.units()
        }),
    ensures
        spec_parse_instance(None, time, zone, spec_series_product(series, None, inst).unwrap()) matches Ok(
            i,
        ) && i.expiration == inst.expiration && i.strike.units() == inst.strike.units()
            && i.put_or_call == inst.put_or_call,
{
    law_put_or_call_round_trip(inst.put_or_call);
}

} // verus!
