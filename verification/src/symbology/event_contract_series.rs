//! Some event contracts can be abbreviated as a series of products, in the
//! same way that options can.  Event contracts also have a notion of
//! outcome side: whether a contract represents the "Yes" or "No" side of
//! an outcome.
use crate::error::Error;
use crate::strings::{contains_char, join_space, owned, str_to_uppercase, to_uppercase};
use super::product::opt_view;
use crate::decimal::Decimal;
use crate::time::UtcTimestamp;
use vstd::prelude::*;

verus! {

/// The name of a series of event contracts.
#[derive(Debug, Clone, Hash, Eq, PartialOrd, Ord)]
pub struct EventContractSeries(String);

impl View for EventContractSeries {
    type V = Seq<char>;

    closed spec fn view(&self) -> Seq<char> {
        self.0@
    }
}

impl EventContractSeries {
    /// The series' name.
    pub fn as_str(&self) -> (r: &str)
        ensures
            r@ == self@,
    {
        self.0.as_str()
    }

    /// The series' name as an owned string.
    pub fn to_string(&self) -> (r: String)
        ensures
            r@ == self@,
    {
        self.0.clone()
    }
}

/// Two values are equal when their names are.
impl PartialEq for EventContractSeries {
    fn eq(&self, other: &EventContractSeries) -> (r: bool) {
        self.0 == other.0
    }
}

impl vstd::std_specs::cmp::PartialEqSpecImpl for EventContractSeries {
    open spec fn obeys_eq_spec() -> bool {
        true
    }

    open spec fn eq_spec(&self, other: &EventContractSeries) -> bool {
        self@ == other@
    }
}

/// The name `new` builds: the name, the upper-cased venue discriminant if
/// one is given, and "Event Contract Series", separated by spaces.  Neither
/// the name nor the discriminant may hold a '/', and a given discriminant
/// may not be empty.
pub open spec fn spec_series_name(name: Seq<char>, venue_discriminant: Option<Seq<char>>) -> Result<
    Seq<char>,
    Error,
> {
    if name.contains('/') || (venue_discriminant matches Some(v) && v.contains('/')) {
        Err(Error::ForwardSlash)
    } else {
        match venue_discriminant {
            Some(v) => if v.len() == 0 {
                Err(Error::EmptyVenueDiscriminant)
            } else {
                Ok(name + seq![' '] + str_to_uppercase(v) + seq![' '] + "Event Contract Series"@)
            },
            None => Ok(name + seq![' '] + "Event Contract Series"@),
        }
    }
}

/// The view of a built series name.
pub open spec fn series_view(r: Result<EventContractSeries, Error>) -> Result<Seq<char>, Error> {
    match r {
        Ok(s) => Ok(s@),
        Err(e) => Err(e),
    }
}

impl EventContractSeries {
    pub(crate) fn new_unchecked(name: &str) -> (r: Self)
        ensures
            r@ == name@,
    {
        Self(owned(name))
    }

    pub fn new(name: &str, venue_discriminant: Option<&str>) -> (r: Result<Self, Error>)
        ensures
            series_view(r) == spec_series_name(name@, opt_view(venue_discriminant)),
    {
        let vd_slash = match venue_discriminant {
            Some(v) => contains_char(v, '/'),
            None => false,
        };
        if contains_char(name, '/') || vd_slash {
            return Err(Error::ForwardSlash);
        }
        let inner = match venue_discriminant {
            Some(venue_discriminant) => {
                if venue_discriminant.unicode_len() == 0 {
                    return Err(Error::EmptyVenueDiscriminant);
                }
                let upper = to_uppercase(venue_discriminant);
                let head = join_space(name, upper.as_str());
                join_space(head.as_str(), "Event Contract Series")
            },
            None => join_space(name, "Event Contract Series"),
        };
        Ok(Self(inner))
    }

    /// Any string names a series.
    pub fn parse(s: &str) -> (r: Result<Self, Error>)
        ensures
            series_view(r) == Ok::<Seq<char>, Error>(s@),
    {
        Ok(Self::new_unchecked(s))
    }
}

impl std::str::FromStr for EventContractSeries {
    type Err = Error;

    fn from_str(s: &str) -> (r: Result<Self, Error>)
        ensures
            series_view(r) == Ok::<Seq<char>, Error>(s@),
    {
        Self::parse(s)
    }
}

/// One contract of a series: an outcome, or a strike with its expiration.
#[derive(Debug, Clone)]
pub enum EventContractSeriesInstance {
    Enumerated { outcome: Outcome },
    OptionLike { strike: Decimal, expiration: Option<UtcTimestamp> },
}

impl EventContractSeriesInstance {
    pub fn expiration(&self) -> (r: Option<UtcTimestamp>)
        ensures
            r == (match *self {
                EventContractSeriesInstance::Enumerated { .. } => None,
                EventContractSeriesInstance::OptionLike { expiration, .. } => expiration,
            }),
    {
        match self {
            EventContractSeriesInstance::Enumerated { .. } => None,
            EventContractSeriesInstance::OptionLike { expiration, .. } => *expiration,
        }
    }
}

/// One outcome of an enumerated series.
#[derive(Debug, Clone)]
pub struct Outcome {
    pub name: String,
}

/// Which side of an outcome a contract stands for.
#[derive(Debug, Clone, Copy, PartialEq, Eq, Structural)]
pub enum YesOrNo {
    Yes,
    No,
}

impl YesOrNo {
    /// The side's name, "yes" or "no".
    pub fn as_str(&self) -> (r: &'static str)
        ensures
            r@ == (match self {
                YesOrNo::Yes => "yes"@,
                YesOrNo::No => "no"@,
            }),
    {
        match self {
            YesOrNo::Yes => "yes",
            YesOrNo::No => "no",
        }
    }
}

} // verus!
