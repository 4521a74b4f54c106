//! Venues: where marketdata comes from, and where orders are executed.
use vstd::prelude::*;
use vstd::std_specs::cmp::PartialEqSpec;

verus! {

/// A venue that provides marketdata, e.g. COINBASE, DATABENTO, XIGNITE, etc.
#[derive(Debug, Clone, Hash, Eq, PartialOrd, Ord)]
pub struct MarketdataVenue(String);

/// A venue that provides execution, e.g. CME, CBOE, NYSE, etc.
#[derive(Debug, Clone, Hash, Eq)]
pub struct ExecutionVenue(String);

impl View for MarketdataVenue {
    type V = Seq<char>;

    closed spec fn view(&self) -> Seq<char> {
        self.0@
    }
}

impl View for ExecutionVenue {
    type V = Seq<char>;

    closed spec fn view(&self) -> Seq<char> {
        self.0@
    }
}

impl MarketdataVenue {
    pub fn new(name: String) -> (r: Self)
        ensures
            r@ == name@,
    {
        Self(name)
    }

    /// The venue's name.
    pub fn as_str(&self) -> (r: &str)
        ensures
            r@ == self@,
    {
        self.0.as_str()
    }
}

impl ExecutionVenue {
    pub fn new(name: String) -> (r: Self)
        ensures
            r@ == name@,
    {
        Self(name)
    }

    /// The venue's name.
    pub fn as_str(&self) -> (r: &str)
        ensures
            r@ == self@,
    {
        self.0.as_str()
    }
}

/// Two marketdata venues are equal when their names are.
impl PartialEq for MarketdataVenue {
    fn eq(&self, other: &MarketdataVenue) -> (r: bool) {
        self.0 == other.0
    }
}

impl vstd::std_specs::cmp::PartialEqSpecImpl for MarketdataVenue {
    open spec fn obeys_eq_spec() -> bool {
        true
    }

    open spec fn eq_spec(&self, other: &MarketdataVenue) -> bool {
        self@ == other@
    }
}

/// Two execution venues are equal when their names are.
impl PartialEq for ExecutionVenue {
    fn eq(&self, other: &ExecutionVenue) -> (r: bool) {
        self.0 == other.0
    }
}

impl vstd::std_specs::cmp::PartialEqSpecImpl for ExecutionVenue {
    open spec fn obeys_eq_spec() -> bool {
        true
    }

    open spec fn eq_spec(&self, other: &ExecutionVenue) -> bool {
        self@ == other@
    }
}

/// A marketdata venue and an execution venue are equal when their names are.
impl PartialEq<ExecutionVenue> for MarketdataVenue {
    fn eq(&self, other: &ExecutionVenue) -> (r: bool) {
        self.0 == other.0
    }
}

impl vstd::std_specs::cmp::PartialEqSpecImpl<ExecutionVenue> for MarketdataVenue {
    open spec fn obeys_eq_spec() -> bool {
        true
    }

    open spec fn eq_spec(&self, other: &ExecutionVenue) -> bool {
        self@ == other@
    }
}

/// An execution venue and a marketdata venue are equal when their names are.
impl PartialEq<MarketdataVenue> for ExecutionVenue {
    fn eq(&self, other: &MarketdataVenue) -> (r: bool) {
        self.0 == other.0
    }
}

impl vstd::std_specs::cmp::PartialEqSpecImpl<MarketdataVenue> for ExecutionVenue {
    open spec fn obeys_eq_spec() -> bool {
        true
    }

    open spec fn eq_spec(&self, other: &MarketdataVenue) -> bool {
        self@ == other@
    }
}

/// Comparing a marketdata venue with an execution venue gives the same
/// answer in either order.
pub proof fn law_venue_eq_symmetric(m: MarketdataVenue, e: ExecutionVenue)
    ensures
        m.eq_spec(&e) == e.eq_spec(&m),
{
}

} // verus!
