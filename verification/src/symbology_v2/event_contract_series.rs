//! Event contracts that can be abbreviated as a series of products.
use vstd::prelude::*;

verus! {

/// The name of a series of event contracts.
#[derive(Debug, Clone, Hash, Eq, PartialOrd, Ord)]
pub struct EventContractSeries(String);

impl View for EventContractSeries {
    type V = Seq<char>;

    closed spec fn view(&self) -> Seq<char> {
        self.0@
    }
}

impl EventContractSeries {
    /// The series' name.
    pub fn as_str(&self) -> (r: &str)
        ensures
            r@ == self@,
    {
        self.0.as_str()
    }

    /// The series' name as an owned string.
    pub fn to_string(&self) -> (r: String)
        ensures
            r@ == self@,
    {
        self.0.clone()
    }
}

/// Two values are equal when their names are.
impl PartialEq for EventContractSeries {
    fn eq(&self, other: &EventContractSeries) -> (r: bool) {
        self.0 == other.0
    }
}

impl vstd::std_specs::cmp::PartialEqSpecImpl for EventContractSeries {
    open spec fn obeys_eq_spec() -> bool {
        true
    }

    open spec fn eq_spec(&self, other: &EventContractSeries) -> bool {
        self@ == other@
    }
}

/// One outcome of an enumerated series.
#[derive(Debug, Clone)]
pub struct Outcome {
    pub name: String,
}

/// Which side of an outcome a contract stands for.
#[derive(Debug, Clone, Copy, PartialEq, Eq, Structural)]
pub enum YesOrNo {
    Yes,
    No,
}

} // verus!
