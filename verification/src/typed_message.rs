//! Topics of component messages, and messages that may come split in two.
use vstd::prelude::*;

verus! {

/// A topic a message may belong to.
#[derive(Debug, Clone, Copy, PartialEq, Eq, Structural, PartialOrd, Ord, Hash)]
pub enum MessageTopic {
    Orderflow,
    ExternalOrderflow,
}

impl MessageTopic {
    /// The topic's bit in a set of topics.
    pub fn bit(&self) -> (r: u64)
        ensures
            r == (match self {
                MessageTopic::Orderflow => 1u64,
                MessageTopic::ExternalOrderflow => 2u64,
            }),
    {
        match self {
            MessageTopic::Orderflow => 1,
            MessageTopic::ExternalOrderflow => 2,
        }
    }
}

/// A value alone, or a value together with the message it was split from.
#[derive(Debug, Clone)]
pub enum MaybeSplit<A, B> {
    Just(B),
    Split(A, B),
}

impl<A, B> MaybeSplit<A, B> {
    /// The rest of the message where there is one, and the value.
    pub fn parts(self) -> (r: (Option<A>, B))
        ensures
            r == (match self {
                MaybeSplit::Just(b) => (None, b),
                MaybeSplit::Split(a, b) => (Some(a), b),
            }),
    {
        match self {
            MaybeSplit::Just(b) => (None, b),
            MaybeSplit::Split(a, b) => (Some(a), b),
        }
    }
}

} // verus!
