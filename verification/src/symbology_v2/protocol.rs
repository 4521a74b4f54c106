//! The updates by which a subscriber keeps its copy of the symbology in
//! step, and the requests of the symbology service.
use std::collections::BTreeMap;
use vstd::laws_cmp::obeys_cmp;
use crate::symbology::protocol::{apply_updates, law_updates_idempotent};
use crate::time::UtcTimestamp;
use vstd::prelude::*;

verus! {

#[derive(Debug, Clone, Copy, PartialEq, Eq, Structural)]
pub struct SubscribeSymbologyV2 {}

#[derive(Debug, Clone, Copy, PartialEq, Eq, Structural)]
pub struct UploadSymbologyV2Response {}

/// One-shot request to the symbol store to make it expire symbols.
#[derive(Debug, Clone, Copy, PartialEq, Eq, Structural)]
pub struct PruneExpiredSymbolsRequest {
    /// If None then it will just use server current time;
    /// otherwise, a unix timestamp in seconds.
    pub cutoff: Option<i64>,
}

impl PruneExpiredSymbolsRequest {
    /// A request with the cutoff's Unix time in seconds, if one is given.
    pub fn new(cutoff: Option<UtcTimestamp>) -> (r: Self)
        ensures
            r.cutoff == (match cutoff {
                Some(t) => Some(t.secs),
                None => None,
            }),
    {
        let cutoff = match cutoff {
            Some(t) => Some(t.secs),
            None => None,
        };
        PruneExpiredSymbolsRequest { cutoff }
    }
}

#[derive(Debug, Clone, Copy, PartialEq, Eq, Structural)]
pub struct PruneExpiredSymbolsResponse {}

/// Taking as many items as a sequence has gives the whole sequence.
proof fn lemma_take_whole<T>(s: Seq<T>)
    ensures
        s.take(s.len() as int) == s,
{
    assert(s.take(s.len() as int) =~= s);
}

/// One action of an update list: add (or replace) a symbol's info, or
/// remove the symbol.
#[derive(Debug, Clone)]
pub enum AddOrRemove<Symbol, Info> {
    Add { symbol: Symbol, info: Info },
    Remove { symbol: Symbol },
}

/// One action applied to a map.
pub open spec fn apply_action<Symbol, Info>(
    m: Map<Symbol, Info>,
    action: AddOrRemove<Symbol, Info>,
) -> Map<Symbol, Info> {
    match action {
        AddOrRemove::Add { symbol, info } => m.insert(symbol, info),
        AddOrRemove::Remove { symbol } => m.remove(symbol),
    }
}

/// The actions of an update list applied from first to last.
pub open spec fn apply_actions<Symbol, Info>(
    m: Map<Symbol, Info>,
    actions: Seq<AddOrRemove<Symbol, Info>>,
) -> Map<Symbol, Info>
    decreases actions.len(),
{
    if actions.len() == 0 {
        m
    } else {
        apply_action(apply_actions(m, actions.drop_last()), actions.last())
    }
}

/// A snapshot, or a list of add and remove actions.
#[derive(Debug, Clone)]
pub enum SnapshotOrUpdate<Symbol: Eq + Ord, Info> {
    Snapshot { snapshot: BTreeMap<Symbol, Info> },
    Update { updates: Vec<AddOrRemove<Symbol, Info>> },
}

impl<Symbol: Eq + Ord, Info> SnapshotOrUpdate<Symbol, Info> {
    /// What applying `self` makes of a map with view `m`.
    pub open spec fn spec_apply(self, m: Map<Symbol, Info>) -> Map<Symbol, Info> {
        match self {
            SnapshotOrUpdate::Snapshot { snapshot } => snapshot@,
            SnapshotOrUpdate::Update { updates } => apply_actions(m, updates@),
        }
    }

    /// Brings `map` up to date: a snapshot replaces it, an update adds and
    /// removes symbols in order.
    pub fn apply(self, map: &mut BTreeMap<Symbol, Info>)
        ensures
            obeys_cmp::<Symbol>() ==> final(map)@ == self.spec_apply(old(map)@),
    {
        match self {
            SnapshotOrUpdate::Snapshot { snapshot } => {
                *map = snapshot;
            },
            SnapshotOrUpdate::Update { updates } => {
                let ghost ups = updates@;
                let ghost start = map@;
                for action in it: updates.into_iter()
                    invariant
                        it.seq() == ups,
                        obeys_cmp::<Symbol>() ==> map@ == apply_actions(
                            start,
                            ups.take(it.index()),
                        ),
                {
                    proof {
                        assert(ups.take(it.index() + 1).drop_last() =~= ups.take(it.index()));
                    }
                    match action {
                        AddOrRemove::Add { symbol, info } => {
                            map.insert(symbol, info);
                        },
                        AddOrRemove::Remove { symbol } => {
                            map.remove(&symbol);
                        },
                    }
                }
                proof {
                    lemma_take_whole(ups);
                }
            },
        }
    }
}

/// One action on a map of maps keyed by symbol and venue: add an info, or
/// remove a symbol at one venue.
#[derive(Debug, Clone)]
pub enum AddOrRemove2<Symbol, Venue, Info> {
    Add { symbol: Symbol, info: Info },
    Remove { symbol: Symbol, venue: Venue },
}

/// A snapshot of a map of maps, or a list of actions on it.
#[derive(Debug, Clone)]
pub enum SnapshotOrUpdate2<Symbol: Eq + Ord, Venue: Eq + Ord, Info> {
    Snapshot { snapshot: BTreeMap<Symbol, BTreeMap<Venue, Info>> },
    Update { updates: Vec<AddOrRemove2<Symbol, Venue, Info>> },
}

/// An action as an update entry: an add sets the symbol, a remove removes it.
pub open spec fn action_entry<Symbol, Info>(a: AddOrRemove<Symbol, Info>) -> (Symbol, Option<Info>) {
    match a {
        AddOrRemove::Add { symbol, info } => (symbol, Some(info)),
        AddOrRemove::Remove { symbol } => (symbol, None),
    }
}

/// Applying actions is applying their update entries.
pub proof fn lemma_actions_are_updates<Symbol, Info>(
    m: Map<Symbol, Info>,
    actions: Seq<AddOrRemove<Symbol, Info>>,
)
    ensures
        apply_actions(m, actions) == apply_updates(
            m,
            actions.map_values(|a: AddOrRemove<Symbol, Info>| action_entry(a)),
        ),
    decreases actions.len(),
{
    let entries = actions.map_values(|a: AddOrRemove<Symbol, Info>| action_entry(a));
    if actions.len() > 0 {
        lemma_actions_are_updates(m, actions.drop_last());
        assert(entries.drop_last() =~= actions.drop_last().map_values(
            |a: AddOrRemove<Symbol, Info>| action_entry(a),
        ));
    }
}

/// Applying the same snapshot or action list a second time changes nothing.
pub proof fn law_apply_idempotent<Symbol: Eq + Ord, Info>(
    s: SnapshotOrUpdate<Symbol, Info>,
    m: Map<Symbol, Info>,
)
    ensures
        s.spec_apply(s.spec_apply(m)) == s.spec_apply(m),
{
    if let SnapshotOrUpdate::Update { updates } = s {
        let once = apply_actions(m, updates@);
        lemma_actions_are_updates(m, updates@);
        lemma_actions_are_updates(once, updates@);
        law_updates_idempotent(
            m,
            updates@.map_values(|a: AddOrRemove<Symbol, Info>| action_entry(a)),
        );
    }
}

} // verus!
