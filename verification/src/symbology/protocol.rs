//! Requests of the symbology service, and the snapshots and updates by
//! which a subscriber keeps its copy of the symbology in step.
use std::collections::BTreeMap;
use vstd::laws_cmp::obeys_cmp;
use crate::time::UtcTimestamp;
use vstd::prelude::*;

verus! {

/// List all symbols.
#[derive(Debug, Clone, Copy, PartialEq, Eq, Structural)]
pub struct SymbolsRequest {}

#[derive(Debug, Clone, PartialEq, Eq)]
pub struct SymbolsResponse {
    pub symbols: Vec<String>,
}

#[derive(Debug, Clone, Copy, PartialEq, Eq, Structural)]
pub struct SymbologyRequest {}

#[derive(Debug, Clone, Copy, PartialEq, Eq, Structural)]
pub struct SubscribeSymbology {}

#[derive(Debug, Clone, Copy, PartialEq, Eq, Structural)]
pub struct UploadSymbologyResponse {}

/// One-shot request to the symbol store to make it expire symbols.
#[derive(Debug, Clone, Copy, PartialEq, Eq, Structural)]
pub struct PruneExpiredSymbolsRequest {
    /// If None then it will just use server current time;
    /// otherwise, a unix timestamp in seconds.
    pub cutoff: Option<i64>,
}

impl PruneExpiredSymbolsRequest {
    /// A request with the cutoff's Unix time in seconds, if one is given.
    pub fn new(cutoff: Option<UtcTimestamp>) -> (r: Self)
        ensures
            r.cutoff == (match cutoff {
                Some(t) => Some(t.secs),
                None => None,
            }),
    {
        let cutoff = match cutoff {
            Some(t) => Some(t.secs),
            None => None,
        };
        PruneExpiredSymbolsRequest { cutoff }
    }
}

#[derive(Debug, Clone, Copy, PartialEq, Eq, Structural)]
pub struct PruneExpiredSymbolsResponse {}

/// A snapshot replaces a map; an update sets (`Some`) or removes (`None`)
/// keys in order.
#[derive(Debug, Clone)]
pub enum SnapshotOrUpdate<K: Eq + Ord, V> {
    Snapshot { snapshot: BTreeMap<K, V> },
    Update { updates: Vec<(K, Option<V>)> },
}

/// One update entry: a value sets the key, `None` removes it.
pub open spec fn apply_entry<K, V>(m: Map<K, V>, k: K, v: Option<V>) -> Map<K, V> {
    match v {
        Some(v) => m.insert(k, v),
        None => m.remove(k),
    }
}

/// The entries of an update list applied from first to last.
pub open spec fn apply_updates<K, V>(m: Map<K, V>, updates: Seq<(K, Option<V>)>) -> Map<K, V>
    decreases updates.len(),
{
    if updates.len() == 0 {
        m
    } else {
        let last = updates.last();
        apply_entry(apply_updates(m, updates.drop_last()), last.0, last.1)
    }
}

/// The inner map stored under `k`, or the empty map where there is none.
pub open spec fn inner_or_empty<K0, K1, V>(m: Map<K0, Map<K1, V>>, k: K0) -> Map<K1, V> {
    if m.contains_key(k) {
        m[k]
    } else {
        Map::empty()
    }
}

/// A map of maps, each inner map taken by its view.
pub open spec fn nested_view<K0, K1, V>(m: Map<K0, BTreeMap<K1, V>>) -> Map<K0, Map<K1, V>> {
    m.map_values(|b: BTreeMap<K1, V>| b@)
}

/// One entry of a nested update list: a snapshot or update applied to the
/// inner map under `k` (the empty map where there is none), or `None`,
/// which removes `k`.
pub open spec fn apply_nested_entry<K0: Eq + Ord, K1: Eq + Ord, V>(
    m: Map<K0, Map<K1, V>>,
    k: K0,
    t: Option<SnapshotOrUpdate<K1, V>>,
) -> Map<K0, Map<K1, V>> {
    match t {
        Some(t) => m.insert(k, t.spec_apply(inner_or_empty(m, k))),
        None => m.remove(k),
    }
}

/// The entries of a nested update list applied from first to last.
pub open spec fn apply_nested_updates<K0: Eq + Ord, K1: Eq + Ord, V>(
    m: Map<K0, Map<K1, V>>,
    updates: Seq<(K0, Option<SnapshotOrUpdate<K1, V>>)>,
) -> Map<K0, Map<K1, V>>
    decreases updates.len(),
{
    if updates.len() == 0 {
        m
    } else {
        let last = updates.last();
        apply_nested_entry(apply_nested_updates(m, updates.drop_last()), last.0, last.1)
    }
}

/// Taking as many items as a sequence has gives the whole sequence.
proof fn lemma_take_whole<T>(s: Seq<T>)
    ensures
        s.take(s.len() as int) == s,
{
    assert(s.take(s.len() as int) =~= s);
}

/// `BTreeMap::pop_first`: takes an entry out of the map.
/// Stated: the length drops by one when an entry comes out; the entry was
/// in the map and its key is gone afterwards, all other keys kept (where
/// the key type obeys the order laws); `None` comes only from an empty map,
/// which is left as it was.  Left unsaid: that the key taken is the least
/// one, which no caller here relies on.
#[verifier::external_body]
fn btree_pop_first<K: Ord, V>(m: &mut BTreeMap<K, V>) -> (r: Option<(K, V)>)
    ensures
        match r {
            Some(entry) => {
                &&& final(m).len() + 1 == old(m).len()
                &&& obeys_cmp::<K>() ==> {
                    &&& old(m)@.contains_key(entry.0)
                    &&& old(m)@[entry.0] == entry.1
                    &&& final(m)@ == old(m)@.remove(entry.0)
                }
            },
            None => old(m).len() == 0 && *final(m) == *old(m),
        },
{
    m.pop_first()
}

impl<K: Eq + Ord, V> SnapshotOrUpdate<K, V> {
    /// What applying `self` makes of a map with view `m`.
    pub open spec fn spec_apply(self, m: Map<K, V>) -> Map<K, V> {
        match self {
            SnapshotOrUpdate::Snapshot { snapshot } => snapshot@,
            SnapshotOrUpdate::Update { updates } => apply_updates(m, updates@),
        }
    }

    /// Brings `map` up to date: a snapshot replaces it, an update sets and
    /// removes keys in order.
    pub fn apply(self, map: &mut BTreeMap<K, V>)
        ensures
            obeys_cmp::<K>() ==> final(map)@ == self.spec_apply(old(map)@),
    {
        match self {
            SnapshotOrUpdate::Snapshot { snapshot } => {
                *map = snapshot;
            },
            SnapshotOrUpdate::Update { updates } => {
                let ghost ups = updates@;
                let ghost start = map@;
                for item in it: updates.into_iter()
                    invariant
                        it.seq() == ups,
                        obeys_cmp::<K>() ==> map@ == apply_updates(start, ups.take(it.index())),
                {
                    proof {
                        assert(ups.take(it.index() + 1).drop_last() =~= ups.take(it.index()));
                    }
                    let (k, v) = item;
                    match v {
                        Some(v) => {
                            map.insert(k, v);
                        },
                        None => {
                            map.remove(&k);
                        },
                    }
                }
                proof {
                    lemma_take_whole(ups);
                }
            },
        }
    }
}

impl<K: Eq + Ord, V> From<BTreeMap<K, V>> for SnapshotOrUpdate<K, V> {
    /// A whole map, sent as a snapshot.
    fn from(map: BTreeMap<K, V>) -> (r: Self)
        ensures
            r == (SnapshotOrUpdate::Snapshot { snapshot: map }),
    {
        SnapshotOrUpdate::Snapshot { snapshot: map }
    }
}

impl<K: Eq + Ord, V> vstd::std_specs::convert::FromSpecImpl<BTreeMap<K, V>> for SnapshotOrUpdate<K, V> {
    open spec fn obeys_from_spec() -> bool {
        true
    }

    open spec fn from_spec(map: BTreeMap<K, V>) -> Self {
        SnapshotOrUpdate::Snapshot { snapshot: map }
    }
}

impl<K0: Eq + Ord, K1: Eq + Ord, V> SnapshotOrUpdate<K0, SnapshotOrUpdate<K1, V>> {
    /// What applying `self` makes of a map of maps with view `m`.
    pub open spec fn spec_apply2(self, m: Map<K0, Map<K1, V>>) -> Map<K0, Map<K1, V>> {
        match self {
            SnapshotOrUpdate::Snapshot { snapshot } => snapshot@.map_values(
                |t: SnapshotOrUpdate<K1, V>| t.spec_apply(Map::empty()),
            ),
            SnapshotOrUpdate::Update { updates } => apply_nested_updates(m, updates@),
        }
    }

    /// Brings a map of maps up to date.  A snapshot replaces the outer map,
    /// each inner entry built from the empty map; an update, entry by entry,
    /// applies a snapshot or update to the inner map under its key (the
    /// empty map where there is none) or removes the key.
    pub fn apply2(self, map: &mut BTreeMap<K0, BTreeMap<K1, V>>)
        ensures
            obeys_cmp::<K0>() && obeys_cmp::<K1>() ==> nested_view(final(map)@)
                == self.spec_apply2(nested_view(old(map)@)),
    {
        let ghost laws = obeys_cmp::<K0>() && obeys_cmp::<K1>();
        match self {
            SnapshotOrUpdate::Snapshot { snapshot } => {
                let ghost orig = snapshot@;
                map.clear();
                let mut rest = snapshot;
                loop
                    invariant
                        laws == (obeys_cmp::<K0>() && obeys_cmp::<K1>()),
                        laws ==> forall|k: K0| #[trigger]
                            rest@.contains_key(k) ==> orig.contains_key(k) && rest@[k]
                                == orig[k],
                        laws ==> forall|k: K0| #[trigger]
                            map@.contains_key(k) <==> orig.contains_key(k)
                                && !rest@.contains_key(k),
                        laws ==> forall|k: K0| #[trigger]
                            map@.contains_key(k) ==> map@[k]@ == orig[k].spec_apply(
                                Map::empty(),
                            ),
                    ensures
                        laws ==> nested_view(map@) == orig.map_values(
                            |t: SnapshotOrUpdate<K1, V>| t.spec_apply(Map::empty()),
                        ),
                    decreases rest.len(),
                {
                    match btree_pop_first(&mut rest) {
                        None => {
                            proof {
                                if laws {
                                    assert(rest@ =~= Map::<K0, SnapshotOrUpdate<K1, V>>::empty());
                                    assert(nested_view(map@) =~= orig.map_values(
                                        |t: SnapshotOrUpdate<K1, V>| t.spec_apply(Map::empty()),
                                    ));
                                }
                            }
                            break ;
                        },
                        Some(entry) => {
                            let (k, t) = entry;
                            match t {
                                SnapshotOrUpdate::Snapshot { snapshot } => {
                                    map.insert(k, snapshot);
                                },
                                SnapshotOrUpdate::Update { updates } => {
                                    let mut v = BTreeMap::new();
                                    SnapshotOrUpdate::Update { updates }.apply(&mut v);
                                    map.insert(k, v);
                                },
                            }
                        },
                    }
                }
            },
            SnapshotOrUpdate::Update { updates } => {
                let ghost ups = updates@;
                let ghost start = nested_view(map@);
                for item in it: updates.into_iter()
                    invariant
                        it.seq() == ups,
                        laws == (obeys_cmp::<K0>() && obeys_cmp::<K1>()),
                        laws ==> nested_view(map@) == apply_nested_updates(
                            start,
                            ups.take(it.index()),
                        ),
                {
                    proof {
                        assert(ups.take(it.index() + 1).drop_last() =~= ups.take(it.index()));
                    }
                    let ghost before = nested_view(map@);
                    let (k, t) = item;
                    match t {
                        Some(t) => match t {
                            SnapshotOrUpdate::Snapshot { snapshot } => {
                                map.insert(k, snapshot);
                                proof {
                                    if laws {
                                        assert(nested_view(map@) =~= before.insert(
                                            k,
                                            snapshot@,
                                        ));
                                    }
                                }
                            },
                            SnapshotOrUpdate::Update { updates } => {
                                let mut v = match map.remove(&k) {
                                    Some(v) => v,
                                    None => BTreeMap::new(),
                                };
                                proof {
                                    if laws {
                                        assert(v@ == inner_or_empty(before, k));
                                    }
                                }
                                let ghost inner = v@;
                                SnapshotOrUpdate::Update { updates }.apply(&mut v);
                                map.insert(k, v);
                                proof {
                                    if laws {
                                        assert(nested_view(map@) =~= before.insert(k, v@));
                                    }
                                }
                            },
                        },
                        None => {
                            map.remove(&k);
                            proof {
                                if laws {
                                    assert(nested_view(map@) =~= before.remove(k));
                                }
                            }
                        },
                    }
                }
                proof {
                    lemma_take_whole(ups);
                }
            },
        }
    }
}

/// `s` is the snapshot of `m` in which every inner map is itself a snapshot.
pub open spec fn is_nested_snapshot_of<K0: Eq + Ord, K1: Eq + Ord, V>(
    s: SnapshotOrUpdate<K0, SnapshotOrUpdate<K1, V>>,
    m: Map<K0, BTreeMap<K1, V>>,
) -> bool {
    &&& s matches SnapshotOrUpdate::Snapshot { snapshot }
    &&& s->snapshot@.dom() == m.dom()
    &&& forall|k: K0| #[trigger]
        m.contains_key(k) ==> s->snapshot@[k] == (SnapshotOrUpdate::Snapshot { snapshot: m[k] })
}

impl<K0: Eq + Ord, K1: Eq + Ord, V> From<BTreeMap<K0, BTreeMap<K1, V>>> for SnapshotOrUpdate<K0, SnapshotOrUpdate<K1, V>> {
    /// A whole map of maps, sent as a snapshot of snapshots.
    fn from(map: BTreeMap<K0, BTreeMap<K1, V>>) -> (r: Self)
        ensures
            obeys_cmp::<K0>() ==> is_nested_snapshot_of(r, map@),
    {
        let ghost orig = map@;
        let mut rest = map;
        let mut snapshot: BTreeMap<K0, SnapshotOrUpdate<K1, V>> = BTreeMap::new();
        loop
            invariant
                obeys_cmp::<K0>() ==> forall|k: K0| #[trigger]
                    rest@.contains_key(k) ==> orig.contains_key(k) && rest@[k] == orig[k],
                obeys_cmp::<K0>() ==> forall|k: K0| #[trigger]
                    snapshot@.contains_key(k) <==> orig.contains_key(k) && !rest@.contains_key(k),
                obeys_cmp::<K0>() ==> forall|k: K0| #[trigger]
                    snapshot@.contains_key(k) ==> snapshot@[k] == (SnapshotOrUpdate::Snapshot {
                        snapshot: orig[k],
                    }),
            ensures
                obeys_cmp::<K0>() ==> is_nested_snapshot_of(
                    SnapshotOrUpdate::Snapshot { snapshot },
                    orig,
                ),
            decreases rest.len(),
        {
            match btree_pop_first(&mut rest) {
                None => {
                    proof {
                        if obeys_cmp::<K0>() {
                            assert(rest@ =~= Map::<K0, BTreeMap<K1, V>>::empty());
                            assert(snapshot@.dom() =~= orig.dom());
                        }
                    }
                    break ;
                },
                Some(entry) => {
                    let (k, v) = entry;
                    snapshot.insert(k, SnapshotOrUpdate::Snapshot { snapshot: v });
                },
            }
        }
        SnapshotOrUpdate::Snapshot { snapshot }
    }
}

impl<K0: Eq + Ord, K1: Eq + Ord, V> vstd::std_specs::convert::FromSpecImpl<BTreeMap<K0, BTreeMap<K1, V>>> for SnapshotOrUpdate<K0, SnapshotOrUpdate<K1, V>> {
    /// The inner maps of the result are values that no spec function of the
    /// argument's view names, so the conversion is stated by the `ensures`
    /// of `from` (`is_nested_snapshot_of`) and not by `from_spec`.
    open spec fn obeys_from_spec() -> bool {
        false
    }

    open spec fn from_spec(map: BTreeMap<K0, BTreeMap<K1, V>>) -> Self {
        choose|r: Self| is_nested_snapshot_of(r, map@)
    }
}

/// A snapshot replaces whatever the map held before.
pub proof fn law_snapshot_replaces<K: Eq + Ord, V>(snapshot: BTreeMap<K, V>, before: Map<K, V>)
    ensures
        (SnapshotOrUpdate::Snapshot { snapshot }).spec_apply(before) == snapshot@,
{
}

/// An update with no entries leaves the map as it was.
pub proof fn law_empty_update_keeps<K: Eq + Ord, V>(
    updates: Vec<(K, Option<V>)>,
    before: Map<K, V>,
)
    requires
        updates@.len() == 0,
    ensures
        (SnapshotOrUpdate::Update { updates }).spec_apply(before) == before,
{
}

/// Applying one list of updates and then another is the same as applying
/// the two lists one after the other as a single list.
pub proof fn law_updates_compose<K, V>(
    m: Map<K, V>,
    first: Seq<(K, Option<V>)>,
    second: Seq<(K, Option<V>)>,
)
    ensures
        apply_updates(apply_updates(m, first), second) == apply_updates(m, first + second),
    decreases second.len(),
{
    if second.len() > 0 {
        law_updates_compose(m, first, second.drop_last());
        assert((first + second).drop_last() =~= first + second.drop_last());
        assert((first + second).last() == second.last());
    } else {
        assert(first + second =~= first);
    }
}

/// The index of the last entry of `updates` that names `k`, or -1 where
/// none does.
pub open spec fn last_entry_for<K, V>(updates: Seq<(K, Option<V>)>, k: K) -> int
    decreases updates.len(),
{
    if updates.len() == 0 {
        -1
    } else if updates.last().0 == k {
        updates.len() - 1
    } else {
        last_entry_for(updates.drop_last(), k)
    }
}

/// After an update, a key holds the value of the last entry that names it
/// (the key is absent where that entry is a removal); a key that no entry
/// names keeps what it held.
pub proof fn law_last_entry_wins<K, V>(m: Map<K, V>, updates: Seq<(K, Option<V>)>, k: K)
    ensures
        -1 <= last_entry_for(updates, k) < updates.len(),
        last_entry_for(updates, k) >= 0 ==> updates[last_entry_for(updates, k)].0 == k,
        last_entry_for(updates, k) >= 0 ==> match updates[last_entry_for(updates, k)].1 {
            Some(v) => apply_updates(m, updates).contains_key(k) && apply_updates(m, updates)[k]
                == v,
            None => !apply_updates(m, updates).contains_key(k),
        },
        last_entry_for(updates, k) == -1 ==> {
            &&& forall|i: int| 0 <= i < updates.len() ==> #[trigger] updates[i].0 != k
            &&& apply_updates(m, updates).contains_key(k) == m.contains_key(k)
            &&& m.contains_key(k) ==> apply_updates(m, updates)[k] == m[k]
        },
    decreases updates.len(),
{
    if updates.len() > 0 {
        let rest = updates.drop_last();
        law_last_entry_wins(m, rest, k);
        if updates.last().0 != k {
            assert forall|i: int| 0 <= i < updates.len() - 1 implies #[trigger] updates[i]
                == rest[i] by {}
        }
    }
}

/// Applying the same update list a second time changes nothing.
pub proof fn law_updates_idempotent<K, V>(m: Map<K, V>, updates: Seq<(K, Option<V>)>)
    ensures
        apply_updates(apply_updates(m, updates), updates) == apply_updates(m, updates),
{
    let once = apply_updates(m, updates);
    let twice = apply_updates(once, updates);
    assert forall|k: K| #[trigger] twice.contains_key(k) == once.contains_key(k) && (
    twice.contains_key(k) ==> twice[k] == once[k]) by {
        law_last_entry_wins(m, updates, k);
        law_last_entry_wins(once, updates, k);
    }
    assert(twice =~= once);
}

/// Applying the same snapshot or update a second time changes nothing.
pub proof fn law_apply_idempotent<K: Eq + Ord, V>(s: SnapshotOrUpdate<K, V>, m: Map<K, V>)
    ensures
        s.spec_apply(s.spec_apply(m)) == s.spec_apply(m),
{
    if let SnapshotOrUpdate::Update { updates } = s {
        law_updates_idempotent(m, updates@);
    }
}

/// A snapshot of snapshots built from a map of maps gives that map back,
/// whatever the map held before.
pub proof fn law_nested_snapshot_restores<K0: Eq + Ord, K1: Eq + Ord, V>(
    s: SnapshotOrUpdate<K0, SnapshotOrUpdate<K1, V>>,
    m: Map<K0, BTreeMap<K1, V>>,
    before: Map<K0, Map<K1, V>>,
)
    requires
        is_nested_snapshot_of(s, m),
    ensures
        s.spec_apply2(before) == nested_view(m),
{
    assert(s.spec_apply2(before) =~= nested_view(m));
}

/// One action of an update list: add (or replace) a symbol's info, or
/// remove the symbol.
#[derive(Debug, Clone)]
pub enum AddOrRemove<Symbol, Info> {
    Add { symbol: Symbol, info: Info },
    Remove { symbol: Symbol },
}

/// One action applied to a map.
pub open spec fn apply_action<Symbol, Info>(
    m: Map<Symbol, Info>,
    action: AddOrRemove<Symbol, Info>,
) -> Map<Symbol, Info> {
    match action {
        AddOrRemove::Add { symbol, info } => m.insert(symbol, info),
        AddOrRemove::Remove { symbol } => m.remove(symbol),
    }
}

/// The actions of an update list applied from first to last.
pub open spec fn apply_actions<Symbol, Info>(
    m: Map<Symbol, Info>,
    actions: Seq<AddOrRemove<Symbol, Info>>,
) -> Map<Symbol, Info>
    decreases actions.len(),
{
    if actions.len() == 0 {
        m
    } else {
        apply_action(apply_actions(m, actions.drop_last()), actions.last())
    }
}

/// A snapshot, or a list of add and remove actions.
#[derive(Debug, Clone)]
pub enum SnapshotOrUpdate1<Symbol: Eq + Ord, Info> {
    Snapshot { snapshot: BTreeMap<Symbol, Info> },
    Update { updates: Vec<AddOrRemove<Symbol, Info>> },
}

impl<Symbol: Eq + Ord, Info> SnapshotOrUpdate1<Symbol, Info> {
    /// What applying `self` makes of a map with view `m`.
    pub open spec fn spec_apply(self, m: Map<Symbol, Info>) -> Map<Symbol, Info> {
        match self {
            SnapshotOrUpdate1::Snapshot { snapshot } => snapshot@,
            SnapshotOrUpdate1::Update { updates } => apply_actions(m, updates@),
        }
    }

    /// Brings `map` up to date: a snapshot replaces it, an update adds and
    /// removes symbols in order.
    pub fn apply(self, map: &mut BTreeMap<Symbol, Info>)
        ensures
            obeys_cmp::<Symbol>() ==> final(map)@ == self.spec_apply(old(map)@),
    {
        match self {
            SnapshotOrUpdate1::Snapshot { snapshot } => {
                *map = snapshot;
            },
            SnapshotOrUpdate1::Update { updates } => {
                let ghost ups = updates@;
                let ghost start = map@;
                for action in it: updates.into_iter()
                    invariant
                        it.seq() == ups,
                        obeys_cmp::<Symbol>() ==> map@ == apply_actions(
                            start,
                            ups.take(it.index()),
                        ),
                {
                    proof {
                        assert(ups.take(it.index() + 1).drop_last() =~= ups.take(it.index()));
                    }
                    match action {
                        AddOrRemove::Add { symbol, info } => {
                            map.insert(symbol, info);
                        },
                        AddOrRemove::Remove { symbol } => {
                            map.remove(&symbol);
                        },
                    }
                }
                proof {
                    lemma_take_whole(ups);
                }
            },
        }
    }
}

/// An action as an update entry: an add sets the symbol, a remove removes it.
pub open spec fn action_entry<Symbol, Info>(a: AddOrRemove<Symbol, Info>) -> (Symbol, Option<Info>) {
    match a {
        AddOrRemove::Add { symbol, info } => (symbol, Some(info)),
        AddOrRemove::Remove { symbol } => (symbol, None),
    }
}

/// Applying actions is applying their update entries.
pub proof fn lemma_actions_are_updates<Symbol, Info>(
    m: Map<Symbol, Info>,
    actions: Seq<AddOrRemove<Symbol, Info>>,
)
    ensures
        apply_actions(m, actions) == apply_updates(
            m,
            actions.map_values(|a: AddOrRemove<Symbol, Info>| action_entry(a)),
        ),
    decreases actions.len(),
{
    let entries = actions.map_values(|a: AddOrRemove<Symbol, Info>| action_entry(a));
    if actions.len() > 0 {
        lemma_actions_are_updates(m, actions.drop_last());
        assert(entries.drop_last() =~= actions.drop_last().map_values(
            |a: AddOrRemove<Symbol, Info>| action_entry(a),
        ));
    }
}

/// Applying the same snapshot or action list a second time changes nothing.
pub proof fn law_apply1_idempotent<Symbol: Eq + Ord, Info>(
    s: SnapshotOrUpdate1<Symbol, Info>,
    m: Map<Symbol, Info>,
)
    ensures
        s.spec_apply(s.spec_apply(m)) == s.spec_apply(m),
{
    if let SnapshotOrUpdate1::Update { updates } = s {
        let once = apply_actions(m, updates@);
        lemma_actions_are_updates(m, updates@);
        lemma_actions_are_updates(once, updates@);
        law_updates_idempotent(
            m,
            updates@.map_values(|a: AddOrRemove<Symbol, Info>| action_entry(a)),
        );
    }
}

/// Applying one list of actions and then another is the same as applying
/// the two lists one after the other as a single list.
pub proof fn law_actions_compose<Symbol, Info>(
    m: Map<Symbol, Info>,
    first: Seq<AddOrRemove<Symbol, Info>>,
    second: Seq<AddOrRemove<Symbol, Info>>,
)
    ensures
        apply_actions(apply_actions(m, first), second) == apply_actions(m, first + second),
    decreases second.len(),
{
    if second.len() > 0 {
        law_actions_compose(m, first, second.drop_last());
        assert((first + second).drop_last() =~= first + second.drop_last());
    } else {
        assert(first + second =~= first);
    }
}

/// One action on a map of maps keyed by symbol and venue: add an info, or
/// remove a symbol at one venue.
#[derive(Debug, Clone)]
pub enum AddOrRemove2<Symbol, Venue, Info> {
    Add { symbol: Symbol, info: Info },
    Remove { symbol: Symbol, venue: Venue },
}

/// A snapshot of a map of maps, or a list of actions on it.
#[derive(Debug, Clone)]
pub enum SnapshotOrUpdate2<Symbol: Eq + Ord, Venue: Eq + Ord, Info> {
    Snapshot { snapshot: BTreeMap<Symbol, BTreeMap<Venue, Info>> },
    Update { updates: Vec<AddOrRemove2<Symbol, Venue, Info>> },
}

} // verus!
