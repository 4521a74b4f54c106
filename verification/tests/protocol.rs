use architect_api::symbology::protocol::{AddOrRemove, SnapshotOrUpdate, SnapshotOrUpdate1};
use architect_api::symbology_v2;
use std::collections::BTreeMap;

fn map(entries: &[(u64, &str)]) -> BTreeMap<u64, String> {
    entries.iter().map(|(k, v)| (*k, v.to_string())).collect()
}

#[test]
fn snapshot_replaces_map() {
    let mut m = map(&[(1, "a"), (2, "b")]);
    SnapshotOrUpdate::Snapshot { snapshot: map(&[(3, "c")]) }.apply(&mut m);
    assert_eq!(m, map(&[(3, "c")]));
}

#[test]
fn updates_apply_in_order() {
    let mut m = map(&[(1, "a"), (2, "b")]);
    let u: SnapshotOrUpdate<u64, String> = SnapshotOrUpdate::Update {
        updates: vec![
            (3, Some("c".to_string())),
            (1, None),
            (3, Some("d".to_string())),
            (4, None),
        ],
    };
    u.apply(&mut m);
    assert_eq!(m, map(&[(2, "b"), (3, "d")]));
    let empty: SnapshotOrUpdate<u64, String> = SnapshotOrUpdate::Update { updates: vec![] };
    empty.apply(&mut m);
    assert_eq!(m, map(&[(2, "b"), (3, "d")]));
}

#[test]
fn from_map_is_snapshot() {
    let s: SnapshotOrUpdate<u64, String> = SnapshotOrUpdate::from(map(&[(5, "e")]));
    let mut m = map(&[(1, "a")]);
    s.apply(&mut m);
    assert_eq!(m, map(&[(5, "e")]));
}

#[test]
fn nested_snapshots_and_updates() {
    let mut outer: BTreeMap<u64, BTreeMap<u64, String>> = BTreeMap::new();
    outer.insert(1, map(&[(10, "x")]));
    outer.insert(2, map(&[(20, "y")]));
    let mut snap: BTreeMap<u64, SnapshotOrUpdate<u64, String>> = BTreeMap::new();
    snap.insert(7, SnapshotOrUpdate::Snapshot { snapshot: map(&[(70, "s")]) });
    snap.insert(8, SnapshotOrUpdate::Update { updates: vec![(80, Some("u".to_string())), (81, None)] });
    let mut m = outer.clone();
    SnapshotOrUpdate::Snapshot { snapshot: snap }.apply2(&mut m);
    let mut expected: BTreeMap<u64, BTreeMap<u64, String>> = BTreeMap::new();
    expected.insert(7, map(&[(70, "s")]));
    expected.insert(8, map(&[(80, "u")]));
    assert_eq!(m, expected);

    let mut m = outer.clone();
    let u: SnapshotOrUpdate<u64, SnapshotOrUpdate<u64, String>> = SnapshotOrUpdate::Update {
        updates: vec![
            (1, Some(SnapshotOrUpdate::Update { updates: vec![(11, Some("z".to_string()))] })),
            (2, None),
            (3, Some(SnapshotOrUpdate::Update { updates: vec![(30, Some("w".to_string()))] })),
            (4, Some(SnapshotOrUpdate::Snapshot { snapshot: map(&[(40, "v")]) })),
        ],
    };
    u.apply2(&mut m);
    let mut expected: BTreeMap<u64, BTreeMap<u64, String>> = BTreeMap::new();
    expected.insert(1, map(&[(10, "x"), (11, "z")]));
    expected.insert(3, map(&[(30, "w")]));
    expected.insert(4, map(&[(40, "v")]));
    assert_eq!(m, expected);
}

#[test]
fn nested_from_map_restores() {
    let mut outer: BTreeMap<u64, BTreeMap<u64, String>> = BTreeMap::new();
    outer.insert(1, map(&[(10, "x")]));
    outer.insert(2, map(&[]));
    let s: SnapshotOrUpdate<u64, SnapshotOrUpdate<u64, String>> = SnapshotOrUpdate::from(outer.clone());
    let mut m: BTreeMap<u64, BTreeMap<u64, String>> = BTreeMap::new();
    m.insert(9, map(&[(90, "q")]));
    s.apply2(&mut m);
    assert_eq!(m, outer);
}

#[test]
fn add_remove_actions() {
    let mut m = map(&[(1, "a")]);
    SnapshotOrUpdate1::Update {
        updates: vec![
            AddOrRemove::Add { symbol: 2, info: "b".to_string() },
            AddOrRemove::Remove { symbol: 1 },
            AddOrRemove::Add { symbol: 2, info: "c".to_string() },
        ],
    }
    .apply(&mut m);
    assert_eq!(m, map(&[(2, "c")]));
    SnapshotOrUpdate1::Snapshot { snapshot: map(&[(9, "z")]) }.apply(&mut m);
    assert_eq!(m, map(&[(9, "z")]));

    let mut m2 = map(&[(1, "a")]);
    symbology_v2::protocol::SnapshotOrUpdate::Update {
        updates: vec![
            symbology_v2::protocol::AddOrRemove::Remove { symbol: 1 },
            symbology_v2::protocol::AddOrRemove::Add { symbol: 5, info: "e".to_string() },
        ],
    }
    .apply(&mut m2);
    assert_eq!(m2, map(&[(5, "e")]));
}
