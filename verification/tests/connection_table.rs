use mmo::connections::{Connections, PeerKey};

fn v4(last: u8, port: u16) -> PeerKey {
    PeerKey { v6: false, ip: 0xffff_7f00_0000 | last as u128, port, flowinfo: 0, scope_id: 0 }
}

#[test]
fn empty_table_finds_nothing() {
    let t: Connections<String> = Connections::with_capacity(1024);
    assert!(t.get(&v4(1, 80)).is_none());
    let t: Connections<String> = Connections::new();
    assert!(t.get(&v4(1, 80)).is_none());
}

#[test]
fn lookup_after_insert() {
    let mut t = Connections::new();
    t.insert(v4(1, 80), "a");
    t.insert(v4(2, 80), "b");
    assert_eq!(t.get(&v4(1, 80)), Some(&"a"));
    assert_eq!(t.get(&v4(2, 80)), Some(&"b"));
    assert_eq!(t.get(&v4(1, 81)), None);
}

#[test]
fn insert_replaces_connection_of_same_peer() {
    let mut t = Connections::new();
    t.insert(v4(1, 80), 1);
    t.insert(v4(1, 80), 2);
    assert_eq!(t.get(&v4(1, 80)), Some(&2));
}

#[test]
fn v4_and_v6_peers_differ() {
    let mut t = Connections::new();
    let a = v4(1, 80);
    let b = PeerKey { v6: true, ..a };
    t.insert(a, "v4");
    assert_eq!(t.get(&b), None);
    t.insert(b, "v6");
    assert_eq!(t.get(&a), Some(&"v4"));
    assert_eq!(t.get(&b), Some(&"v6"));
}

#[test]
fn run_of_inserts_keeps_last_connection_per_peer() {
    let mut t = Connections::new();
    t.insert(v4(9, 1), 0);
    let run = [(v4(1, 80), 1), (v4(2, 80), 2), (v4(1, 80), 3), (v4(3, 80), 4), (v4(2, 80), 5)];
    for (k, c) in run {
        t.insert(k, c);
    }
    assert_eq!(t.get(&v4(1, 80)), Some(&3));
    assert_eq!(t.get(&v4(2, 80)), Some(&5));
    assert_eq!(t.get(&v4(3, 80)), Some(&4));
    assert_eq!(t.get(&v4(9, 1)), Some(&0));
    assert_eq!(t.get(&v4(4, 80)), None);
}
