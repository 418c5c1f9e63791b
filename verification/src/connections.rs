use vstd::prelude::*;

verus! {

/// The address of a remote peer as plain values: IPv4 addresses are held in
/// their IPv4-mapped IPv6 form with `v6` false; for IPv6 the flow label and
/// scope id belong to the address too. Two addresses are the same peer
/// exactly when all fields agree.
#[derive(Clone, Copy, Debug, PartialEq, Eq, Structural, Hash)]
pub struct PeerKey {
    pub v6: bool,
    pub ip: u128,
    pub port: u16,
    pub flowinfo: u32,
    pub scope_id: u32,
}

/// The open connections of a stream server, one per peer address.
///
/// The entries are a vector of pairs with distinct peers rather than a
/// `HashMap`: vstd specifies `HashMap` only for keys that obey its key model,
/// which it grants to integers, `bool` and boxes of them, and a peer address
/// (flag, 128-bit address, port, flow label, scope id) fits no single integer.
pub struct Connections<C> {
    entries: Vec<(PeerKey, C)>,
}

/// No two entries are for the same peer.
pub open spec fn keys_distinct<C>(entries: Seq<(PeerKey, C)>) -> bool {
    forall|i: int, j: int|
        0 <= i < entries.len() && 0 <= j < entries.len() && i != j ==> entries[i].0 != entries[j].0
}

/// The connection of each peer in a list of entries whose peers differ.
pub open spec fn entries_map<C>(entries: Seq<(PeerKey, C)>) -> Map<PeerKey, C> {
    Map::new(
        |k: PeerKey| exists|i: int| 0 <= i < entries.len() && entries[i].0 == k,
        |k: PeerKey| entries[choose|i: int| 0 <= i < entries.len() && entries[i].0 == k].1,
    )
}

/// In entries whose peers differ, the entry at `i` gives the connection of
/// its peer.
proof fn lemma_entry_lookup<C>(entries: Seq<(PeerKey, C)>, i: int)
    requires
        keys_distinct(entries),
        0 <= i < entries.len(),
    ensures
        entries_map(entries).contains_key(entries[i].0),
        entries_map(entries)[entries[i].0] == entries[i].1,
{
    let k = entries[i].0;
    assert(0 <= i < entries.len() && entries[i].0 == k);
    let j = choose|j: int| 0 <= j < entries.len() && entries[j].0 == k;
    assert(j == i);
}

/// A peer with no entry has no connection.
proof fn lemma_entry_absent<C>(entries: Seq<(PeerKey, C)>, k: PeerKey)
    requires
        forall|i: int| 0 <= i < entries.len() ==> entries[i].0 != k,
    ensures
        !entries_map(entries).contains_key(k),
{
}

/// Replacing the connection in the entry at `i` replaces it in the table.
proof fn lemma_entry_replace<C>(entries: Seq<(PeerKey, C)>, i: int, conn: C)
    requires
        keys_distinct(entries),
        0 <= i < entries.len(),
    ensures
        keys_distinct(entries.update(i, (entries[i].0, conn))),
        entries_map(entries.update(i, (entries[i].0, conn))) == entries_map(entries).insert(
            entries[i].0,
            conn,
        ),
{
    let key = entries[i].0;
    let after = entries.update(i, (key, conn));
    assert forall|k: PeerKey|
        #![trigger entries_map(after).contains_key(k)]
        entries_map(after).contains_key(k) == entries_map(entries).insert(key, conn).contains_key(k)
            && (entries_map(after).contains_key(k) ==> entries_map(after)[k] == entries_map(
            entries,
        ).insert(key, conn)[k]) by {
        if k == key {
            lemma_entry_lookup(after, i);
        } else if exists|j: int| 0 <= j < entries.len() && entries[j].0 == k {
            let j = choose|j: int| 0 <= j < entries.len() && entries[j].0 == k;
            lemma_entry_lookup(after, j);
            lemma_entry_lookup(entries, j);
        } else {
            lemma_entry_absent(entries, k);
            lemma_entry_absent(after, k);
        }
    }
    assert(entries_map(after) =~= entries_map(entries).insert(key, conn));
}

impl<C> View for Connections<C> {
    type V = Map<PeerKey, C>;

    closed spec fn view(&self) -> Map<PeerKey, C> {
        entries_map(self.entries@)
    }
}

impl<C> Connections<C> {
    /// The table holds at most one connection per peer.
    #[verifier::type_invariant]
    closed spec fn wf(self) -> bool {
        keys_distinct(self.entries@)
    }

    /// No connections yet.
    pub fn new() -> (t: Connections<C>)
        ensures
            t@ == Map::<PeerKey, C>::empty(),
    {
        let t = Connections { entries: Vec::new() };
        assert(t@ =~= Map::<PeerKey, C>::empty());
        t
    }

    /// No connections yet, with room for `capacity` of them.
    pub fn with_capacity(capacity: usize) -> (t: Connections<C>)
        ensures
            t@ == Map::<PeerKey, C>::empty(),
    {
        let t = Connections { entries: Vec::with_capacity(capacity) };
        assert(t@ =~= Map::<PeerKey, C>::empty());
        t
    }

    /// The connection of the peer `key`, if it has one.
    pub fn get(&self, key: &PeerKey) -> (r: Option<&C>)
        ensures
            r == (if self@.contains_key(*key) {
                Some(&self@[*key])
            } else {
                None::<&C>
            }),
    {
        proof {
            use_type_invariant(self);
        }
        match self.position(key) {
            Some(i) => {
                proof {
                    lemma_entry_lookup(self.entries@, i as int);
                }
                Some(&self.entries[i].1)
            },
            None => {
                proof {
                    lemma_entry_absent(self.entries@, *key);
                }
                None
            },
        }
    }

    /// Records `conn` as the connection of the peer `key`, in place of the
    /// one it had, if any.
    pub fn insert(&mut self, key: PeerKey, conn: C)
        ensures
            final(self)@ == old(self)@.insert(key, conn),
    {
        proof {
            use_type_invariant(&*self);
        }
        let pos = self.position(&key);
        let mut entries: Vec<(PeerKey, C)> = Vec::new();
        std::mem::swap(&mut entries, &mut self.entries);
        let ghost before = entries@;
        match pos {
            Some(i) => {
                proof {
                    lemma_entry_replace(before, i as int, conn);
                }
                entries.set(i, (key, conn));
            },
            None => {
                entries.push((key, conn));
                proof {
                    let after = entries@;
                    assert(after == before.push((key, conn)));
                    assert forall|k: PeerKey|
                        #![trigger entries_map(after).contains_key(k)]
                        entries_map(after).contains_key(k) == entries_map(before).insert(
                            key,
                            conn,
                        ).contains_key(k) && (entries_map(after).contains_key(k)
                            ==> entries_map(after)[k] == entries_map(before).insert(key, conn)[k]) by {
                        if k == key {
                            lemma_entry_lookup(after, before.len() as int);
                        } else if exists|j: int| 0 <= j < before.len() && before[j].0 == k {
                            let j = choose|j: int| 0 <= j < before.len() && before[j].0 == k;
                            lemma_entry_lookup(after, j);
                            lemma_entry_lookup(before, j);
                        } else {
                            lemma_entry_absent(before, k);
                            lemma_entry_absent(after, k);
                        }
                    }
                    assert(entries_map(after) =~= entries_map(before).insert(key, conn));
                }
            },
        }
        self.entries = entries;
    }

    /// The position of `key` among the entries, if it has one.
    fn position(&self, key: &PeerKey) -> (r: Option<usize>)
        ensures
            match r {
                Some(i) => i < self.entries@.len() && self.entries@[i as int].0 == *key,
                None => forall|i: int| 0 <= i < self.entries@.len() ==> self.entries@[i].0 != *key,
            },
    {
        let n = self.entries.len();
        for i in 0..n
            invariant
                n == self.entries@.len(),
                forall|j: int| 0 <= j < i ==> self.entries@[j].0 != *key,
        {
            if self.entries[i].0 == *key {
                return Some(i);
            }
        }
        None
    }
}

/// What a lookup gives back of a write: once `insert(key, conn)` has taken
/// the table `before` to `after`, `get(key)` finds `conn`, and `get` of any
/// other peer finds what it found in `before`.
pub proof fn law_lookup_after_insert<C>(
    before: Connections<C>,
    after: Connections<C>,
    key: PeerKey,
    conn: C,
    other: PeerKey,
)
    requires
        after@ == before@.insert(key, conn),
        other != key,
    ensures
        after@.contains_key(key),
        after@[key] == conn,
        after@.contains_key(other) == before@.contains_key(other),
        before@.contains_key(other) ==> after@[other] == before@[other],
{
}

/// `j` is the last position of `k` in `keys`.
pub open spec fn is_last_of(keys: Seq<PeerKey>, k: PeerKey, j: int) -> bool {
    &&& 0 <= j < keys.len()
    &&& keys[j] == k
    &&& forall|m: int| j < m < keys.len() ==> keys[m] != k
}

/// A run of inserts, as the stream server makes one per accepted connection:
/// `tables[j + 1]` is what `insert(keys[j], conns[j])` (as it states) makes
/// of `tables[j]`. At the end the table holds the peers
/// it held before and the inserted ones, each inserted peer has the
/// connection of its last insert, and the other peers keep theirs: a peer
/// inserted twice is replaced, never held twice.
pub proof fn law_run_of_inserts<C>(tables: Seq<Connections<C>>, keys: Seq<PeerKey>, conns: Seq<C>)
    requires
        tables.len() == keys.len() + 1,
        conns.len() == keys.len(),
        forall|j: int|
            0 <= j < keys.len() ==> #[trigger] tables[j + 1]@ == tables[j]@.insert(keys[j], conns[j]),
    ensures
        forall|k: PeerKey|
            #[trigger] tables[keys.len() as int]@.contains_key(k) <==> (tables[0]@.contains_key(k)
                || keys.contains(k)),
        forall|k: PeerKey|
            !keys.contains(k) && tables[0]@.contains_key(k) ==> #[trigger] tables[keys.len() as int]@[k]
                == tables[0]@[k],
        forall|k: PeerKey, j: int|
            #[trigger] is_last_of(keys, k, j) ==> tables[keys.len() as int]@[k] == conns[j],
{
    lemma_inserts_prefix(tables, keys, conns, keys.len() as int);
    assert forall|k: PeerKey|
        #[trigger] tables[keys.len() as int]@.contains_key(k) <==> (tables[0]@.contains_key(k)
            || keys.contains(k)) by {
        if keys.contains(k) {
            let i = choose|i: int| 0 <= i < keys.len() && keys[i] == k;
            assert(0 <= i < keys.len() && keys[i] == k);
        }
    }
    assert forall|k: PeerKey, j: int| #[trigger] is_last_of(keys, k, j) implies tables[keys.len() as int]@[k]
        == conns[j] by {
        assert(last_before(keys, k, j, keys.len() as int));
    }
}

/// `i` is the last position of `k` among the first `j` keys.
spec fn last_before(keys: Seq<PeerKey>, k: PeerKey, i: int, j: int) -> bool {
    &&& 0 <= i < j
    &&& keys[i] == k
    &&& forall|m: int| i < m < j ==> keys[m] != k
}

proof fn lemma_inserts_prefix<C>(tables: Seq<Connections<C>>, keys: Seq<PeerKey>, conns: Seq<C>, j: int)
    requires
        tables.len() == keys.len() + 1,
        conns.len() == keys.len(),
        forall|i: int|
            0 <= i < keys.len() ==> #[trigger] tables[i + 1]@ == tables[i]@.insert(keys[i], conns[i]),
        0 <= j <= keys.len(),
    ensures
        forall|k: PeerKey|
            #[trigger] tables[j]@.contains_key(k) <==> (tables[0]@.contains_key(k) || exists|i: int|
                0 <= i < j && keys[i] == k),
        forall|k: PeerKey|
            (forall|i: int| 0 <= i < j ==> keys[i] != k) && tables[0]@.contains_key(k)
                ==> #[trigger] tables[j]@[k] == tables[0]@[k],
        forall|k: PeerKey, i: int| #[trigger] last_before(keys, k, i, j) ==> tables[j]@[k] == conns[i],
    decreases j,
{
    if j > 0 {
        lemma_inserts_prefix(tables, keys, conns, j - 1);
        let prev = tables[j - 1]@;
        let cur = tables[j]@;
        assert(tables[(j - 1) + 1]@ == prev.insert(keys[j - 1], conns[j - 1]));
        assert(cur == prev.insert(keys[j - 1], conns[j - 1]));
        assert forall|k: PeerKey|
            #[trigger] cur.contains_key(k) <==> (tables[0]@.contains_key(k) || exists|i: int|
                0 <= i < j && keys[i] == k) by {
            if k == keys[j - 1] {
                assert(0 <= j - 1 < j && keys[j - 1] == k);
            } else {
                assert(prev.contains_key(k) == cur.contains_key(k));
                if exists|i: int| 0 <= i < j && keys[i] == k {
                    let i = choose|i: int| 0 <= i < j && keys[i] == k;
                    assert(i < j - 1);
                    assert(0 <= i < j - 1 && keys[i] == k);
                }
            }
        }
        assert forall|k: PeerKey|
            (forall|i: int| 0 <= i < j ==> keys[i] != k) && tables[0]@.contains_key(k)
                implies #[trigger] cur[k] == tables[0]@[k] by {
            assert(keys[j - 1] != k);
            assert(prev.contains_key(k));
        }
        assert forall|k: PeerKey, i: int| #[trigger] last_before(keys, k, i, j) implies cur[k]
            == conns[i] by {
            if i < j - 1 {
                assert(keys[j - 1] != k);
                assert(last_before(keys, k, i, j - 1));
            }
        }
    }
}

} // verus!
