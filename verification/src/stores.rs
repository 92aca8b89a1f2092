//! Keyed stores shared by concurrent handler invocations.
//!
//! The backing collections come from outside crates: `dashmap` shards and
//! locks per shard, `arc_swap` swaps a whole snapshot atomically. Verus does
//! not read those crates, so each store is an opaque struct whose contents
//! are described by an uninterpreted view, and every operation the logic
//! relies on is a trusted wrapper whose contract states what the crate's
//! source shows. The hosting process layers its cooperative wait-and-retry
//! interface over these operations; here each store is used through `&mut`,
//! one operation at a time.

use vstd::prelude::*;

use std::collections::HashSet;
use std::hash::RandomState;
use std::sync::Arc;

verus! {

/// The sharded concurrent map of the `dashmap` crate, opaque to the
/// verifier; what each store built on it holds is described by that
/// store's own view.
#[verifier::external_type_specification]
#[verifier::external_body]
#[verifier::reject_recursive_types(K)]
#[verifier::reject_recursive_types(V)]
#[verifier::reject_recursive_types(S)]
pub struct ExDashMap<K, V, S>(dashmap::DashMap<K, V, S>);

/// A keyed mapping safe for many concurrent readers and writers, backed by
/// a sharded map. Keys and values are plain 64-bit integers.
pub struct AsyncDashMap {
    inner: dashmap::DashMap<u64, u64, RandomState>,
}

/// The entries an [`AsyncDashMap`] holds.
pub uninterp spec fn entries(m: &AsyncDashMap) -> Map<u64, u64>;

/// The entries of a map that holds nothing.
pub open spec fn no_entries() -> Map<u64, u64> {
    Map::empty()
}

impl AsyncDashMap {
    /// Relies on `dashmap::DashMap::new`: constructs an empty map.
    #[verifier::external_body]
    pub fn new() -> (r: Self)
        ensures
            entries(&r) == no_entries(),
    {
        AsyncDashMap { inner: dashmap::DashMap::new() }
    }

    /// Relies on `dashmap::DashMap::is_empty`: true exactly when the map
    /// holds no entry.
    #[verifier::external_body]
    pub fn is_empty(&self) -> (r: bool)
        ensures
            r == (entries(self) == no_entries()),
    {
        self.inner.is_empty()
    }

    /// Relies on `dashmap::DashMap::insert`: maps `key` to `value` and
    /// returns the value previously associated with `key`, if any.
    #[verifier::external_body]
    pub fn insert(&mut self, key: u64, value: u64) -> (r: Option<u64>)
        ensures
            entries(final(self)) == entries(old(self)).insert(key, value),
            r == (if entries(old(self)).contains_key(key) {
                Some(entries(old(self))[key])
            } else {
                None::<u64>
            }),
    {
        self.inner.insert(key, value)
    }

    /// Relies on `dashmap::DashMap::get`: returns the value associated with
    /// `key`, if any.
    #[verifier::external_body]
    pub fn get(&self, key: u64) -> (r: Option<u64>)
        ensures
            r == (if entries(self).contains_key(key) {
                Some(entries(self)[key])
            } else {
                None::<u64>
            }),
    {
        self.inner.get(&key).map(|v| *v)
    }

    /// Relies on `dashmap::DashMap::get_mut`: writes `value` through the
    /// entry's write handle when `key` is present, and reports whether it
    /// was.
    #[verifier::external_body]
    pub fn update(&mut self, key: u64, value: u64) -> (r: bool)
        ensures
            r == entries(old(self)).contains_key(key),
            entries(final(self)) == (if entries(old(self)).contains_key(key) {
                entries(old(self)).insert(key, value)
            } else {
                entries(old(self))
            }),
    {
        match self.inner.get_mut(&key) {
            Some(mut slot) => {
                *slot = value;
                true
            }
            None => false,
        }
    }
}

/// The map that results from applying a sequence of `(key, value)` inserts,
/// in order, to `m`.
pub open spec fn apply_inserts(m: Map<u64, u64>, ops: Seq<(u64, u64)>) -> Map<u64, u64>
    decreases ops.len(),
{
    if ops.len() == 0 {
        m
    } else {
        apply_inserts(m.insert(ops[0].0, ops[0].1), ops.drop_first())
    }
}

/// Inserts that never mention `key` leave its binding alone.
proof fn lemma_apply_inserts_frame(m: Map<u64, u64>, ops: Seq<(u64, u64)>, key: u64)
    requires
        forall|j: int| 0 <= j < ops.len() ==> (#[trigger] ops[j]).0 != key,
    ensures
        apply_inserts(m, ops).contains_key(key) == m.contains_key(key),
        m.contains_key(key) ==> apply_inserts(m, ops)[key] == m[key],
    decreases ops.len(),
{
    if ops.len() > 0 {
        lemma_apply_inserts_frame(m.insert(ops[0].0, ops[0].1), ops.drop_first(), key);
    }
}

/// Law of the keyed map: every value the map holds after a sequence of
/// inserts is one that some insert in the sequence actually wrote under that
/// key. No reader ever observes a value that was not inserted.
pub proof fn lemma_keyed_map_values_inserted(ops: Seq<(u64, u64)>, key: u64)
    requires
        apply_inserts(Map::<u64, u64>::empty(), ops).contains_key(key),
    ensures
        exists|i: int|
            0 <= i < ops.len() && ops[i] == (
                key,
                apply_inserts(Map::<u64, u64>::empty(), ops)[key],
            ),
{
    lemma_values_inserted_general(Map::<u64, u64>::empty(), ops, key);
}

/// Generalization of [`lemma_keyed_map_values_inserted`] over the starting
/// map: a binding after the inserts comes either from an insert or from the
/// starting map.
proof fn lemma_values_inserted_general(m: Map<u64, u64>, ops: Seq<(u64, u64)>, key: u64)
    requires
        apply_inserts(m, ops).contains_key(key),
    ensures
        (exists|i: int| 0 <= i < ops.len() && ops[i] == (key, apply_inserts(m, ops)[key]))
            || (m.contains_key(key) && m[key] == apply_inserts(m, ops)[key]),
    decreases ops.len(),
{
    if ops.len() > 0 {
        let m1 = m.insert(ops[0].0, ops[0].1);
        lemma_values_inserted_general(m1, ops.drop_first(), key);
        if exists|i: int|
            0 <= i < ops.drop_first().len() && ops.drop_first()[i] == (
                key,
                apply_inserts(m1, ops.drop_first())[key],
            ) {
            let i = choose|i: int|
                0 <= i < ops.drop_first().len() && ops.drop_first()[i] == (
                    key,
                    apply_inserts(m1, ops.drop_first())[key],
                );
            assert(ops[i + 1] == (key, apply_inserts(m, ops)[key]));
        } else if ops[0].0 == key {
            assert(ops[0] == (key, apply_inserts(m, ops)[key]));
        }
    }
}

/// Law of the keyed map: the last insert under a key decides the value the
/// map holds for that key, whatever inserts under other keys surround it.
pub proof fn lemma_keyed_map_last_writer_wins(ops: Seq<(u64, u64)>, key: u64, last: int)
    requires
        0 <= last < ops.len(),
        ops[last].0 == key,
        forall|j: int| last < j < ops.len() ==> (#[trigger] ops[j]).0 != key,
    ensures
        apply_inserts(Map::<u64, u64>::empty(), ops).contains_key(key),
        apply_inserts(Map::<u64, u64>::empty(), ops)[key] == ops[last].1,
{
    lemma_last_writer_general(Map::<u64, u64>::empty(), ops, key, last);
}

/// Generalization of [`lemma_keyed_map_last_writer_wins`] over the starting
/// map.
proof fn lemma_last_writer_general(m: Map<u64, u64>, ops: Seq<(u64, u64)>, key: u64, last: int)
    requires
        0 <= last < ops.len(),
        ops[last].0 == key,
        forall|j: int| last < j < ops.len() ==> (#[trigger] ops[j]).0 != key,
    ensures
        apply_inserts(m, ops).contains_key(key),
        apply_inserts(m, ops)[key] == ops[last].1,
    decreases ops.len(),
{
    let m1 = m.insert(ops[0].0, ops[0].1);
    if last == 0 {
        lemma_apply_inserts_frame(m1, ops.drop_first(), key);
    } else {
        lemma_last_writer_general(m1, ops.drop_first(), key, last - 1);
    }
}

/// The set of application values a node has observed, backed by a sharded
/// map whose keys are the values themselves.
pub struct SeenStore {
    inner: dashmap::DashMap<u64, (), RandomState>,
}

/// The values a [`SeenStore`] holds.
pub uninterp spec fn seen_values(s: &SeenStore) -> Set<u64>;

impl SeenStore {
    /// Relies on `dashmap::DashMap::new`: constructs an empty map.
    #[verifier::external_body]
    pub fn new() -> (r: Self)
        ensures
            seen_values(&r) == Set::<u64>::empty(),
    {
        SeenStore { inner: dashmap::DashMap::new() }
    }

    /// Relies on `dashmap::DashMap::insert`: adds `value` to the set.
    /// Inserting a value already present leaves the set as it was.
    #[verifier::external_body]
    pub fn insert(&mut self, value: u64)
        ensures
            seen_values(final(self)) == seen_values(old(self)).insert(value),
    {
        self.inner.insert(value, ());
    }

    /// Relies on `dashmap::DashMap::iter`: hands the set's members out as a
    /// list, each exactly once, in no promised order.
    #[verifier::external_body]
    pub fn items(&self) -> (r: Vec<u64>)
        ensures
            r@.no_duplicates(),
            r@.to_set() == seen_values(self),
    {
        self.inner.iter().map(|e| *e.key()).collect()
    }
}

/// For each neighbor, the subset of the seen values believed already known
/// to that neighbor, keyed by the neighbor's node identifier.
pub struct KnownStore {
    inner: dashmap::DashMap<String, HashSet<u64>, RandomState>,
}

/// The per-neighbor value sets a [`KnownStore`] holds.
pub uninterp spec fn known_entries(s: &KnownStore) -> Map<Seq<char>, Set<u64>>;

/// The per-neighbor record of a store that holds nothing.
pub open spec fn no_known_entries() -> Map<Seq<char>, Set<u64>> {
    Map::empty()
}

impl KnownStore {
    /// Relies on `dashmap::DashMap::new`: constructs an empty map.
    #[verifier::external_body]
    pub fn new() -> (r: Self)
        ensures
            known_entries(&r) == no_known_entries(),
    {
        KnownStore { inner: dashmap::DashMap::new() }
    }

    /// Relies on `dashmap::DashMap::insert`: binds `id` to an empty value
    /// set, replacing whatever set was bound before.
    #[verifier::external_body]
    pub fn insert_empty(&mut self, id: String)
        ensures
            known_entries(final(self)) == known_entries(old(self)).insert(
                id@,
                Set::<u64>::empty(),
            ),
    {
        self.inner.insert(id, HashSet::new());
    }

    /// Relies on `dashmap::DashMap::get`: hands out the members of the set
    /// bound to `id`, each exactly once, in no promised order.
    #[verifier::external_body]
    pub fn snapshot(&self, id: &String) -> (r: Option<Vec<u64>>)
        ensures
            match r {
                Some(v) => known_entries(self).contains_key(id@) && v@.no_duplicates()
                    && v@.to_set() == known_entries(self)[id@],
                None => !known_entries(self).contains_key(id@),
            },
    {
        self.inner.get(id).map(|s| s.iter().copied().collect())
    }

    /// Relies on `dashmap::DashMap::get_mut` and `HashSet::extend`: adds
    /// every listed value to the set bound to `id` through the entry's write
    /// handle, and reports whether `id` had an entry at all.
    #[verifier::external_body]
    pub fn extend(&mut self, id: &String, values: &Vec<u64>) -> (r: bool)
        ensures
            r == known_entries(old(self)).contains_key(id@),
            known_entries(final(self)) == (if known_entries(old(self)).contains_key(id@) {
                known_entries(old(self)).insert(
                    id@,
                    known_entries(old(self))[id@].union(values@.to_set()),
                )
            } else {
                known_entries(old(self))
            }),
    {
        match self.inner.get_mut(id) {
            Some(mut s) => {
                s.extend(values.iter().copied());
                true
            }
            None => false,
        }
    }
}

/// The set of this node's neighbors, replaced wholesale on every topology
/// message and read as an atomically-swapped snapshot. Declaring the
/// backing type to the verifier would drag in the `arc_swap` crate's own
/// traits, so this struct is opaque as a whole.
#[verifier::external_body]
pub struct NeighborSet {
    inner: arc_swap::ArcSwap<HashSet<String>>,
}

/// The neighbor identifiers a [`NeighborSet`] holds.
pub uninterp spec fn neighbor_names(s: &NeighborSet) -> Set<Seq<char>>;

/// The identifiers a list of node-identifier strings spells out.
pub open spec fn string_views(ids: Seq<String>) -> Set<Seq<char>> {
    ids.map_values(|s: String| s@).to_set()
}

impl NeighborSet {
    /// Relies on `arc_swap::ArcSwapAny::new`: constructs a snapshot holding
    /// no neighbors.
    #[verifier::external_body]
    pub fn new() -> (r: Self)
        ensures
            neighbor_names(&r) == Set::<Seq<char>>::empty(),
    {
        NeighborSet { inner: arc_swap::ArcSwap::new(Arc::new(HashSet::new())) }
    }

    /// Relies on `arc_swap::ArcSwapAny::store`: replaces the snapshot with
    /// exactly the given identifiers.
    #[verifier::external_body]
    pub fn store(&mut self, ids: Vec<String>)
        ensures
            neighbor_names(final(self)) == string_views(ids@),
    {
        self.inner.store(Arc::new(ids.into_iter().collect()));
    }

    /// Relies on `arc_swap::ArcSwapAny::load`: hands the snapshot's
    /// identifiers out as a list, each exactly once, in no promised order.
    #[verifier::external_body]
    pub fn load(&self) -> (r: Vec<String>)
        ensures
            r@.map_values(|s: String| s@).no_duplicates(),
            string_views(r@) == neighbor_names(self),
    {
        self.inner.load().iter().cloned().collect()
    }
}

} // verus!
