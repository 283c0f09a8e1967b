//! The key-value store: a map from string keys to dynamic values. Reads and
//! writes copy values in and out, so callers never hold references into the
//! store. An absent key is distinguishable from a key holding null: only
//! `set` creates an entry, and a stored null is an entry like any other.

use vstd::prelude::*;

use crate::value::{DynModel, DynValue};

verus! {

/// A store of dynamic values keyed by strings. Its model is a map from
/// character sequences to value models.
pub struct KeyValueStore {
    map: vstd::hash_map::StringHashMap<DynValue>,
}

impl View for KeyValueStore {
    type V = Map<Seq<char>, DynModel>;

    closed spec fn view(&self) -> Map<Seq<char>, DynModel> {
        self.map@.map_values(|v: DynValue| v@)
    }
}

impl KeyValueStore {
    /// Creates an empty store.
    pub fn new() -> (store: KeyValueStore)
        ensures
            store@ == Map::<Seq<char>, DynModel>::empty(),
    {
        let store = KeyValueStore { map: vstd::hash_map::StringHashMap::new() };
        proof {
            assert(store@ =~= Map::<Seq<char>, DynModel>::empty());
        }
        store
    }

    /// Returns a copy of the current value for `key`, or `None` when the key
    /// is absent. Never fails and never mutates the store.
    pub fn get(&self, key: &str) -> (r: Option<DynValue>)
        ensures
            match r {
                Some(v) => self@.contains_key(key@) && v@ == self@[key@],
                None => !self@.contains_key(key@),
            },
    {
        match self.map.get(key) {
            Some(v) => Some(v.duplicate()),
            None => None,
        }
    }

    /// Inserts or replaces the entry for `key` with `value` — full
    /// replacement, never a merge. Returns whether a prior entry existed:
    /// `true` for an update, `false` for a fresh key.
    pub fn set(&mut self, key: String, value: DynValue) -> (updated: bool)
        ensures
            final(self)@ == old(self)@.insert(key@, value@),
            updated == old(self)@.contains_key(key@),
    {
        let updated = self.map.contains_key(key.as_str());
        self.map.insert(key, value);
        proof {
            assert(final(self)@ =~= old(self)@.insert(key@, value@));
        }
        updated
    }

    /// Removes the entry for `key` if present. Returns whether an entry was
    /// removed: `false` means the key was already absent.
    pub fn delete(&mut self, key: &str) -> (deleted: bool)
        ensures
            final(self)@ == old(self)@.remove(key@),
            deleted == old(self)@.contains_key(key@),
    {
        let deleted = self.map.contains_key(key);
        self.map.remove(key);
        proof {
            assert(final(self)@ =~= old(self)@.remove(key@));
        }
        deleted
    }

    /// Number of entries in the store.
    pub fn len(&self) -> (n: usize)
        ensures
            n == self@.len(),
    {
        proof {
            vstd::hash_map::axiom_string_hash_map_spec_len(&self.map);
            assert(self.map@.dom() =~= self@.dom());
        }
        self.map.len()
    }
}

/// Law: setting a key twice reports an update on the second set, and a get
/// afterwards returns the second value — full replacement, no merge.
pub proof fn lemma_set_then_set(
    m: Map<Seq<char>, DynModel>,
    k: Seq<char>,
    v1: DynModel,
    v2: DynModel,
)
    ensures
        m.insert(k, v1).contains_key(k),
        m.insert(k, v1).insert(k, v2)[k] == v2,
{
}

/// Law: the first set of a key on a fresh store reports a creation, not an
/// update, and a get afterwards returns the value.
pub proof fn lemma_first_set_creates(k: Seq<char>, v: DynModel)
    ensures
        !Map::<Seq<char>, DynModel>::empty().contains_key(k),
        Map::<Seq<char>, DynModel>::empty().insert(k, v)[k] == v,
{
}

/// Law: deleting a key that was never set removes nothing, and a get
/// afterwards still finds the key absent.
pub proof fn lemma_delete_absent(k: Seq<char>)
    ensures
        !Map::<Seq<char>, DynModel>::empty().contains_key(k),
        !Map::<Seq<char>, DynModel>::empty().remove(k).contains_key(k),
{
}

/// Law: deleting a key right after setting it removes the entry, and a get
/// afterwards finds the key absent.
pub proof fn lemma_delete_after_set(m: Map<Seq<char>, DynModel>, k: Seq<char>, v: DynModel)
    ensures
        m.insert(k, v).contains_key(k),
        !m.insert(k, v).remove(k).contains_key(k),
{
}

/// Law: sets of distinct keys never interfere — they commute, and each key
/// afterwards holds the value written under it, whichever set ran first.
pub proof fn lemma_distinct_keys_commute(
    m: Map<Seq<char>, DynModel>,
    k1: Seq<char>,
    v1: DynModel,
    k2: Seq<char>,
    v2: DynModel,
)
    requires
        k1 != k2,
    ensures
        m.insert(k1, v1).insert(k2, v2) == m.insert(k2, v2).insert(k1, v1),
        m.insert(k1, v1).insert(k2, v2)[k1] == v1,
        m.insert(k1, v1).insert(k2, v2)[k2] == v2,
{
    assert(m.insert(k1, v1).insert(k2, v2) =~= m.insert(k2, v2).insert(k1, v1));
}

} // verus!
