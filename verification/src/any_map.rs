//! A key-to-[`Value`] associative structure built on a standard hash table.
//!
//! [`AnyMap`] exposes the full map surface (insert, get, remove, membership,
//! iteration, capacity) over keys of one type `K` and type-erased values,
//! plus a convenience path that wraps and unwraps [`Value`] in one call.
//!
//! The view of an [`AnyMap`] is a [`Map`] from keys to the stored [`Value`]s.
//! The keyed operations are specified under
//! [`obeys_key_model`](vstd::std_specs::hash::obeys_key_model), the standard
//! library model of a well-behaved `Eq + Hash` key type.

use vstd::prelude::*;
use vstd::std_specs::hash::{
    borrowed_key_removed, contains_borrowed_key, maps_borrowed_key_to_value, obeys_key_model,
};
use vstd::std_specs::iter::IteratorSpec;
use std::borrow::Borrow;
use std::collections::HashMap;
use std::collections::hash_map::{Iter, Keys, Values};
use core::hash::Hash;
use crate::value::Value;

verus! {

/// A map from keys of type `K` to type-erased [`Value`]s. Keys are unique:
/// inserting under an existing key overwrites the prior entry and hands the
/// evicted [`Value`] back to the caller. No ordering among entries is
/// promised.
pub struct AnyMap<K> {
    table: HashMap<K, Value>,
}

impl<K> View for AnyMap<K> {
    type V = Map<K, Value>;

    closed spec fn view(&self) -> Map<K, Value> {
        self.table@
    }
}

impl<K> AnyMap<K> {
    /// Constructs an empty map.
    #[inline]
    #[must_use]
    pub fn new() -> (r: Self)
        ensures
            r@ == Map::<K, Value>::empty(),
    {
        AnyMap { table: HashMap::new() }
    }

    /// Constructs an empty map sized for at least `capacity` entries. The
    /// capacity is a sizing hint only, never a hard limit: the map grows past
    /// it transparently.
    #[inline]
    #[must_use]
    pub fn with_capacity(capacity: usize) -> (r: Self)
        ensures
            r@ == Map::<K, Value>::empty(),
    {
        AnyMap { table: HashMap::with_capacity(capacity) }
    }

    /// The current allocated slot count; at least the number of entries held.
    /// The growth policy behind it is implementation-defined and not part of
    /// the contract.
    #[inline]
    pub fn capacity(&self) -> (r: usize)
        ensures
            obeys_key_model::<K>() ==> r >= self@.len(),
    {
        table_capacity(&self.table)
    }

    /// A traversal of the keys currently present, each exactly once, in an
    /// unspecified order. It borrows the map for its lifetime.
    #[inline]
    pub fn keys<'a>(&'a self) -> (r: Keys<'a, K, Value>)
        ensures
            obeys_key_model::<K>() ==> {
                &&& r.remaining().unref().to_set() == self@.dom()
                &&& r.remaining().no_duplicates()
                &&& r.remaining().len() == self@.dom().len()
            },
    {
        self.table.keys()
    }

    /// A traversal of the stored [`Value`]s, one per entry, in an unspecified
    /// order. Each item still has to be type-checked individually, since the
    /// collection is heterogeneous by construction.
    #[inline]
    pub fn values<'a>(&'a self) -> (r: Values<'a, K, Value>)
        ensures
            obeys_key_model::<K>() ==> {
                &&& r.remaining().unref().to_set() == self@.values()
                &&& r.remaining().len() == self@.dom().len()
            },
    {
        self.table.values()
    }

    /// A traversal of the entries as key-value pairs, in an unspecified
    /// order.
    #[inline]
    pub fn iter<'a>(&'a self) -> (r: Iter<'a, K, Value>)
        ensures
            obeys_key_model::<K>() ==> {
                &&& r.remaining().no_duplicates()
                &&& r.remaining().len() == self@.dom().len()
                &&& forall|i: int|
                    #![trigger r.remaining()[i]]
                    0 <= i < r.remaining().len() ==> self@.contains_key(*r.remaining()[i].0)
                        && self@[*r.remaining()[i].0] == *r.remaining()[i].1
                &&& r.remaining().unref().to_set() == self@.kv_pairs()
            },
    {
        self.table.iter()
    }

    /// The number of entries, which is the number of distinct keys currently
    /// present.
    #[inline]
    pub fn len(&self) -> (r: usize)
        ensures
            obeys_key_model::<K>() ==> r == self@.len(),
    {
        self.table.len()
    }

    /// Whether the map holds no entry at all.
    #[inline]
    pub fn is_empty(&self) -> (r: bool)
        ensures
            r == self@.is_empty(),
    {
        self.table.is_empty()
    }

    /// Removes and destroys every entry. The map remains usable, and empty,
    /// afterward.
    #[inline]
    pub fn clear(&mut self)
        ensures
            final(self)@ == Map::<K, Value>::empty(),
            final(self)@.len() == 0,
            final(self)@.is_empty(),
    {
        self.table.clear();
        proof {
            assert(Map::<K, Value>::empty().dom() =~= Set::<K>::empty());
        }
    }

    /// The view of a map always has a finite domain: the entries live in one
    /// in-memory hash table. Callers need this for any cardinality argument
    /// over the view, such as how `insert` and `remove` move the entry
    /// count.
    pub proof fn lemma_dom_finite(&self)
        ensures
            self@.dom().finite(),
    {
    }
}

impl<K: Eq + Hash> AnyMap<K> {
    /// The stored [`Value`] under `key`, by reference, or nothing if the key
    /// is absent. Membership is independent of the stored type.
    #[inline]
    pub fn get<'a, Q: ?Sized>(&'a self, key: &Q) -> (r: Option<&'a Value>)
        where
            K: Borrow<Q>,
            Q: Hash + Eq,
        ensures
            obeys_key_model::<K>() ==> match r {
                Some(v) => maps_borrowed_key_to_value(self@, key, *v),
                None => !contains_borrowed_key(self@, key),
            },
    {
        self.table.get(key)
    }

    /// The entry under `key` read at type `T`: nothing both when the key is
    /// absent and when the stored value's concrete type differs from `T`.
    /// The two conditions collapse into the same "nothing" result by design;
    /// callers who need the distinction combine [`AnyMap::get`] with
    /// [`Value::is`] or [`Value::as_type`].
    #[inline]
    pub fn get_typed<'a, T: 'static>(&'a self, key: &K) -> (r: Option<&'a T>)
        ensures
            obeys_key_model::<K>() ==> (r is Some ==> self@.contains_key(*key)),
    {
        match self.table.get(key) {
            Some(v) => v.as_type::<T>(),
            None => None,
        }
    }

    /// Whether an entry is present under `key`, whatever the stored type.
    #[inline]
    pub fn contains_key<Q: ?Sized>(&self, key: &Q) -> (r: bool)
        where
            K: Borrow<Q>,
            Q: Hash + Eq,
        ensures
            obeys_key_model::<K>() ==> r == contains_borrowed_key(self@, key),
    {
        self.table.contains_key(key)
    }

    /// Stores a pre-wrapped [`Value`] under `key`, overwriting and returning
    /// any prior entry at that key, or `None` if the key was absent. Useful
    /// for moving a [`Value`] between maps without re-wrapping, or for
    /// re-inserting a just-removed one.
    #[inline]
    pub fn insert_val(&mut self, key: K, value: Value) -> (r: Option<Value>)
        ensures
            obeys_key_model::<K>() ==> {
                &&& final(self)@ == old(self)@.insert(key, value)
                &&& match r {
                    Some(prev) => old(self)@.contains_key(key) && prev == old(self)@[key],
                    None => !old(self)@.contains_key(key),
                }
            },
    {
        self.table.insert(key, value)
    }

    /// Wraps `value` in a new [`Value`] and stores it under `key`,
    /// overwriting and returning any prior entry at that key (`None` if the
    /// key was absent). Ownership of `value` transfers to the map.
    #[inline]
    pub fn insert<T: 'static>(&mut self, key: K, value: T) -> (r: Option<Value>)
        ensures
            obeys_key_model::<K>() ==> {
                &&& final(self)@.contains_key(key)
                &&& final(self)@ == old(self)@.insert(key, final(self)@[key])
                &&& match r {
                    Some(prev) => old(self)@.contains_key(key) && prev == old(self)@[key],
                    None => !old(self)@.contains_key(key),
                }
            },
    {
        self.insert_val(key, Value::new(value))
    }

    /// Evicts and returns the [`Value`] under `key`, or nothing if the key is
    /// absent. A second removal of the same key then finds nothing.
    #[inline]
    pub fn remove<Q: ?Sized>(&mut self, key: &Q) -> (r: Option<Value>)
        where
            K: Borrow<Q>,
            Q: Hash + Eq,
        ensures
            obeys_key_model::<K>() ==> {
                &&& borrowed_key_removed(old(self)@, final(self)@, key)
                &&& match r {
                    Some(v) => maps_borrowed_key_to_value(old(self)@, key, v),
                    None => !contains_borrowed_key(old(self)@, key),
                }
            },
    {
        self.table.remove(key)
    }
}

impl<K> Default for AnyMap<K> {
    /// The empty map.
    #[inline]
    fn default() -> (r: Self)
        ensures
            r@ == Map::<K, Value>::empty(),
    {
        AnyMap::new()
    }
}

/// Relies on `HashMap::capacity`: the table can hold at least the entries it
/// currently holds without reallocating.
#[verifier::external_body]
fn table_capacity<K>(m: &HashMap<K, Value>) -> (r: usize)
    ensures
        obeys_key_model::<K>() ==> r >= m@.len(),
{
    m.capacity()
}

/// Insertion is overwrite-on-duplicate-key: inserting twice under the same
/// key leaves the map exactly as if only the second insertion had happened,
/// and the entry the second insertion overwrites is the one the first put
/// there.
pub proof fn lemma_insert_overwrites<K>(m: Map<K, Value>, k: K, w1: Value, w2: Value)
    ensures
        m.insert(k, w1).insert(k, w2) =~= m.insert(k, w2),
        m.insert(k, w1)[k] == w1,
{
}

/// After an insertion the key is present and holds exactly the inserted
/// entry.
pub proof fn lemma_insert_then_found<K>(m: Map<K, Value>, k: K, w: Value)
    ensures
        m.insert(k, w).contains_key(k),
        m.insert(k, w)[k] == w,
{
}

/// Removal is destructive and idempotent in effect: after a removal the key
/// is absent, and removing it again changes nothing.
pub proof fn lemma_remove_idempotent<K>(m: Map<K, Value>, k: K)
    ensures
        !m.remove(k).contains_key(k),
        m.remove(k).remove(k) =~= m.remove(k),
{
}

/// Overwriting a key that is already present keeps the number of entries
/// unchanged: no key appears or disappears.
pub proof fn lemma_overwrite_preserves_len<K>(m: Map<K, Value>, k: K, w: Value)
    requires
        m.dom().finite(),
        m.contains_key(k),
    ensures
        m.insert(k, w).len() == m.len(),
{
    assert(m.insert(k, w).dom() =~= m.dom());
}

/// Removing a present key takes the number of entries down by exactly one.
pub proof fn lemma_remove_decrements_len<K>(m: Map<K, Value>, k: K)
    requires
        m.dom().finite(),
        m.contains_key(k),
    ensures
        m.remove(k).len() == m.len() - 1,
{
    assert(m.remove(k).dom() =~= m.dom().remove(k));
}

/// A finite map is empty exactly when it holds no distinct key: its length
/// is zero if and only if it reports itself empty.
pub proof fn lemma_len_zero_is_empty<K>(m: Map<K, Value>)
    requires
        m.dom().finite(),
    ensures
        m.len() == 0 <==> m.is_empty(),
{
    if m.len() == 0 {
        m.dom().lemma_len0_is_empty();
    }
}

/// An empty map holds no distinct key at all: its length is zero and it
/// reports itself empty.
pub proof fn lemma_empty_len<K>()
    ensures
        Map::<K, Value>::empty().len() == 0,
        Map::<K, Value>::empty().is_empty(),
{
    assert(Map::<K, Value>::empty().dom() =~= Set::<K>::empty());
}

} // verus!
