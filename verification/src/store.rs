//! The cache's storage: a `dashmap::DashMap` from keys to entries.
//!
//! The map itself is an outside concurrent hash map, so each operation the
//! cache needs goes through a trusted wrapper here. A `Store` pairs the
//! map with a ghost mathematical map from keys to entry views, and every
//! wrapper's contract says how the call moves that ghost map, going by
//! what `dashmap`'s source and documentation show of the call.
//!
//! The contracts identify keys up to mathematical equality, while the map
//! itself goes by the key type's `Hash` and `==`. The two agree exactly
//! when `vstd::std_specs::hash::obeys_key_model` holds of the key type
//! (it holds of all primitive integer types), so the wrappers that look a
//! key up require it.

use vstd::prelude::*;
use vstd::std_specs::hash::obeys_key_model;

use crate::item::Item;
use crate::item::ItemView;

verus! {

#[verifier::external_type_specification]
#[verifier::external_body]
#[verifier::reject_recursive_types(K)]
#[verifier::reject_recursive_types(V)]
#[verifier::reject_recursive_types(S)]
pub struct ExDashMap<K, V, S>(dashmap::DashMap<K, V, S>);

/// The cache's storage: the entries under their keys, with the
/// mathematical map they form.
#[verifier::reject_recursive_types(T)]
#[verifier::reject_recursive_types(V)]
pub(crate) struct Store<T, V> {
    map: dashmap::DashMap<T, Item<V>, std::collections::hash_map::RandomState>,
    contents: Ghost<Map<T, ItemView<V>>>,
}

impl<T, V> View for Store<T, V> {
    type V = Map<T, ItemView<V>>;

    closed spec fn view(&self) -> Map<T, ItemView<V>> {
        self.contents@
    }
}

impl<T: core::cmp::Eq + core::hash::Hash, V> Store<T, V> {
    /// Relies on `dashmap::DashMap::new`: creates an empty map.
    #[verifier::external_body]
    pub(crate) fn new() -> (s: Self)
        ensures
            s@ == (Map::<T, ItemView<V>>::empty()),
    {
        Store { map: dashmap::DashMap::new(), contents: Ghost(Map::empty()) }
    }

    /// Relies on `dashmap::DashMap::insert`: maps `key` to `item`,
    /// replacing and returning the entry the key held before, if any.
    #[verifier::external_body]
    pub(crate) fn insert(&mut self, key: T, item: Item<V>) -> (r: Option<Item<V>>)
        requires
            obeys_key_model::<T>(),
        ensures
            final(self)@ == old(self)@.insert(key, item@),
            old(self)@.contains_key(key) ==> (r matches Some(prev) && prev@ == old(self)@[key]
                && prev.object == old(self)@[key].object),
            !old(self)@.contains_key(key) ==> r is None,
    {
        self.map.insert(key, item)
    }

    /// Relies on `dashmap::DashMap::remove`: deletes the entry under
    /// `key` and returns it, or returns `None` when the key is absent.
    #[verifier::external_body]
    pub(crate) fn remove(&mut self, key: &T) -> (r: Option<Item<V>>)
        requires
            obeys_key_model::<T>(),
        ensures
            final(self)@ == old(self)@.remove(*key),
            old(self)@.contains_key(*key) ==> (r matches Some(prev) && prev@ == old(self)@[*key]
                && prev.object == old(self)@[*key].object),
            !old(self)@.contains_key(*key) ==> r is None,
    {
        self.map.remove(key).map(|(_, item)| item)
    }

    /// Relies on `dashmap::DashMap::retain`: keeps exactly the entries
    /// for which the predicate answers true. The predicate here is the
    /// negation of `Item::expired`, whose contract promises that an entry
    /// without a time-to-live always answers false; whether any other
    /// entry is kept depends on the clock, so all that is promised of it
    /// is that surviving entries are unchanged and nothing appears.
    #[verifier::external_body]
    pub(crate) fn retain_unexpired(&mut self)
        ensures
            forall|k: T|
                #[trigger] final(self)@.contains_key(k) ==> old(self)@.contains_key(k)
                    && final(self)@[k] == old(self)@[k],
            forall|k: T|
                old(self)@.contains_key(k) && old(self)@[k].ttl is None
                    ==> #[trigger] final(self)@.contains_key(k),
    {
        self.map.retain(|_, item| !item.expired());
    }

    /// Relies on `dashmap::DashMap::clear`: removes every entry.
    #[verifier::external_body]
    pub(crate) fn clear(&mut self)
        ensures
            final(self)@ == (Map::<T, ItemView<V>>::empty()),
    {
        self.map.clear()
    }

    /// Relies on `dashmap::DashMap::shrink_to_fit`: gives back unused
    /// capacity; the entries are untouched.
    #[verifier::external_body]
    pub(crate) fn shrink(&mut self)
        ensures
            final(self)@ == old(self)@,
    {
        self.map.shrink_to_fit()
    }
}

impl<T: core::cmp::Eq + core::hash::Hash, V: Clone> Store<T, V> {
    /// Relies on `dashmap::DashMap::get`: yields the entry stored under
    /// `key`, if any; the entry is handed out as a clone, so its stored
    /// object is a clone of the one in the map and its expiry is the same.
    #[verifier::external_body]
    pub(crate) fn get_cloned(&self, key: &T) -> (r: Option<Item<V>>)
        requires
            obeys_key_model::<T>(),
        ensures
            r is Some <==> self@.contains_key(*key),
            r matches Some(it) ==> it@.ttl == self@[*key].ttl && cloned::<V>(
                self@[*key].object,
                it.object,
            ),
    {
        self.map.get(key).map(|entry| entry.value().clone())
    }
}

} // verus!
