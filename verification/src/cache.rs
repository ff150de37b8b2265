//! The cache: a mapping from keys to expiring entries.
//!
//! Every operation applies expiry-aware semantics on read: an entry whose
//! time-to-live has elapsed is invisible to `get`, though it may linger
//! physically until a `set`, `remove`, `remove_expired` or `clear`
//! touches it.
//!
//! The contracts speak of the cache's mathematical content, a
//! `Map<T, ItemView<V>>`, and identify keys up to mathematical equality.
//! The storage identifies them by `Hash` and `==`; the two agree exactly
//! when `vstd::std_specs::hash::obeys_key_model` holds of the key type,
//! which it does for all primitive integer types, so the operations that
//! look a key up require it.

use vstd::prelude::*;
use vstd::std_specs::hash::obeys_key_model;

use core::hash::Hash;

use crate::item::Item;
use crate::item::ItemView;
use crate::item::is_expired_after;
use crate::item::ttl_of;
use crate::store::Store;
use crate::time::Duration;

verus! {

/// A cache of expiring entries with a default item expiration time.
#[verifier::reject_recursive_types(T)]
#[verifier::reject_recursive_types(V)]
pub struct Cache<T, V> {
    items: Store<T, V>,
    item_duration: Option<Duration>,
}

/// The time-to-live an entry receives: the per-call duration when one is
/// given, the cache's default otherwise.
pub open spec fn effective_ttl(custom: Option<u128>, default: Option<u128>) -> Option<u128> {
    if custom is Some {
        custom
    } else {
        default
    }
}

impl<T, V> Cache<T, V> {
    /// The entries the cache physically holds, expired ones included.
    pub closed spec fn entries(&self) -> Map<T, ItemView<V>> {
        self.items@
    }

    /// The default time-to-live, in nanoseconds, that `set` falls back
    /// to; `None` means items do not expire by default.
    pub closed spec fn default_ttl(&self) -> Option<u128> {
        ttl_of(self.item_duration)
    }
}

impl<T, V> Cache<T, V> where T: Eq + Hash, V: Clone {
    /// Construct a new `Cache` with a default item expiration time.
    /// An item duration of `None` means items do not expire by default.
    pub fn new(item_duration: Option<Duration>) -> (cache: Self)
        ensures
            cache.entries() == (Map::<T, ItemView<V>>::empty()),
            cache.default_ttl() == ttl_of(item_duration),
    {
        Cache { items: Store::new(), item_duration }
    }

    /// Get a cache item associated with a given key. An absent key yields
    /// `None`; a present entry without a time-to-live is owed; a present
    /// entry with one is yielded only while it is unexpired, and what is
    /// yielded is a clone of the stored value.
    pub fn get(&self, key: &T) -> (r: Option<V>)
        requires
            obeys_key_model::<T>(),
        ensures
            !self.entries().contains_key(*key) ==> r is None,
            r is Some ==> self.entries().contains_key(*key),
            r matches Some(v) ==> cloned::<V>(self.entries()[*key].object, v),
            self.entries().contains_key(*key) && self.entries()[*key].ttl is None ==> r is Some,
    {
        match self.items.get_cloned(key) {
            None => None,
            Some(item) => {
                if item.expired() {
                    None
                } else {
                    Some(item.object)
                }
            },
        }
    }

    /// Set an item in the cache with an associated key, unconditionally
    /// replacing any entry the key held before, expired or not, and
    /// returning the previous value if there was one. The item receives
    /// the given duration, falling back to the cache's default duration
    /// when `None` is given.
    pub fn set(&mut self, key: T, value: V, custom_duration: Option<Duration>) -> (r: Option<V>)
        requires
            obeys_key_model::<T>(),
        ensures
            final(self).default_ttl() == old(self).default_ttl(),
            final(self).entries() == old(self).entries().insert(
                key,
                (ItemView {
                    object: value,
                    ttl: effective_ttl(ttl_of(custom_duration), old(self).default_ttl()),
                }),
            ),
            old(self).entries().contains_key(key) ==> (r matches Some(prev) && prev == old(self).entries()[key].object),
            !old(self).entries().contains_key(key) ==> r is None,
    {
        let duration = match custom_duration {
            Some(d) => Some(d),
            None => self.item_duration,
        };
        let item = Item::new(value, duration);
        let prev = self.items.insert(key, item);
        match prev {
            None => None,
            Some(p) => Some(p.object),
        }
    }

    /// Remove all expired items from the cache. Entries without a
    /// time-to-live are never removed; the entries that survive are
    /// exactly as they were, and nothing appears. Which entries with a
    /// time-to-live are swept depends on the clock at scan time.
    pub fn remove_expired(&mut self)
        ensures
            final(self).default_ttl() == old(self).default_ttl(),
            forall|k: T|
                #[trigger] final(self).entries().contains_key(k) ==> old(self).entries().contains_key(k) && final(self).entries()[k] == old(self).entries()[k],
            forall|k: T|
                old(self).entries().contains_key(k) && old(self).entries()[k].ttl is None
                    ==> #[trigger] final(self).entries().contains_key(k),
    {
        self.items.retain_unexpired();
        self.shrink();
    }

    /// Remove an item from the cache associated with a given key,
    /// returning its value even if the entry was already expired, or
    /// `None` if the key was absent.
    pub fn remove(&mut self, key: &T) -> (r: Option<V>)
        requires
            obeys_key_model::<T>(),
        ensures
            final(self).default_ttl() == old(self).default_ttl(),
            final(self).entries() == old(self).entries().remove(*key),
            old(self).entries().contains_key(*key) ==> (r matches Some(prev) && prev == old(self).entries()[*key].object),
            !old(self).entries().contains_key(*key) ==> r is None,
    {
        let item = self.items.remove(key);
        self.shrink();
        match item {
            None => None,
            Some(i) => Some(i.object),
        }
    }

    /// Clear the entire cache of all items regardless of expiry times.
    pub fn clear(&mut self)
        ensures
            final(self).default_ttl() == old(self).default_ttl(),
            final(self).entries() == (Map::<T, ItemView<V>>::empty()),
    {
        self.items.clear();
        self.shrink();
    }

    /// Reclaim memory from removed / cleared items. The entries are
    /// untouched.
    pub fn shrink(&mut self)
        ensures
            final(self).default_ttl() == old(self).default_ttl(),
            final(self).entries() == old(self).entries(),
    {
        self.items.shrink()
    }

    /// Whether the cache physically holds an entry under the key,
    /// expired or not.
    pub fn contains_key(&self, key: &T) -> (b: bool)
        requires
            obeys_key_model::<T>(),
        ensures
            b == self.entries().contains_key(*key),
    {
        match self.items.get_cloned(key) {
            None => false,
            Some(_) => true,
        }
    }
}

/// Overwriting: storing under one key twice leaves the second entry, so a
/// later lookup can surface the second value and never the first.
pub proof fn lemma_set_overwrites<T, V>(
    entries: Map<T, ItemView<V>>,
    key: T,
    first: ItemView<V>,
    second: ItemView<V>,
)
    ensures
        entries.insert(key, first).insert(key, second).contains_key(key),
        entries.insert(key, first).insert(key, second)[key] == second,
{
}

/// Removal hides the key: the content a removal leaves behind no longer
/// contains the key, so a later lookup owes `None` for it.
pub proof fn lemma_removed_key_absent<T, V>(entries: Map<T, ItemView<V>>, key: T)
    ensures
        !entries.remove(key).contains_key(key),
{
}

/// A cleared cache holds nothing: no key is present in the empty content,
/// so a later lookup owes `None` for every key, expired or not before.
pub proof fn lemma_cleared_cache_is_empty<T, V>(key: T)
    ensures
        !(Map::<T, ItemView<V>>::empty()).contains_key(key),
{
}

/// A value stored with no per-call duration into a cache whose default
/// duration is `None` becomes an entry without a time-to-live: whatever
/// the clock says, the entry is never expired, so a lookup owes it.
pub proof fn lemma_immortal_entry_stays_visible<T, V>(
    entries: Map<T, ItemView<V>>,
    key: T,
    object: V,
    elapsed: u128,
)
    ensures
        entries.insert(
            key,
            (ItemView { object, ttl: effective_ttl(ttl_of(None::<Duration>), None) }),
        ).contains_key(key),
        !is_expired_after(
            entries.insert(
                key,
                (ItemView { object, ttl: effective_ttl(ttl_of(None::<Duration>), None) }),
            )[key].ttl,
            elapsed,
        ),
{
}

} // verus!
