//! A lazily initialized memoization cache and its get-or-compute
//! operation.
//!
//! [`LazyRUMCache`] is an explicit two-state handle: either no backing
//! store has been allocated yet, or an allocated store holds every entry
//! computed so far.  The first operation against the handle allocates
//! the store, pre-sized for [`DEFAULT_CACHE_PAGE_SIZE`] entries.
//! [`get_or_set_from_cache`] either returns the value already stored
//! under a key, or invokes a caller-supplied factory once, stores its
//! result, and returns it; an entry, once stored, is never changed.

use vstd::prelude::*;
use vstd::std_specs::hash::obeys_key_model;
use std::collections::HashMap;
use core::hash::Hash;
use crate::store::{map_capacity, map_entry_or_insert};

verus! {

/// Number of entries worth of storage reserved when the backing store
/// is first allocated.
pub const DEFAULT_CACHE_PAGE_SIZE: usize = 10;

/// A deferred-allocation handle over a key/value store.
///
/// Abstractly the handle is a mathematical map (its view) together with
/// one bit saying whether the backing store has been allocated; before
/// the first access the map is empty and nothing is allocated.
pub struct LazyRUMCache<K, V> {
    store: Option<HashMap<K, V>>,
}

impl<K, V> View for LazyRUMCache<K, V> {
    type V = Map<K, V>;

    closed spec fn view(&self) -> Map<K, V> {
        match self.store {
            Some(m) => m@,
            None => Map::<K, V>::empty(),
        }
    }
}

impl<K, V> LazyRUMCache<K, V> {
    /// Whether the backing store has been allocated.
    pub closed spec fn spec_is_initialized(&self) -> bool {
        self.store is Some
    }

    /// Reports whether the backing store has been allocated; before the
    /// first cache access it has not.
    #[verifier::when_used_as_spec(spec_is_initialized)]
    pub fn is_initialized(&self) -> (r: bool)
        ensures
            r == self.spec_is_initialized(),
    {
        self.store.is_some()
    }

    /// The number of entries the backing store can hold without growing:
    /// zero before the first access, and afterwards at least the number
    /// of entries cached so far.  The exact reservation is decided by
    /// the store at run time and is not specified further.
    pub fn reserved_capacity(&self) -> (r: usize)
        ensures
            !self.is_initialized() ==> r == 0,
            self.is_initialized() ==> r >= self@.len(),
    {
        match &self.store {
            Some(m) => map_capacity(m),
            None => 0,
        }
    }
}

/// Creates a cache handle without allocating any backing storage: the
/// handle is uninitialized and holds no entries until first accessed.
pub fn new_cache<K, V>() -> (result: LazyRUMCache<K, V>)
    ensures
        !result.is_initialized(),
        result@ == Map::<K, V>::empty(),
{
    LazyRUMCache { store: None }
}

/// Allocates the backing store, pre-sized for [`DEFAULT_CACHE_PAGE_SIZE`]
/// entries, if no access has done so yet, and hands it out; the entries
/// are kept either way.
fn force_init<'a, K, V>(cache: &'a mut LazyRUMCache<K, V>) -> (store: &'a mut HashMap<K, V>)
    ensures
        (*store)@ == old(cache)@,
        final(cache).is_initialized(),
        final(cache)@ == (*final(store))@,
{
    if cache.store.is_none() {
        cache.store = Some(HashMap::with_capacity(DEFAULT_CACHE_PAGE_SIZE));
    }
    match &mut cache.store {
        Some(m) => m,
        None => unreached(),
    }
}

/// The abstract effect of a get-or-compute: a map already holding the
/// key is left alone, and otherwise the computed value is added under
/// the key.
pub open spec fn memoized<K, V>(m: Map<K, V>, key: K, value: V) -> Map<K, V> {
    if m.contains_key(key) {
        m
    } else {
        m.insert(key, value)
    }
}

/// Looks `key` up in the cache, initializing its backing store first if
/// no access has done so yet.  On a hit the stored value is returned
/// and the cache is left as it was; `new_fn` is not needed and its
/// contract is not assumed.  On a miss `new_fn` is invoked once, its
/// result is stored under `key`, and a reference to the stored value is
/// returned.  Either way the returned reference denotes the value the
/// cache now associates with `key`.
///
/// The factory cannot reach back into this cache: the handle is
/// exclusively borrowed for the whole call.
pub fn get_or_set_from_cache<'a, K, V, F>(
    cache: &'a mut LazyRUMCache<K, V>,
    key: K,
    new_fn: F,
) -> (result: &'a V) where K: Hash + Eq, F: Fn(&K) -> V,
    requires
        obeys_key_model::<K>(),
        !old(cache)@.contains_key(key) ==> call_requires(new_fn, (&key,)),
    ensures
        final(cache).is_initialized(),
        final(cache)@.contains_key(key),
        *result == final(cache)@[key],
        final(cache)@ == memoized(old(cache)@, key, *result),
        old(cache)@.contains_key(key) ==> final(cache)@ == old(cache)@ && *result == old(cache)@[key],
        !old(cache)@.contains_key(key) ==> call_ensures(new_fn, (&key,), *result) && final(cache)@
            == old(cache)@.insert(key, *result),
{
    let store = force_init(cache);
    if store.contains_key(&key) {
        match store.get(&key) {
            Some(v) => v,
            None => unreached(),
        }
    } else {
        let value = new_fn(&key);
        map_entry_or_insert(store, key, value)
    }
}

/// Like [`get_or_set_from_cache`], for a factory that can fail.  On a
/// hit the stored value is returned and the factory is not needed.  On
/// a miss the factory is invoked once: its success is stored under
/// `key` and returned, while its failure is returned as is and leaves
/// every entry of the cache unchanged — the key stays absent, so a
/// later call may retry.  The backing store is allocated in either
/// case, this being an access.
pub fn try_get_or_set_from_cache<'a, K, V, E, F>(
    cache: &'a mut LazyRUMCache<K, V>,
    key: K,
    new_fn: F,
) -> (result: Result<&'a V, E>) where K: Hash + Eq, F: Fn(&K) -> Result<V, E>,
    requires
        obeys_key_model::<K>(),
        !old(cache)@.contains_key(key) ==> call_requires(new_fn, (&key,)),
    ensures
        final(cache).is_initialized(),
        (match result {
            Ok(v) => {
                &&& final(cache)@.contains_key(key)
                &&& *v == final(cache)@[key]
                &&& final(cache)@ == memoized(old(cache)@, key, *v)
                &&& (old(cache)@.contains_key(key) ==> final(cache)@ == old(cache)@ && *v == old(cache)@[key])
                &&& (!old(cache)@.contains_key(key) ==> call_ensures(
                    new_fn,
                    (&key,),
                    Result::<V, E>::Ok(*v),
                ) && final(cache)@ == old(cache)@.insert(key, *v))
            },
            Err(e) => {
                &&& !old(cache)@.contains_key(key)
                &&& !final(cache)@.contains_key(key)
                &&& final(cache)@ == old(cache)@
                &&& call_ensures(new_fn, (&key,), Result::<V, E>::Err(e))
            },
        }),
{
    let store = force_init(cache);
    if store.contains_key(&key) {
        match store.get(&key) {
            Some(v) => Ok(v),
            None => unreached(),
        }
    } else {
        match new_fn(&key) {
            Ok(value) => Ok(map_entry_or_insert(store, key, value)),
            Err(e) => Err(e),
        }
    }
}

} // verus!
