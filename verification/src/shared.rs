//! A shared-ownership, synchronized cache handle.
//!
//! [`SharedRUMCache`] wraps a [`LazyRUMCache`] in a verified
//! reader/writer lock, so one handle can be reached from many call
//! sites (behind `std::sync::Arc`, from several threads) without data
//! races.  A get-or-compute acquires the write lock for the whole of
//! lookup, factory invocation and insertion, so concurrent callers of
//! the same new key are serialized and only the first one's factory
//! runs; the others find the entry already present.  The first writer
//! wins, and no redundant computation ever starts.
//!
//! The lock carries an invariant chosen at the type level through
//! [`CacheValueInv`]: every value the cache ever stores under a key
//! satisfies `Inv::inv` for that key.  Callers must hand in factories
//! that keep it, and every returned value is a copy of a stored value
//! satisfying it.

use vstd::prelude::*;
use vstd::rwlock::{RwLock, RwLockPredicate};
use vstd::std_specs::hash::obeys_key_model;
use core::hash::Hash;
use core::marker::PhantomData;
use crate::cache::{get_or_set_from_cache, new_cache, try_get_or_set_from_cache, LazyRUMCache};

verus! {

/// A per-entry invariant for a shared cache: what must hold of every
/// value stored under a given key.  The implementing type only
/// configures the cache; it carries no data.
pub trait CacheValueInv<K, V> {
    spec fn inv(key: K, value: V) -> bool;
}

/// The configuration that places no constraint on cached values.
pub struct AnyValue;

impl<K, V> CacheValueInv<K, V> for AnyValue {
    open spec fn inv(key: K, value: V) -> bool {
        true
    }
}

/// The lock predicate of a shared cache: every entry of the guarded
/// cache satisfies the configured per-entry invariant.
pub struct EntriesSatisfy<K, V, Inv> {
    marker: PhantomData<(K, V, Inv)>,
}

impl<K, V, Inv: CacheValueInv<K, V>> RwLockPredicate<LazyRUMCache<K, V>> for EntriesSatisfy<
    K,
    V,
    Inv,
> {
    open spec fn inv(self, cache: LazyRUMCache<K, V>) -> bool {
        forall|k: K| #[trigger] cache@.contains_key(k) ==> Inv::inv(k, cache@[k])
    }
}

/// A cache handle that may be shared among concurrent call sites.
/// Every access goes through an exclusive lock; the guarded cache
/// always satisfies the configured per-entry invariant.
pub struct SharedRUMCache<K, V, Inv: CacheValueInv<K, V>> {
    lock: RwLock<LazyRUMCache<K, V>, EntriesSatisfy<K, V, Inv>>,
}

/// Creates a shared cache handle; as with [`new_cache`], no backing
/// storage is allocated until the first access.
pub fn new_shared_cache<K, V, Inv: CacheValueInv<K, V>>() -> SharedRUMCache<K, V, Inv> {
    let cache = new_cache::<K, V>();
    SharedRUMCache { lock: RwLock::new(cache, Ghost(EntriesSatisfy { marker: PhantomData })) }
}

/// Looks `key` up in a shared cache, invoking `new_fn` and storing its
/// result if the key is absent, as [`get_or_set_from_cache`] does, all
/// under the cache's write lock: of several concurrent callers of the
/// same new key, exactly one runs its factory.  The factory must keep
/// the cache's per-entry invariant, and the result is a copy of a
/// stored value satisfying it.  The factory runs on the caller's
/// thread while the lock is held, so it must not touch the same cache.
pub fn get_or_set_shared<K, V, Inv, F>(cache: &SharedRUMCache<K, V, Inv>, key: K, new_fn: F) -> (result:
    V) where K: Hash + Eq, V: Clone, Inv: CacheValueInv<K, V>, F: Fn(&K) -> V,
    requires
        obeys_key_model::<K>(),
        call_requires(new_fn, (&key,)),
        forall|r: V| call_ensures(new_fn, (&key,), r) ==> Inv::inv(key, r),
    ensures
        exists|stored: V| #[trigger] Inv::inv(key, stored) && cloned::<V>(stored, result),
{
    let (mut inner, handle) = cache.lock.acquire_write();
    let ghost prior = inner@;
    let v_ref = get_or_set_from_cache(&mut inner, key, new_fn);
    let ghost stored = *v_ref;
    let result = v_ref.clone();
    proof {
        assert(Inv::inv(key, stored));
        assert forall|k: K| #[trigger] inner@.contains_key(k) implies Inv::inv(k, inner@[k]) by {
            if k != key {
                assert(prior.contains_key(k) && inner@[k] == prior[k]);
            }
        }
    }
    handle.release_write(inner);
    result
}

/// Like [`get_or_set_shared`], for values that can be copied bit for
/// bit: the result is then exactly a stored value satisfying the
/// configured invariant, not merely a clone of one.
pub fn get_or_copy_shared<K, V, Inv, F>(cache: &SharedRUMCache<K, V, Inv>, key: K, new_fn: F) -> (result:
    V) where K: Hash + Eq, V: Copy, Inv: CacheValueInv<K, V>, F: Fn(&K) -> V,
    requires
        obeys_key_model::<K>(),
        call_requires(new_fn, (&key,)),
        forall|r: V| call_ensures(new_fn, (&key,), r) ==> Inv::inv(key, r),
    ensures
        Inv::inv(key, result),
{
    let (mut inner, handle) = cache.lock.acquire_write();
    let ghost prior = inner@;
    let v_ref = get_or_set_from_cache(&mut inner, key, new_fn);
    let result = *v_ref;
    proof {
        assert(Inv::inv(key, result));
        assert forall|k: K| #[trigger] inner@.contains_key(k) implies Inv::inv(k, inner@[k]) by {
            if k != key {
                assert(prior.contains_key(k) && inner@[k] == prior[k]);
            }
        }
    }
    handle.release_write(inner);
    result
}

/// Like [`get_or_copy_shared`], for a factory that can fail: its
/// failure is returned as is and leaves every entry of the shared
/// cache unchanged, so the key stays absent and a later caller may
/// retry.  A failure can only come from this call's own factory; a
/// cached key is returned without consulting the factory.
pub fn try_get_or_copy_shared<K, V, E, Inv, F>(
    cache: &SharedRUMCache<K, V, Inv>,
    key: K,
    new_fn: F,
) -> (result: Result<V, E>) where
    K: Hash + Eq,
    V: Copy,
    Inv: CacheValueInv<K, V>,
    F: Fn(&K) -> Result<V, E>,
    requires
        obeys_key_model::<K>(),
        call_requires(new_fn, (&key,)),
        forall|r: V| call_ensures(new_fn, (&key,), Result::<V, E>::Ok(r)) ==> Inv::inv(key, r),
    ensures
        (match result {
            Ok(v) => Inv::inv(key, v),
            Err(e) => call_ensures(new_fn, (&key,), Result::<V, E>::Err(e)),
        }),
{
    let (mut inner, handle) = cache.lock.acquire_write();
    let ghost prior = inner@;
    let attempt = try_get_or_set_from_cache(&mut inner, key, new_fn);
    let result = match attempt {
        Ok(v_ref) => Ok(*v_ref),
        Err(e) => Err(e),
    };
    proof {
        assert forall|k: K| #[trigger] inner@.contains_key(k) implies Inv::inv(k, inner@[k]) by {
            if k != key {
                assert(prior.contains_key(k) && inner@[k] == prior[k]);
            }
        }
    }
    handle.release_write(inner);
    result
}

} // verus!
