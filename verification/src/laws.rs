//! Laws of the get-or-compute operation, stated over its abstract
//! effect [`memoized`] and proved once for every cache state, key and
//! value.

use vstd::prelude::*;
use crate::cache::memoized;

verus! {

/// Idempotence: a get-or-compute for a key leaves any later
/// get-or-compute for the same key with nothing to do — the cache is
/// unchanged and the key denotes the value established by the first
/// operation (the stored value on a hit, the computed one on a miss),
/// whatever a later factory would have computed.
pub proof fn lemma_memoize_idempotent<K, V>(m: Map<K, V>, key: K, v1: V, v2: V)
    ensures
        memoized(memoized(m, key, v1), key, v2) == memoized(m, key, v1),
        memoized(m, key, v1).contains_key(key),
        memoized(m, key, v1)[key] == (if m.contains_key(key) {
            m[key]
        } else {
            v1
        }),
{
}

/// Failure leaves no trace: a failed computation leaves the cache as
/// it was, so its key is still absent, and a later get-or-compute for
/// that key therefore stores and returns whatever value it computes —
/// a retry is never blocked by an earlier failure.
pub proof fn lemma_retry_after_failure<K, V>(m: Map<K, V>, key: K, value: V)
    requires
        !m.contains_key(key),
    ensures
        memoized(m, key, value) == m.insert(key, value),
        memoized(m, key, value).contains_key(key),
        memoized(m, key, value)[key] == value,
{
}

/// Key independence: a get-or-compute under one key neither adds,
/// removes nor changes what the cache holds under any other key.
pub proof fn lemma_memoize_key_independent<K, V>(m: Map<K, V>, k1: K, k2: K, v: V)
    requires
        k1 != k2,
    ensures
        memoized(m, k1, v).contains_key(k2) == m.contains_key(k2),
        m.contains_key(k2) ==> memoized(m, k1, v)[k2] == m[k2],
{
}

} // verus!
