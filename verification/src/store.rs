//! Trusted boundary around the backing store.
//!
//! The store is a `std::collections::HashMap`, whose behaviour `vstd`
//! already specifies; the cache logic calls it directly and is verified
//! against those specifications.  Two operations `vstd` does not cover
//! are wrapped here with contracts of their own: inserting an absent
//! entry and borrowing the stored value back in one step, and reading
//! the reserved capacity.
//!
//! The contracts of key-dependent operations hold only for key types
//! that obey the hash-table key model of `vstd` (deterministic hashing,
//! equality consistent with `==`, exact cloning); they therefore require
//! [`obeys_key_model`].

use vstd::prelude::*;
use vstd::std_specs::hash::obeys_key_model;
use std::collections::HashMap;
use core::hash::Hash;

verus! {

/// Relies on `std::collections::HashMap::entry` followed by
/// `Entry::or_insert`: the entry under `key` is created with `value` if
/// it was absent and left as it was otherwise, and a reference to the
/// stored value is returned.
#[verifier::external_body]
pub(crate) fn map_entry_or_insert<'a, K: Hash + Eq, V>(
    m: &'a mut HashMap<K, V>,
    key: K,
    value: V,
) -> (r: &'a V)
    requires
        obeys_key_model::<K>(),
    ensures
        !old(m)@.contains_key(key) ==> final(m)@ == old(m)@.insert(key, value) && *r == value,
        old(m)@.contains_key(key) ==> final(m)@ == old(m)@ && *r == old(m)@[key],
{
    m.entry(key).or_insert(value)
}

/// Relies on `std::collections::HashMap::capacity`: the result is the
/// number of entries the map can hold without reallocating, so it is at
/// least the number it holds now.
#[verifier::external_body]
pub(crate) fn map_capacity<K, V>(m: &HashMap<K, V>) -> (r: usize)
    ensures
        r >= m@.len(),
{
    m.capacity()
}

} // verus!
