use std::cell::Cell;

use rumtk_cache::shared::{
    get_or_copy_shared, get_or_set_shared, new_shared_cache, try_get_or_copy_shared, AnyValue,
};

#[test]
fn shared_lookup_computes_once() {
    let cache = new_shared_cache::<u64, u64, AnyValue>();
    let calls: Cell<u32> = Cell::new(0);
    let factory = |k: &u64| {
        calls.set(calls.get() + 1);
        k * 7
    };
    let first = get_or_copy_shared(&cache, 6, factory);
    let second = get_or_copy_shared(&cache, 6, factory);
    assert_eq!(calls.get(), 1);
    assert_eq!(first, 42);
    assert_eq!(second, first);
}

#[test]
fn shared_lookup_clones_stored_value() {
    let cache = new_shared_cache::<u64, String, AnyValue>();
    let calls: Cell<u32> = Cell::new(0);
    let factory = |k: &u64| {
        calls.set(calls.get() + 1);
        format!("entry-{}", k)
    };
    let first = get_or_set_shared(&cache, 3, factory);
    let second = get_or_set_shared(&cache, 3, factory);
    assert_eq!(calls.get(), 1);
    assert_eq!(first, "entry-3");
    assert_eq!(second, first);
}

#[test]
fn shared_failure_does_not_poison() {
    let cache = new_shared_cache::<u64, u64, AnyValue>();
    let failing = |_k: &u64| -> Result<u64, String> { Err(String::from("down")) };
    let outcome = try_get_or_copy_shared(&cache, 8, failing);
    assert_eq!(outcome, Err(String::from("down")));

    let succeeding = |k: &u64| -> Result<u64, String> { Ok(k + 1) };
    let stored = try_get_or_copy_shared(&cache, 8, succeeding);
    assert_eq!(stored, Ok(9));

    // The stored value now answers even a failing factory's lookup.
    let again = try_get_or_copy_shared(&cache, 8, failing);
    assert_eq!(again, Ok(9));
}

#[test]
fn shared_keys_are_independent() {
    let cache = new_shared_cache::<u64, u64, AnyValue>();
    let a = get_or_copy_shared(&cache, 1, |k: &u64| k + 100);
    let b = get_or_copy_shared(&cache, 2, |k: &u64| k + 100);
    let a_again = get_or_copy_shared(&cache, 1, |_k: &u64| 0);
    assert_eq!(a, 101);
    assert_eq!(b, 102);
    assert_eq!(a_again, 101);
}
