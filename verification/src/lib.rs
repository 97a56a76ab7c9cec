//! A lazily initialized, generic memoization cache.
//!
//! The cache maps keys to values computed once by a caller-supplied
//! factory: a lookup either returns the value already stored under the
//! key or invokes the factory, stores its result, and returns it.
//! Backing storage is allocated on first access only, pre-sized for a
//! handful of entries.

pub mod cache;
pub mod laws;
pub mod shared;
mod store;
