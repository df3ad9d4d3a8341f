//! The calls into `cache_ro`. The cache is shared by the whole process and
//! its entries expire with the wall clock, so nothing is promised here of
//! what a call returns: the callers decide on every possible answer.
use vstd::prelude::*;

verus! {

#[verifier::external_type_specification]
#[verifier::external_body]
pub struct ExCache(cache_ro::Cache);

/// Relies on `cache_ro::Cache::get`: the stored count for `key`, if an entry
/// is live and decodes as a `u32`.
#[verifier::external_body]
pub(crate) fn cache_get(cache: &cache_ro::Cache, key: &str) -> (r: Option<u32>) {
    cache.get::<u32>(key)
}

/// Relies on `cache_ro::Cache::expire`: the time that the entry for `key` has
/// left to live, if it is live.
#[verifier::external_body]
pub(crate) fn cache_expire(cache: &cache_ro::Cache, key: &str) -> (r: Option<std::time::Duration>) {
    cache.expire(key)
}

/// Relies on `cache_ro::Cache::set`: stores `value` under `key` for `ttl`;
/// an error is handed back as its message.
#[verifier::external_body]
pub(crate) fn cache_set(cache: &cache_ro::Cache, key: &str, value: u32, ttl: std::time::Duration) -> (r: Result<(), String>) {
    match cache.set::<u32>(key, value, ttl) {
        Ok(()) => Ok(()),
        Err(e) => Err(e.to_string()),
    }
}

/// Relies on `cache_ro::Cache::remove`: deletes the entry for `key`; an
/// error is handed back as its message.
#[verifier::external_body]
pub(crate) fn cache_remove(cache: &cache_ro::Cache, key: &str) -> (r: Result<(), String>) {
    match cache.remove(key) {
        Ok(()) => Ok(()),
        Err(e) => Err(e.to_string()),
    }
}

} // verus!
