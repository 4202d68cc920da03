//! The bounded caches of the proxy, kept in `moka::sync::Cache`, and what is
//! taken on trust about them.
//!
//! A cache may drop entries on its own (capacity, time to live), so nothing
//! here promises that an inserted entry is still there later: the contracts
//! say which entries can be present, never which must be.

use vstd::prelude::*;
use std::time::Duration;

verus! {

/// `moka::sync::Cache`: what it holds is spoken of through `cache_entries` only.
#[verifier::external_type_specification]
#[verifier::external_body]
#[verifier::reject_recursive_types(K)]
#[verifier::reject_recursive_types(V)]
#[verifier::reject_recursive_types(S)]
pub struct ExCache<K, V, S>(moka::sync::Cache<K, V, S>);

/// The entries that the cache would answer with right now, by key.
pub uninterp spec fn cache_entries(cache: moka::sync::Cache<String, bool>) -> Map<Seq<char>, bool>;

/// The cache without entries.
pub open spec fn no_entries() -> Map<Seq<char>, bool> {
    Map::empty()
}

/// `moka::sync::Cache::new`: an empty cache bounded to `max_capacity` entries.
#[verifier::external_body]
pub(crate) fn cache_bounded(max_capacity: u64) -> (r: moka::sync::Cache<String, bool>)
    ensures
        cache_entries(r) == no_entries(),
{
    moka::sync::Cache::new(max_capacity)
}

/// `moka::sync::Cache::builder().time_to_live(..).build()`: an empty cache
/// whose entries expire `ttl_secs` seconds after they were written. `build`
/// panics on a time to live of more than 1000 years, which `requires` rules out.
#[verifier::external_body]
pub(crate) fn cache_expiring(ttl_secs: u64) -> (r: moka::sync::Cache<String, bool>)
    requires
        ttl_secs <= 31_536_000_000,
    ensures
        cache_entries(r) == no_entries(),
{
    moka::sync::Cache::builder().time_to_live(Duration::from_secs(ttl_secs)).build()
}

/// `moka::sync::Cache::get`: the value held for `key`, if one is held.
/// Reading may let the cache drop entries, never gain or change any.
#[verifier::external_body]
pub(crate) fn cache_get(cache: &mut moka::sync::Cache<String, bool>, key: &str) -> (r: Option<bool>)
    ensures
        r == (if cache_entries(*old(cache)).dom().contains(key@) {
            Some(cache_entries(*old(cache))[key@])
        } else {
            None
        }),
        cache_entries(*final(cache)).submap_of(cache_entries(*old(cache))),
{
    cache.get(key)
}

/// `moka::sync::Cache::insert`: afterwards the cache holds nothing beyond
/// what it held before, with `key` now mapped to `value` if it is held.
#[verifier::external_body]
pub(crate) fn cache_insert(cache: &mut moka::sync::Cache<String, bool>, key: String, value: bool)
    ensures
        cache_entries(*final(cache)).submap_of(cache_entries(*old(cache)).insert(key@, value)),
{
    cache.insert(key, value)
}

/// `moka::sync::Cache::invalidate_all`. The clause rests on the guarantee in
/// the method's documentation: `get` and the other retrieval methods do not
/// return entries inserted before or at the invalidation time. So nothing
/// that was held when the call was made is answered with afterwards.
#[verifier::external_body]
pub(crate) fn cache_invalidate_all(cache: &mut moka::sync::Cache<String, bool>)
    ensures
        cache_entries(*final(cache)) == no_entries(),
{
    cache.invalidate_all()
}

} // verus!
