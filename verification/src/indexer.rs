//! The content cache's keys and staleness rule: results are cached per
//! provider, tab and normalised query, and expire after a time-to-live.

use vstd::prelude::*;
use crate::ipc::{MediaTab, tab_bar_label};
use crate::text::{owned, to_lowercase, trim, trim_spec, unicode_lowercase};

verus! {

/// Most cached query results.
pub const DEFAULT_CAPACITY: usize = 512;

/// Seconds a cached result stays fresh.
pub const DEFAULT_TTL_SECS: i64 = 300;

/// What a cached result is filed under.
#[derive(Debug, Clone, PartialEq, Eq, Hash)]
pub struct CacheKey {
    pub provider: String,
    /// The tab's name (`Movies`, `Series`, …).
    pub tab: String,
    /// The query, lowercased and trimmed.
    pub query: String,
}

impl CacheKey {
    /// The key of a provider's results for a tab and query: the query is
    /// lowercased (Unicode) and trimmed, so case and surrounding blanks do
    /// not split the cache.
    pub fn new(provider: &str, tab: &MediaTab, query: &str) -> (k: Self)
        ensures
            k.provider@ == provider@,
            k.tab@ == tab_bar_label(*tab),
            k.query@ == trim_spec(unicode_lowercase(query@)),
    {
        let lower = to_lowercase(query);
        CacheKey { provider: owned(provider), tab: owned(tab.label()), query: trim(lower.as_str()) }
    }
}

/// Whether a result fetched at `fetched_at` is stale at `now` (both in
/// seconds): older than `ttl_secs`.
pub open spec fn is_stale_at(now: int, fetched_at: int, ttl_secs: int) -> bool {
    now - fetched_at > ttl_secs
}

/// Whether a result fetched at `fetched_at` is stale at `now` (see
/// `is_stale_at`).
pub fn is_stale(now: i64, fetched_at: i64, ttl_secs: i64) -> (r: bool)
    ensures
        r == is_stale_at(now as int, fetched_at as int, ttl_secs as int),
{
    (now as i128) - (fetched_at as i128) > (ttl_secs as i128)
}

} // verus!
