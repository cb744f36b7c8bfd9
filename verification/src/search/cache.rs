//! A bounded, time-limited cache of search results keyed by query text.

use crate::search::{results_view, SearchResult};
use moka::sync::Cache;
use vstd::prelude::*;

verus! {

#[verifier::external_type_specification]
#[verifier::external_body]
#[verifier::reject_recursive_types(K)]
#[verifier::reject_recursive_types(V)]
#[verifier::reject_recursive_types(S)]
pub struct ExMokaCache<K, V, S>(moka::sync::Cache<K, V, S>);

/// For each query, the results most recently inserted into the cache since
/// it was built or last invalidated. Moka may drop any entry at any time
/// (capacity eviction, time to live), so this is what a read may give back,
/// not what it must.
pub uninterp spec fn cache_writes(c: Cache<String, Vec<SearchResult>>) -> Map<Seq<char>, Seq<SearchResult>>;

/// The limits a moka cache was built with: its maximum number of entries
/// and the seconds an entry may live.
pub uninterp spec fn cache_limits(c: Cache<String, Vec<SearchResult>>) -> (u64, u64);

/// The longest time to live moka accepts: 1000 years of 365 days.
pub const MAX_TIME_TO_LIVE_SECS: u64 = 31536000000;

/// The record of a cache nothing was written to.
pub open spec fn no_writes() -> Map<Seq<char>, Seq<SearchResult>> {
    Map::empty()
}

/// Seconds an entry may live in the cache.
pub const ENTRY_TIME_TO_LIVE_SECS: u64 = 300;

/// Builds a moka cache holding at most `max_capacity` entries, each for at
/// most `ENTRY_TIME_TO_LIVE_SECS` seconds (`Cache::builder()...build()`).
/// Claimed: a new cache holds no writes and has the given limits. `build`
/// panics for a time to live above 1000 years, which `requires` rules out.
#[verifier::external_body]
fn moka_build(max_capacity: u64, ttl_secs: u64) -> (c: Cache<String, Vec<SearchResult>>)
    requires
        ttl_secs <= MAX_TIME_TO_LIVE_SECS,
    ensures
        cache_writes(c) == no_writes(),
        cache_limits(c) == (max_capacity, ttl_secs),
{
    Cache::builder()
        .max_capacity(max_capacity)
        .time_to_live(std::time::Duration::from_secs(ttl_secs))
        .build()
}

/// `Cache::get`: claimed to give back, when it gives anything, the value
/// most recently inserted for the key since the last invalidation.
#[verifier::external_body]
fn moka_get(c: &Cache<String, Vec<SearchResult>>, key: &str) -> (r: Option<Vec<SearchResult>>)
    ensures
        r matches Some(v) ==> cache_writes(*c).contains_key(key@) && cache_writes(*c)[key@] == v@,
{
    c.get(key)
}

/// `Cache::insert`: claimed to record `value` as the latest write for `key`;
/// the limits stay.
#[verifier::external_body]
fn moka_insert(c: &mut Cache<String, Vec<SearchResult>>, key: String, value: Vec<SearchResult>)
    ensures
        cache_writes(*final(c)) == cache_writes(*old(c)).insert(key@, value@),
        cache_limits(*final(c)) == cache_limits(*old(c)),
{
    c.insert(key, value)
}

/// `Cache::invalidate_all`: claimed to make every earlier write unreadable;
/// the limits stay.
#[verifier::external_body]
fn moka_invalidate_all(c: &mut Cache<String, Vec<SearchResult>>)
    ensures
        cache_writes(*final(c)) == no_writes(),
        cache_limits(*final(c)) == cache_limits(*old(c)),
{
    c.invalidate_all()
}

/// `Cache::run_pending_tasks`: maintenance (evictions, expirations); claimed
/// to record no write and to keep the limits.
#[verifier::external_body]
fn moka_run_pending_tasks(c: &mut Cache<String, Vec<SearchResult>>)
    ensures
        cache_writes(*final(c)) == cache_writes(*old(c)),
        cache_limits(*final(c)) == cache_limits(*old(c)),
{
    c.run_pending_tasks()
}

/// `Cache::entry_count`: moka's count of live entries. Claimed: it never
/// exceeds the capacity the cache was built with (moka stores "up to the
/// max_capacity", and the count is only updated by its maintenance, which
/// evicts down to the capacity).
#[verifier::external_body]
fn moka_entry_count(c: &Cache<String, Vec<SearchResult>>) -> (r: u64)
    ensures
        r <= cache_limits(*c).0,
{
    c.entry_count()
}

/// Least-recently-used cache of search results, entries expiring after five minutes.
pub struct SearchCache {
    cache: Cache<String, Vec<SearchResult>>,
}

impl View for SearchCache {
    type V = Map<Seq<char>, Seq<SearchResult>>;

    closed spec fn view(&self) -> Map<Seq<char>, Seq<SearchResult>> {
        cache_writes(self.cache)
    }
}

impl SearchCache {
    /// Most entries the cache holds.
    pub closed spec fn max_capacity(&self) -> u64 {
        cache_limits(self.cache).0
    }

    /// Seconds an entry may live in the cache.
    pub closed spec fn time_to_live(&self) -> u64 {
        cache_limits(self.cache).1
    }

    /// An empty cache holding at most `max_capacity` entries, each for
    /// `ENTRY_TIME_TO_LIVE_SECS` seconds.
    pub fn new(max_capacity: u64) -> (r: SearchCache)
        ensures
            r@ == no_writes(),
            r.max_capacity() == max_capacity,
            r.time_to_live() == ENTRY_TIME_TO_LIVE_SECS,
    {
        SearchCache { cache: moka_build(max_capacity, ENTRY_TIME_TO_LIVE_SECS) }
    }

    /// What a `get` of `query` may give back: nothing, or the results last
    /// set for `query` since the cache was built or cleared.
    pub open spec fn may_answer(self, query: Seq<char>, answer: Option<Seq<SearchResult>>) -> bool {
        match answer {
            Some(v) => self@.contains_key(query) && self@[query] == v,
            None => true,
        }
    }

    /// The cached results for `query`, if the cache still holds them.
    pub fn get(&self, query: &str) -> (r: Option<Vec<SearchResult>>)
        ensures
            self.may_answer(query@, results_view(r)),
    {
        moka_get(&self.cache, query)
    }

    /// Caches `results` for `query`, replacing what was cached for it.
    pub fn set(&mut self, query: String, results: Vec<SearchResult>)
        ensures
            final(self)@ == old(self)@.insert(query@, results@),
            final(self).max_capacity() == old(self).max_capacity(),
            final(self).time_to_live() == old(self).time_to_live(),
    {
        moka_insert(&mut self.cache, query, results)
    }

    /// Forgets every cached entry.
    pub fn clear(&mut self)
        ensures
            final(self)@ == no_writes(),
            final(self).max_capacity() == old(self).max_capacity(),
            final(self).time_to_live() == old(self).time_to_live(),
    {
        moka_invalidate_all(&mut self.cache)
    }

    /// The number of live entries, once pending evictions have run: at most
    /// the capacity.
    pub fn entry_count(&mut self) -> (r: u64)
        ensures
            r <= old(self).max_capacity(),
            final(self)@ == old(self)@,
            final(self).max_capacity() == old(self).max_capacity(),
            final(self).time_to_live() == old(self).time_to_live(),
    {
        moka_run_pending_tasks(&mut self.cache);
        moka_entry_count(&self.cache)
    }
}

/// A read gives back the last write: after `set(query, results)`, a `get`
/// of `query` gives back `results` or nothing; it may give back `results`;
/// and a `get` of any other query gives back nothing or what it could give
/// back before.
pub proof fn read_gives_back_last_write(
    before: SearchCache,
    after: SearchCache,
    query: Seq<char>,
    results: Seq<SearchResult>,
)
    requires
        after@ == before@.insert(query, results),
    ensures
        forall|a: Option<Seq<SearchResult>>| #[trigger] after.may_answer(query, a) ==> (a is None || a == Some(results)),
        after.may_answer(query, Some(results)),
        forall|other: Seq<char>, a: Option<Seq<SearchResult>>|
            other != query && #[trigger] after.may_answer(other, a) ==> before.may_answer(other, a),
{
}

/// After `clear`, a `get` of any query gives back nothing until it is set again.
pub proof fn clear_forgets_everything(after: SearchCache)
    requires
        after@ == no_writes(),
    ensures
        forall|query: Seq<char>, a: Option<Seq<SearchResult>>| #[trigger] after.may_answer(query, a) ==> a is None,
{
}

} // verus!
