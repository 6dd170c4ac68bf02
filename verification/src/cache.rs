//! The response cache: JSON text kept under a key for a time-to-live,
//! held in a bounded moka cache that also drops entries left unread for
//! twice that long.

use crate::clock::nanos_since;
use moka::sync::Cache as MokaCache;
use std::time::{Duration, Instant};
use vstd::prelude::*;

verus! {

#[verifier::external_type_specification]
#[verifier::external_body]
#[verifier::reject_recursive_types(K)]
#[verifier::reject_recursive_types(V)]
#[verifier::reject_recursive_types(S)]
pub struct ExMokaCache<K, V, S>(MokaCache<K, V, S>);

/// What the cache holds under a key: the JSON text of a response and the
/// moment it stops being fresh, in nanoseconds on the cache's own clock.
#[derive(Clone)]
pub struct CacheEntry {
    pub value: String,
    pub expires_at: u128,
}

/// The most entries the cache keeps.
pub const MAX_ENTRIES: u64 = 10_000;

/// The longest time-to-idle moka accepts: a thousand years of 365 days.
pub const MAX_IDLE_SECS: u64 = 31_536_000_000;

/// The most entries a moka cache keeps, as its `policy().max_capacity()`
/// reports; moka fixes it when the cache is built.
pub uninterp spec fn moka_max_capacity(c: MokaCache<String, CacheEntry>) -> Option<u64>;

/// The whole seconds of a moka cache's time-to-idle, as its
/// `policy().time_to_idle()` reports; moka fixes it when the cache is built.
pub uninterp spec fn moka_idle_secs(c: MokaCache<String, CacheEntry>) -> Option<u64>;

/// moka's `Cache::builder().max_capacity(..).time_to_idle(..).build()`:
/// an empty cache bounded to `capacity` entries that drops an entry left
/// unread for `idle_secs` seconds; its policy reports exactly these two
/// settings. moka's `build` panics beyond a thousand years of idle time,
/// which `requires` rules out. Nothing is claimed of what the cache holds
/// later: its contents change behind shared references, as entries expire
/// and are evicted.
#[verifier::external_body]
fn moka_build(capacity: u64, idle_secs: u64) -> (c: MokaCache<String, CacheEntry>)
    requires
        idle_secs <= MAX_IDLE_SECS,
    ensures
        moka_max_capacity(c) == Some(capacity),
        moka_idle_secs(c) == Some(idle_secs),
{
    MokaCache::builder().max_capacity(capacity).time_to_idle(Duration::from_secs(idle_secs)).build()
}

/// moka's `Cache::get`: a clone of the entry under `key`, if the cache
/// still holds one. What it holds depends on earlier inserts, expiry and
/// eviction, so nothing is claimed of the result.
#[verifier::external_body]
fn moka_get(cache: &MokaCache<String, CacheEntry>, key: &str) -> Option<CacheEntry> {
    cache.get(key)
}

/// moka's `Cache::insert`: stores `entry` under `key`, replacing any
/// entry there. The contents sit behind a shared reference, so nothing is
/// stated of them.
#[verifier::external_body]
fn moka_insert(cache: &MokaCache<String, CacheEntry>, key: String, entry: CacheEntry) {
    cache.insert(key, entry)
}

/// moka's `Cache::invalidate`: discards any entry under `key`.
#[verifier::external_body]
fn moka_invalidate(cache: &MokaCache<String, CacheEntry>, key: &str) {
    cache.invalidate(key)
}

/// moka's `Cache::entry_count`: moka documents it as an estimate, so
/// nothing is claimed of it.
#[verifier::external_body]
fn moka_entry_count(cache: &MokaCache<String, CacheEntry>) -> u64 {
    cache.entry_count()
}

/// One second in nanoseconds.
pub const NANOS_PER_SEC: u128 = 1_000_000_000;

/// The moment `ttl_secs` seconds after `now`, or the end of the clock.
pub open spec fn expiry_spec(now: u128, ttl_secs: u64) -> u128 {
    let later = now + ttl_secs * NANOS_PER_SEC;
    if later <= u128::MAX { later as u128 } else { u128::MAX }
}

/// The moment `ttl_secs` seconds after `now`, or the end of the clock.
pub fn expiry(now: u128, ttl_secs: u64) -> (t: u128)
    ensures
        t == expiry_spec(now, ttl_secs),
{
    let span: u128 = (ttl_secs as u128) * NANOS_PER_SEC;
    if now <= u128::MAX - span {
        now + span
    } else {
        u128::MAX
    }
}

/// An entry is fresh while its expiry lies ahead.
pub open spec fn is_fresh(e: CacheEntry, now: u128) -> bool {
    e.expires_at > now
}

/// What a lookup gives back: the text of a fresh entry, nothing otherwise.
pub open spec fn lookup_spec(found: Option<CacheEntry>, now: u128) -> Option<Seq<char>> {
    match found {
        Some(e) => if is_fresh(e, now) { Some(e.value@) } else { None },
        None => None,
    }
}

/// The text of `found` if it is still fresh at `now`.
pub fn lookup(found: Option<CacheEntry>, now: u128) -> (r: Option<String>)
    ensures
        match r {
            Some(v) => lookup_spec(found, now) == Some(v@),
            None => lookup_spec(found, now) is None,
        },
{
    match found {
        Some(e) => if e.expires_at > now { Some(e.value) } else { None },
        None => None,
    }
}

/// A stored entry read back at a moment before its expiry is found, with
/// the text that was stored.
pub proof fn stored_entry_reads_back(value: String, now: u128, later: u128, ttl_secs: u64)
    requires
        later < expiry_spec(now, ttl_secs),
    ensures
        lookup_spec(Some(CacheEntry { value, expires_at: expiry_spec(now, ttl_secs) }), later)
            == Some(value@),
{
}

/// An entry read back at or after its expiry is not found.
pub proof fn expired_entry_is_dropped(e: CacheEntry, now: u128)
    requires
        now >= e.expires_at,
    ensures
        lookup_spec(Some(e), now) is None,
{
}

/// The response cache: JSON texts under keys, each fresh for a
/// time-to-live from when it was stored.
pub struct Cache {
    inner: MokaCache<String, CacheEntry>,
    ttl_secs: u64,
    origin: Instant,
}

impl Cache {
    /// The time-to-live of entries stored with `set`.
    pub closed spec fn ttl(&self) -> u64 {
        self.ttl_secs
    }

    /// The most entries the underlying moka cache keeps.
    pub closed spec fn capacity(&self) -> Option<u64> {
        moka_max_capacity(self.inner)
    }

    /// How long, in seconds, an unread entry stays in the underlying moka
    /// cache.
    pub closed spec fn idle_secs(&self) -> Option<u64> {
        moka_idle_secs(self.inner)
    }

    /// An empty cache of at most ten thousand entries, whose entries stay
    /// fresh for `ttl_seconds` and leave it when unread for twice that.
    pub fn new(ttl_seconds: u64) -> (c: Cache)
        requires
            ttl_seconds * 2 <= MAX_IDLE_SECS,
        ensures
            c.ttl() == ttl_seconds,
            c.capacity() == Some(MAX_ENTRIES),
            c.idle_secs() == Some((ttl_seconds * 2) as u64),
    {
        Cache {
            inner: moka_build(MAX_ENTRIES, ttl_seconds * 2),
            ttl_secs: ttl_seconds,
            origin: crate::clock::instant_now(),
        }
    }

    /// The text stored under `key`, if it is still fresh; a stale entry
    /// is discarded.
    pub fn get(&self, key: &str) -> Option<String> {
        let found = moka_get(&self.inner, key);
        let (now, _) = nanos_since(&self.origin);
        let stale = match &found {
            Some(e) => e.expires_at <= now,
            None => false,
        };
        if stale {
            moka_invalidate(&self.inner, key);
        }
        lookup(found, now)
    }

    /// Stores `json` under `key`, fresh for the cache's time-to-live.
    /// Gives back, as ghost values, the key, the clock reading taken and
    /// the entry handed to moka: `json` with its expiry `ttl` seconds
    /// after that reading.
    pub fn set(&self, key: String, json: String) -> (stored: Ghost<(Seq<char>, u128, CacheEntry)>)
        ensures
            stored@.0 == key@,
            stored@.2.value@ == json@,
            stored@.2.expires_at == expiry_spec(stored@.1, self.ttl()),
    {
        let ghost k = key@;
        let (now, _) = nanos_since(&self.origin);
        let entry = CacheEntry { value: json, expires_at: expiry(now, self.ttl_secs) };
        let ghost handed = entry;
        moka_insert(&self.inner, key, entry);
        Ghost((k, now, handed))
    }

    /// Stores `json` under `key`, fresh for `ttl_seconds`. Gives back, as
    /// ghost values, the key, the clock reading taken and the entry handed
    /// to moka: `json` with its expiry `ttl_seconds` after that reading.
    pub fn set_with_ttl(&self, key: String, json: String, ttl_seconds: u64) -> (stored: Ghost<(Seq<char>, u128, CacheEntry)>)
        ensures
            stored@.0 == key@,
            stored@.2.value@ == json@,
            stored@.2.expires_at == expiry_spec(stored@.1, ttl_seconds),
    {
        let ghost k = key@;
        let (now, _) = nanos_since(&self.origin);
        let entry = CacheEntry { value: json, expires_at: expiry(now, ttl_seconds) };
        let ghost handed = entry;
        moka_insert(&self.inner, key, entry);
        Ghost((k, now, handed))
    }

    /// About how many entries the cache holds.
    pub fn entry_count(&self) -> u64 {
        moka_entry_count(&self.inner)
    }
}

} // verus!
