//! The dedup cache: a bounded-by-eviction mapping from message fingerprint
//! to the wall-clock time it was last seen.
//!
//! The cache is a `dashmap::DashMap`, so inserts and lookups from concurrent
//! submitters are safe; its contents are modelled by the uninterpreted
//! function [`cache_entries`], and every operation the pipeline uses states
//! over that model what the crate's documentation promises.
use vstd::prelude::*;

verus! {

/// A repeat within this window, in microseconds, is a duplicate.
pub const DEDUP_WINDOW_MICROS: u64 = 1000000;

/// An entry older than this, in microseconds, may be evicted.
pub const RETENTION_MICROS: u64 = 300000000;

/// Mapping from message fingerprint to the wall-clock time, in microseconds
/// since the Unix epoch, the fingerprint was last inserted.
#[verifier::external_body]
pub struct FingerprintCache {
    inner: dashmap::DashMap<u64, u64>,
}

/// What the cache holds: fingerprint to last-seen time, in microseconds.
pub uninterp spec fn cache_entries(c: FingerprintCache) -> Map<u64, u64>;

/// The contents of a cache with nothing in it.
pub open spec fn empty_cache_model() -> Map<u64, u64> {
    Map::empty()
}

/// An entry seen at `last_seen` still blocks an equal message at `now`.
/// A clock that moved backwards blocks as well.
pub open spec fn spec_within_dedup_window(last_seen: u64, now: u64) -> bool {
    now - last_seen < DEDUP_WINDOW_MICROS
}

/// Whether a fingerprint counts as a duplicate against the given cache
/// contents at the given time.
pub open spec fn spec_is_duplicate(m: Map<u64, u64>, fp: u64, now: u64) -> bool {
    m.contains_key(fp) && spec_within_dedup_window(m[fp], now)
}

/// An entry seen at `last_seen` is still young enough at `now` to survive an
/// eviction pass. A clock that moved backwards keeps the entry.
pub open spec fn spec_keep_entry(now: u64, last_seen: u64) -> bool {
    now - last_seen < RETENTION_MICROS
}

/// Decides whether an entry survives an eviction pass at time `now_micros`.
pub fn keep_entry(now_micros: u64, last_seen: u64) -> (r: bool)
    ensures
        r == spec_keep_entry(now_micros, last_seen),
{
    now_micros <= last_seen || now_micros - last_seen < RETENTION_MICROS
}

impl FingerprintCache {
    /// Relies on dashmap::DashMap::new: the new map is empty.
    #[verifier::external_body]
    pub(crate) fn new() -> (r: FingerprintCache)
        ensures
            cache_entries(r) == empty_cache_model(),
    {
        FingerprintCache { inner: dashmap::DashMap::new() }
    }

    /// Relies on dashmap::DashMap::get: the value stored under the key, if
    /// any.
    #[verifier::external_body]
    pub(crate) fn get(&self, fp: u64) -> (r: Option<u64>)
        ensures
            match r {
                Some(t) => cache_entries(*self).contains_key(fp) && t == cache_entries(
                    *self,
                )[fp],
                None => !cache_entries(*self).contains_key(fp),
            },
    {
        self.inner.get(&fp).map(|v| *v)
    }

    /// Relies on dashmap::DashMap::insert: afterwards the key maps to the
    /// given value, and nothing else changed.
    #[verifier::external_body]
    pub(crate) fn insert(&mut self, fp: u64, now_micros: u64)
        ensures
            cache_entries(*final(self)) == cache_entries(*old(self)).insert(fp, now_micros),
    {
        self.inner.insert(fp, now_micros);
    }

    /// Relies on dashmap::DashMap::len: the number of entries.
    #[verifier::external_body]
    pub(crate) fn len(&self) -> (n: usize)
        ensures
            n == cache_entries(*self).len(),
    {
        self.inner.len()
    }

    /// Relies on dashmap::DashMap::retain: exactly the entries the predicate
    /// accepts remain, with their values.
    #[verifier::external_body]
    fn retain_recent(&mut self, now_micros: u64)
        ensures
            cache_entries(*final(self)) == Map::<u64, u64>::new(
                (|fp: u64|
                    cache_entries(*old(self)).contains_key(fp) && spec_keep_entry(
                        now_micros,
                        cache_entries(*old(self))[fp],
                    )),
                (|fp: u64| cache_entries(*old(self))[fp]),
            ),
    {
        self.inner.retain(|_, last_seen| keep_entry(now_micros, *last_seen));
    }

    /// Looks the fingerprint up and, unless it is a live duplicate, stamps
    /// it with the current time. Returns whether it was a duplicate.
    pub fn check_and_update(&mut self, fp: u64, now_micros: u64) -> (dup: bool)
        ensures
            dup == spec_is_duplicate(cache_entries(*old(self)), fp, now_micros),
            dup ==> cache_entries(*final(self)) == cache_entries(*old(self)),
            !dup ==> cache_entries(*final(self)) == cache_entries(*old(self)).insert(
                fp,
                now_micros,
            ),
    {
        match self.get(fp) {
            Some(last_seen) => {
                if now_micros <= last_seen || now_micros - last_seen < DEDUP_WINDOW_MICROS {
                    true
                } else {
                    self.insert(fp, now_micros);
                    false
                }
            },
            None => {
                self.insert(fp, now_micros);
                false
            },
        }
    }

    /// Removes every entry whose age at `now_micros` exceeds the retention
    /// window and returns how many were removed. An entry younger than the
    /// retention window is never removed.
    pub fn evict_expired(&mut self, now_micros: u64) -> (removed: usize)
        ensures
            forall|fp: u64|
                cache_entries(*old(self)).contains_key(fp) && spec_keep_entry(
                    now_micros,
                    cache_entries(*old(self))[fp],
                ) ==> #[trigger] cache_entries(*final(self)).contains_key(fp)
                    && cache_entries(*final(self))[fp] == cache_entries(*old(self))[fp],
            forall|fp: u64|
                #[trigger] cache_entries(*final(self)).contains_key(fp) ==> cache_entries(
                    *old(self),
                ).contains_key(fp) && cache_entries(*final(self))[fp] == cache_entries(
                    *old(self),
                )[fp] && spec_keep_entry(now_micros, cache_entries(*old(self))[fp]),
    {
        let before = self.len();
        self.retain_recent(now_micros);
        let after = self.len();
        if after <= before {
            before - after
        } else {
            0
        }
    }
}

/// The dedup window: inserting a fingerprint at `t0` makes an equal
/// fingerprint a duplicate at every `t1` less than one second later, and no
/// duplicate once at least one second has passed.
pub proof fn lemma_dedup_window(m: Map<u64, u64>, fp: u64, t0: u64, t1: u64)
    requires
        t0 <= t1,
    ensures
        t1 - t0 < DEDUP_WINDOW_MICROS ==> spec_is_duplicate(m.insert(fp, t0), fp, t1),
        t1 - t0 >= DEDUP_WINDOW_MICROS ==> !spec_is_duplicate(m.insert(fp, t0), fp, t1),
{
}

} // verus!
