//! The recently routed messages of one connection, kept in an LRU cache of
//! the `lru` crate so that duplicates arriving close together are dropped.
use vstd::prelude::*;

verus! {

/// What identifies a routed message: author, target kind, target value and
/// signature, each as a 64-bit value.
pub type RoutedKey = (u64, u64, u64, u64);

/// `lru`'s cache, opaque to the proofs; its contents are `lru_entries`.
#[verifier::external_type_specification]
#[verifier::external_body]
#[verifier::reject_recursive_types(K)]
#[verifier::reject_recursive_types(V)]
#[verifier::reject_recursive_types(S)]
pub struct ExLruCache<K, V, S>(lru::LruCache<K, V, S>);

/// The LRU cache of arrival times, by routed message key.
pub type RoutedLru = lru::LruCache<RoutedKey, u64>;

/// The key-value pairs an LRU cache holds.
pub uninterp spec fn lru_entries(c: RoutedLru) -> Map<RoutedKey, u64>;

/// The number of pairs an LRU cache was made to hold at most.
pub uninterp spec fn lru_capacity(c: RoutedLru) -> nat;

/// Relies on `lru::LruCache::new`: an empty cache that holds at most `cap` pairs.
#[verifier::external_body]
fn lru_new(cap: usize) -> (r: RoutedLru)
    ensures
        lru_entries(r).dom() == Set::<RoutedKey>::empty(),
        lru_capacity(r) == cap,
{
    lru::LruCache::new(cap)
}

/// Relies on `lru::LruCache::get`: the value under `k`, if any; it only
/// changes the recency order, not the pairs held.
#[verifier::external_body]
fn lru_get(c: &mut RoutedLru, k: &RoutedKey) -> (r: Option<u64>)
    ensures
        lru_entries(*final(c)) == lru_entries(*old(c)),
        lru_capacity(*final(c)) == lru_capacity(*old(c)),
        r == (if lru_entries(*old(c)).contains_key(*k) {
            Some(lru_entries(*old(c))[*k])
        } else {
            None
        }),
{
    c.get(k).copied()
}

/// Relies on `lru::LruCache::put`: an existing key takes the new value; a
/// new key is added, after the least recently used pair was evicted if the
/// cache was full; a cache of capacity 0 stays empty.
#[verifier::external_body]
fn lru_put(c: &mut RoutedLru, k: RoutedKey, v: u64)
    requires
        lru_entries(*old(c)).dom().finite(),
        lru_entries(*old(c)).len() <= lru_capacity(*old(c)),
    ensures
        lru_capacity(*final(c)) == lru_capacity(*old(c)),
        lru_entries(*final(c)).dom().finite(),
        lru_entries(*final(c)).len() <= lru_capacity(*final(c)),
        ({
            let before = lru_entries(*old(c));
            let after = lru_entries(*final(c));
            let cap = lru_capacity(*old(c));
            if before.contains_key(k) {
                after == before.insert(k, v)
            } else if cap == 0 {
                after == before
            } else if before.len() < cap {
                after == before.insert(k, v)
            } else {
                exists|e: RoutedKey| before.contains_key(e) && after == before.remove(e).insert(k, v)
            }
        }),
{
    c.put(k, v);
}

/// Messages with the same key that arrive within this many milliseconds of
/// the last accepted one are dropped.
pub const DROP_DUPLICATED_MESSAGES_PERIOD_MS: u64 = 50;

/// Number of routed messages remembered.
pub const ROUTED_MESSAGE_CACHE_SIZE: usize = 1000;

/// When each recently accepted routed message arrived, in milliseconds.
pub struct RoutedMessageCache {
    cache: RoutedLru,
}

/// Whether a message with key `k` arriving at `now` repeats one accepted
/// within the drop period, given the arrival times `seen`.
pub open spec fn is_recent_duplicate(seen: Map<RoutedKey, u64>, k: RoutedKey, now: u64) -> bool {
    seen.contains_key(k) && now <= seen[k] + DROP_DUPLICATED_MESSAGES_PERIOD_MS
}

impl RoutedMessageCache {
    /// The arrival times held, by key.
    pub closed spec fn seen(&self) -> Map<RoutedKey, u64> {
        lru_entries(self.cache)
    }

    pub closed spec fn wf(&self) -> bool {
        &&& lru_entries(self.cache).dom().finite()
        &&& lru_entries(self.cache).len() <= lru_capacity(self.cache)
        &&& lru_capacity(self.cache) == ROUTED_MESSAGE_CACHE_SIZE
    }

    pub fn new() -> (r: Self)
        ensures
            r.wf(),
            r.seen() == Map::<RoutedKey, u64>::empty(),
    {
        let r = RoutedMessageCache { cache: lru_new(ROUTED_MESSAGE_CACHE_SIZE) };
        proof {
            assert(r.seen() =~= Map::empty());
        }
        r
    }

    /// Whether a message with key `k` arriving at `now` is a duplicate to drop.
    pub fn is_duplicate(&mut self, k: &RoutedKey, now: u64) -> (r: bool)
        requires
            old(self).wf(),
        ensures
            final(self).wf(),
            final(self).seen() == old(self).seen(),
            r == is_recent_duplicate(old(self).seen(), *k, now),
    {
        match lru_get(&mut self.cache, k) {
            Some(t) => now <= t || now - t <= DROP_DUPLICATED_MESSAGES_PERIOD_MS,
            None => false,
        }
    }

    /// Records that a message with key `k` was accepted at `now`. Another key
    /// may be evicted to make room.
    pub fn record(&mut self, k: RoutedKey, now: u64)
        requires
            old(self).wf(),
        ensures
            final(self).wf(),
            final(self).seen().contains_key(k),
            final(self).seen()[k] == now,
            forall|j: RoutedKey| #[trigger]
                final(self).seen().contains_key(j) && j != k ==> old(self).seen().contains_key(j)
                    && final(self).seen()[j] == old(self).seen()[j],
    {
        lru_put(&mut self.cache, k, now);
    }
}

} // verus!
