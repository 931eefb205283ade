//! The solver whose memoization outlives a single call: recursion identical
//! to the plain backtracking solver, with every result stored in a bounded
//! least-recently-used cache from the `cached` crate.  The cache is owned by
//! a [`FibCache`] value; one created at startup and kept until process exit
//! gives the process-lifetime behaviour, with repeated calls answered from
//! the cache.

use crate::bounds::lemma_fib_fits_u128;
use crate::fib;
use vstd::prelude::*;

verus! {

#[verifier::external_type_specification]
#[verifier::external_body]
#[verifier::reject_recursive_types(K)]
#[verifier::reject_recursive_types(V)]
#[verifier::reject_recursive_types(S)]
pub struct ExLruCache<K, V, S>(cached::stores::LruCache<K, V, S>);

/// The entries an LRU cache currently holds, as a map from key to value.
pub uninterp spec fn lru_contents(c: cached::stores::LruCache<u128, u128, std::collections::hash_map::RandomState>) -> Map<u128, u128>;

/// The bound an LRU cache was built with: the most entries it will hold.
pub uninterp spec fn lru_capacity(c: cached::stores::LruCache<u128, u128, std::collections::hash_map::RandomState>) -> usize;

/// What a fresh cache looks like: no entries, and the requested bound.
pub open spec fn lru_fresh(c: Option<cached::stores::LruCache<u128, u128, std::collections::hash_map::RandomState>>, max_size: usize) -> bool {
    c is Some ==> lru_contents(c->0) == Map::<u128, u128>::empty() && lru_capacity(c->0)
        == max_size
}

/// Relies on cached::stores::LruCacheBuilder::build: a fresh cache holds no
/// entries and keeps the requested bound; building fails (None here) when the
/// bound is zero or the backing allocation is refused.
#[verifier::external_body]
fn lru_new(max_size: usize) -> (c: Option<cached::stores::LruCache<u128, u128, std::collections::hash_map::RandomState>>)
    ensures
        lru_fresh(c, max_size),
{
    cached::stores::LruCache::builder().max_size(max_size).hasher(
        std::collections::hash_map::RandomState::new(),
    ).build().ok()
}

/// Relies on cached::Cached::cache_get for cached::stores::LruCache: returns
/// the stored value for the key, or None when the key is absent; it only
/// promotes the entry in the eviction order, so the entries themselves and
/// the bound are unchanged.
#[verifier::external_body]
fn lru_get(c: &mut cached::stores::LruCache<u128, u128, std::collections::hash_map::RandomState>, key: u128) -> (r: Option<u128>)
    ensures
        lru_contents(*final(c)) == lru_contents(*old(c)),
        lru_capacity(*final(c)) == lru_capacity(*old(c)),
        r == (if lru_contents(*old(c)).contains_key(key) {
            Some(lru_contents(*old(c))[key])
        } else {
            None::<u128>
        }),
{
    cached::Cached::cache_get(c, &key).copied()
}

/// Relies on cached::Cached::cache_set for cached::stores::LruCache: the pair
/// is stored, every other surviving entry kept its old value (insertion over
/// the bound evicts the least-recently-used entry, so an entry may be gone),
/// and the bound is unchanged.
#[verifier::external_body]
fn lru_set(c: &mut cached::stores::LruCache<u128, u128, std::collections::hash_map::RandomState>, key: u128, value: u128)
    ensures
        lru_capacity(*final(c)) == lru_capacity(*old(c)),
        lru_contents(*final(c)).contains_key(key),
        lru_contents(*final(c))[key] == value,
        forall|k: u128|
            k != key && #[trigger] lru_contents(*final(c)).contains_key(k)
                ==> lru_contents(*old(c)).contains_key(k)
                && lru_contents(*final(c))[k] == lru_contents(*old(c))[k],
{
    cached::Cached::cache_set(c, key, value);
}

/// A Fibonacci solver with a bounded, least-recently-used cache of results
/// that persists across calls for as long as the value lives.
pub struct FibCache {
    cache: cached::stores::LruCache<u128, u128, std::collections::hash_map::RandomState>,
}

/// How many results the persistent cache holds before evicting.
pub const FIB_CACHE_CAPACITY: usize = 200;

impl FibCache {
    /// Every cached entry stores the Fibonacci number of its key, whatever
    /// the eviction policy has kept or dropped so far.
    pub closed spec fn valid(self) -> bool {
        forall|k: u128|
            #[trigger] lru_contents(self.cache).contains_key(k)
                ==> lru_contents(self.cache)[k] == fib(k as nat)
    }

    /// Create the solver with an empty cache.  None only when the cache's
    /// backing allocation is refused.
    pub fn new() -> (c: Option<Self>)
        ensures
            c matches Some(solver) ==> solver.valid(),
    {
        match lru_new(FIB_CACHE_CAPACITY) {
            Some(cache) => Some(FibCache { cache }),
            None => None,
        }
    }

    /// Recursion identical to the plain backtracking solver, except that every
    /// call first consults the cache and stores what it computed.  Overlapping
    /// sub-indices of later calls are answered from the cache.
    pub fn cached_fib(&mut self, fib_num: u128) -> (r: u128)
        requires
            fib_num <= 186,
            old(self).valid(),
        ensures
            r == fib(fib_num as nat),
            final(self).valid(),
        decreases fib_num,
    {
        match lru_get(&mut self.cache, fib_num) {
            Some(answer) => answer,
            None => {
                let result: u128;
                if fib_num == 0 || fib_num == 1 {
                    result = fib_num;
                } else {
                    let a = self.cached_fib(fib_num - 1);
                    let b = self.cached_fib(fib_num - 2);
                    proof {
                        lemma_fib_fits_u128(fib_num as nat);
                    }
                    result = a + b;
                }
                lru_set(&mut self.cache, fib_num, result);
                result
            },
        }
    }
}

} // verus!
