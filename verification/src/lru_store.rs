//! Trusted view of `lru::LruCache`, the bounded recency-ordered map that
//! backs the delayed-lookup registry.
//!
//! The cache is keyed by a block root as four 64-bit limbs and holds plain
//! peer numbers. Its contents are named as a sequence of key-value pairs in
//! recency order, most recently used first; each wrapper states, from the
//! crate's own source, how one method moves that sequence.

use vstd::prelude::*;

verus! {

/// The contents of the cache: key-value pairs ordered most recently used
/// first. Named; the wrappers below say how each call moves it.
pub uninterp spec fn lru_entries(
    c: lru::LruCache<(u64, u64, u64, u64), Vec<u64>>,
) -> Seq<((u64, u64, u64, u64), Seq<u64>)>;

/// The capacity the cache was created with.
pub uninterp spec fn lru_cap(c: lru::LruCache<(u64, u64, u64, u64), Vec<u64>>) -> usize;

#[verifier::external_type_specification]
#[verifier::external_body]
#[verifier::reject_recursive_types(K)]
#[verifier::reject_recursive_types(V)]
#[verifier::reject_recursive_types(S)]
pub struct ExLruCache<K, V, S>(lru::LruCache<K, V, S>);

/// No two entries share a key.
pub open spec fn distinct_keys(s: Seq<((u64, u64, u64, u64), Seq<u64>)>) -> bool {
    forall|i: int, j: int| 0 <= i < j < s.len() ==> s[i].0 != s[j].0
}

/// Whether some entry has key `k`.
pub open spec fn has_key(s: Seq<((u64, u64, u64, u64), Seq<u64>)>, k: (u64, u64, u64, u64)) -> bool {
    exists|i: int| 0 <= i < s.len() && s[i].0 == k
}

/// The index of the entry with key `k`, meaningful when `has_key` holds and
/// the keys are distinct.
pub open spec fn key_index(s: Seq<((u64, u64, u64, u64), Seq<u64>)>, k: (u64, u64, u64, u64)) -> int {
    choose|i: int| 0 <= i < s.len() && s[i].0 == k
}

/// Relies on `lru::LruCache::new`: a fresh cache is empty and holds at most
/// `cap` entries.
#[verifier::external_body]
pub(crate) fn lru_new(cap: usize) -> (c: lru::LruCache<(u64, u64, u64, u64), Vec<u64>>)
    requires
        cap >= 1,
    ensures
        lru_entries(c) =~= Seq::<((u64, u64, u64, u64), Seq<u64>)>::empty(),
        lru_cap(c) == cap,
{
    lru::LruCache::new(std::num::NonZeroUsize::new(cap).unwrap())
}

/// Relies on `lru::LruCache::len`: the number of entries.
#[verifier::external_body]
pub(crate) fn lru_len(c: &lru::LruCache<(u64, u64, u64, u64), Vec<u64>>) -> (n: usize)
    ensures
        n == lru_entries(*c).len(),
{
    c.len()
}

/// Relies on `lru::LruCache::contains`: whether an entry with the given key
/// is present; recency is not promoted.
#[verifier::external_body]
pub(crate) fn lru_contains(
    c: &lru::LruCache<(u64, u64, u64, u64), Vec<u64>>,
    k: (u64, u64, u64, u64),
) -> (r: bool)
    ensures
        r == has_key(lru_entries(*c), k),
{
    c.contains(&k)
}

/// Relies on `lru::LruCache::pop_entry`: removes the entry with the given key
/// and returns it, or returns nothing and leaves the cache as it was.
#[verifier::external_body]
pub(crate) fn lru_pop_entry(
    c: &mut lru::LruCache<(u64, u64, u64, u64), Vec<u64>>,
    k: (u64, u64, u64, u64),
) -> (r: Option<((u64, u64, u64, u64), Vec<u64>)>)
    requires
        distinct_keys(lru_entries(*old(c))),
    ensures
        lru_cap(*final(c)) == lru_cap(*old(c)),
        distinct_keys(lru_entries(*final(c))),
        !has_key(lru_entries(*old(c)), k) ==> r is None && lru_entries(*final(c))
            == lru_entries(*old(c)),
        has_key(lru_entries(*old(c)), k) ==> {
            let i = key_index(lru_entries(*old(c)), k);
            match r {
                Some(p) => p.0 == k && p.1@ == lru_entries(*old(c))[i].1 && lru_entries(
                    *final(c),
                ) == lru_entries(*old(c)).remove(i),
                None => false,
            }
        },
{
    c.pop_entry(&k)
}

/// Relies on `lru::LruCache::push`: inserts the pair as the most recently
/// used entry. If the key was present its old value comes back; otherwise, if
/// the cache was full, the least recently used entry is evicted and comes
/// back; otherwise nothing comes back.
#[verifier::external_body]
pub(crate) fn lru_push(
    c: &mut lru::LruCache<(u64, u64, u64, u64), Vec<u64>>,
    k: (u64, u64, u64, u64),
    v: Vec<u64>,
) -> (r: Option<((u64, u64, u64, u64), Vec<u64>)>)
    requires
        distinct_keys(lru_entries(*old(c))),
        lru_cap(*old(c)) >= 1,
    ensures
        lru_cap(*final(c)) == lru_cap(*old(c)),
        distinct_keys(lru_entries(*final(c))),
        has_key(lru_entries(*old(c)), k) ==> {
            let i = key_index(lru_entries(*old(c)), k);
            match r {
                Some(p) => p.0 == k && p.1@ == lru_entries(*old(c))[i].1 && lru_entries(
                    *final(c),
                ) == lru_entries(*old(c)).remove(i).insert(0, (k, v@)),
                None => false,
            }
        },
        !has_key(lru_entries(*old(c)), k) && lru_entries(*old(c)).len() >= lru_cap(*old(c)) ==> {
            match r {
                Some(p) => p.0 == lru_entries(*old(c)).last().0 && p.1@ == lru_entries(
                    *old(c),
                ).last().1 && lru_entries(*final(c)) == lru_entries(*old(c)).drop_last().insert(
                    0,
                    (k, v@),
                ),
                None => false,
            }
        },
        !has_key(lru_entries(*old(c)), k) && lru_entries(*old(c)).len() < lru_cap(*old(c)) ==> r
            is None && lru_entries(*final(c)) == lru_entries(*old(c)).insert(0, (k, v@)),
{
    c.push(k, v)
}

/// Relies on `lru::LruCache::pop_lru`: removes and returns the least recently
/// used entry, or returns nothing if the cache is empty.
#[verifier::external_body]
pub(crate) fn lru_pop_lru(
    c: &mut lru::LruCache<(u64, u64, u64, u64), Vec<u64>>,
) -> (r: Option<((u64, u64, u64, u64), Vec<u64>)>)
    requires
        distinct_keys(lru_entries(*old(c))),
    ensures
        lru_cap(*final(c)) == lru_cap(*old(c)),
        distinct_keys(lru_entries(*final(c))),
        lru_entries(*old(c)).len() == 0 ==> r is None && lru_entries(*final(c)) == lru_entries(
            *old(c),
        ),
        lru_entries(*old(c)).len() > 0 ==> {
            match r {
                Some(p) => p.0 == lru_entries(*old(c)).last().0 && p.1@ == lru_entries(
                    *old(c),
                ).last().1 && lru_entries(*final(c)) == lru_entries(*old(c)).drop_last(),
                None => false,
            }
        },
{
    c.pop_lru()
}

} // verus!
