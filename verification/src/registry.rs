//! The delayed-lookup registry: a bounded recency-ordered map from block
//! root to the peers that advertised the root on gossip.
//!
//! Registration de-duplicates peers and promotes the root to most recently
//! updated; when a seventeenth root arrives, the least recently updated root
//! is evicted silently. The scheduler drains the whole registry once per
//! slot.

use vstd::prelude::*;

use crate::ids::{Hash256, PeerId};
use crate::lru_store::{
    distinct_keys, has_key, key_index, lru_cap, lru_contains, lru_entries, lru_len, lru_new,
    lru_pop_entry, lru_pop_lru, lru_push,
};
use crate::DELAYED_PEER_CACHE_SIZE;

verus! {

/// A block root as the four plain limbs the backing store is keyed by.
pub open spec fn spec_root_key(h: Hash256) -> (u64, u64, u64, u64) {
    (h.0, h.1, h.2, h.3)
}

/// The block root a stored key stands for.
pub open spec fn root_of_key(k: (u64, u64, u64, u64)) -> Hash256 {
    Hash256(k.0, k.1, k.2, k.3)
}

/// No value occurs twice.
pub open spec fn no_dups(s: Seq<u64>) -> bool {
    forall|i: int, j: int| 0 <= i < j < s.len() ==> s[i] != s[j]
}

/// Entry `e` of the registry drained as pair `p`: the same root and the same
/// peers in the same order.
pub open spec fn drained_pair(
    e: ((u64, u64, u64, u64), Seq<u64>),
    p: (Hash256, Vec<PeerId>),
) -> bool {
    &&& p.0 == root_of_key(e.0)
    &&& p.1@.len() == e.1.len()
    &&& forall|j: int| 0 <= j < e.1.len() ==> p.1@[j] == PeerId(#[trigger] e.1[j])
}

/// The registry: roots most recently updated first, each with the peers that
/// advertised it.
pub struct DelayedLookupRegistry {
    /// The backing bounded recency-ordered store.
    pub store: lru::LruCache<(u64, u64, u64, u64), Vec<u64>>,
}

impl DelayedLookupRegistry {
    /// The registry's contents: root keys most recently updated first, each
    /// with its peers in insertion order.
    pub open spec fn view(&self) -> Seq<((u64, u64, u64, u64), Seq<u64>)> {
        lru_entries(self.store)
    }

    /// Roots are distinct, peers de-duplicated, and the registry never holds
    /// more roots than its fixed capacity.
    pub open spec fn wf(&self) -> bool {
        &&& lru_cap(self.store) == DELAYED_PEER_CACHE_SIZE
        &&& distinct_keys(self@)
        &&& self@.len() <= DELAYED_PEER_CACHE_SIZE
        &&& forall|i: int| 0 <= i < self@.len() ==> no_dups(#[trigger] self@[i].1)
    }

    pub fn new() -> (r: Self)
        ensures
            r.wf(),
            r@ =~= Seq::<((u64, u64, u64, u64), Seq<u64>)>::empty(),
    {
        DelayedLookupRegistry { store: lru_new(DELAYED_PEER_CACHE_SIZE) }
    }

    pub fn len(&self) -> (n: usize)
        ensures
            n == self@.len(),
    {
        lru_len(&self.store)
    }

    /// Whether `root` is currently registered.
    pub fn contains_root(&self, root: Hash256) -> (r: bool)
        ensures
            r == has_key(self@, spec_root_key(root)),
    {
        lru_contains(&self.store, (root.0, root.1, root.2, root.3))
    }

    /// Records that `peer` advertised `root` on gossip. The root becomes the
    /// most recently updated entry; a peer already recorded for the root is
    /// not recorded twice; a fresh root beyond the capacity evicts the least
    /// recently updated root.
    pub fn register(&mut self, root: Hash256, peer: PeerId)
        requires
            old(self).wf(),
        ensures
            final(self).wf(),
            ({
                let s = old(self)@;
                let k = spec_root_key(root);
                if has_key(s, k) {
                    let i = key_index(s, k);
                    let ps = s[i].1;
                    let ps2 = if ps.contains(peer.0) {
                        ps
                    } else {
                        ps.push(peer.0)
                    };
                    final(self)@ == s.remove(i).insert(0, (k, ps2))
                } else if s.len() < DELAYED_PEER_CACHE_SIZE {
                    final(self)@ == s.insert(0, (k, seq![peer.0]))
                } else {
                    final(self)@ == s.drop_last().insert(0, (k, seq![peer.0]))
                }
            }),
    {
        let k = (root.0, root.1, root.2, root.3);
        let ghost s = lru_entries(self.store);
        match lru_pop_entry(&mut self.store, k) {
            Some(entry) => {
                let ghost i = key_index(s, k);
                let (_, mut peers) = entry;
                if !contains_u64(&peers, peer.0) {
                    peers.push(peer.0);
                }
                proof {
                    lemma_remove_key_absent(s, k, i);
                    assert(lru_entries(self.store).len() < DELAYED_PEER_CACHE_SIZE);
                }
                let _evicted = lru_push(&mut self.store, k, peers);
                proof {
                    lemma_registry_shape(s.remove(i), k, peers@, DELAYED_PEER_CACHE_SIZE as int);
                    assert(forall|j: int|
                        0 <= j < s.remove(i).len() ==> no_dups(#[trigger] s.remove(i)[j].1));
                }
            },
            None => {
                let mut peers: Vec<u64> = Vec::new();
                peers.push(peer.0);
                assert(peers@ =~= seq![peer.0]);
                let _evicted = lru_push(&mut self.store, k, peers);
                proof {
                    if s.len() >= DELAYED_PEER_CACHE_SIZE {
                        lemma_registry_shape(s.drop_last(), k, peers@, DELAYED_PEER_CACHE_SIZE as int);
                    } else {
                        lemma_registry_shape(s, k, peers@, DELAYED_PEER_CACHE_SIZE as int);
                    }
                }
            },
        }
    }

    /// Empties the registry, returning every entry least recently updated
    /// first, with roots and peer lists intact.
    pub fn drain(&mut self) -> (r: Vec<(Hash256, Vec<PeerId>)>)
        requires
            old(self).wf(),
        ensures
            final(self).wf(),
            final(self)@.len() == 0,
            r@.len() == old(self)@.len(),
            forall|i: int|
                0 <= i < r@.len() ==> drained_pair(
                    old(self)@[old(self)@.len() - 1 - i],
                    #[trigger] r@[i],
                ),
    {
        let ghost s0 = lru_entries(self.store);
        let mut out: Vec<(Hash256, Vec<PeerId>)> = Vec::new();
        let mut remaining = lru_len(&self.store);
        while remaining > 0
            invariant
                old(self).wf(),
                s0 == old(self)@,
                remaining == lru_entries(self.store).len(),
                lru_cap(self.store) == DELAYED_PEER_CACHE_SIZE,
                distinct_keys(lru_entries(self.store)),
                lru_entries(self.store) == s0.take(remaining as int),
                out@.len() + remaining == s0.len(),
                forall|i: int|
                    0 <= i < out@.len() ==> drained_pair(s0[s0.len() - 1 - i], #[trigger] out@[i]),
            decreases remaining,
        {
            let got = lru_pop_lru(&mut self.store);
            match got {
                Some(entry) => {
                    let (k, peers) = entry;
                    let root = Hash256(k.0, k.1, k.2, k.3);
                    let ps = to_peer_vec(peers);
                    assert(s0.take(remaining as int).last() == s0[remaining - 1]);
                    assert(s0.take(remaining as int).drop_last() =~= s0.take(remaining as int - 1));
                    out.push((root, ps));
                },
                None => {
                    assert(false);
                },
            }
            remaining = remaining - 1;
        }
        assert(lru_entries(self.store) =~= Seq::<((u64, u64, u64, u64), Seq<u64>)>::empty());
        out
    }
}

/// Delayed-lookup capacity: a well-formed registry never holds more roots
/// than its fixed capacity, and registering a root beyond that capacity keeps
/// the count at the capacity because the least recently updated root leaves.
pub proof fn lemma_registry_capacity(r: DelayedLookupRegistry, root: Hash256, peer: PeerId)
    requires
        r.wf(),
        !has_key(r@, spec_root_key(root)),
        r@.len() == DELAYED_PEER_CACHE_SIZE,
    ensures
        r@.len() <= DELAYED_PEER_CACHE_SIZE,
        r@.drop_last().insert(0, (spec_root_key(root), seq![peer.0])).len()
            == DELAYED_PEER_CACHE_SIZE,
        !r@.drop_last().insert(0, (spec_root_key(root), seq![peer.0])).contains(r@.last()),
{
    let s = r@;
    let t = s.drop_last().insert(0, (spec_root_key(root), seq![peer.0]));
    let evicted = s.last();
    assert forall|i: int| 0 <= i < t.len() implies t[i] != evicted by {
        if i == 0 {
            assert(t[0] == (spec_root_key(root), seq![peer.0]));
            if t[0] == evicted {
                assert(s[s.len() - 1].0 == spec_root_key(root));
                assert(has_key(s, spec_root_key(root)));
            }
        } else {
            assert(t[i] == s.drop_last()[i - 1]);
            assert(s.drop_last()[i - 1] == s[i - 1]);
            assert(s[i - 1].0 != s[s.len() - 1].0);
        }
    }
    assert(!t.contains(evicted));
}

/// After removing the only entry with key `k`, no entry has key `k`.
proof fn lemma_remove_key_absent(s: Seq<((u64, u64, u64, u64), Seq<u64>)>, k: (u64, u64, u64, u64), i: int)
    requires
        distinct_keys(s),
        has_key(s, k),
        i == key_index(s, k),
    ensures
        0 <= i < s.len(),
        s[i].0 == k,
        !has_key(s.remove(i), k),
{
    assert(0 <= i < s.len() && s[i].0 == k);
    let r = s.remove(i);
    assert forall|j: int| 0 <= j < r.len() implies r[j].0 != k by {
        if j < i {
            assert(r[j] == s[j]);
        } else {
            assert(r[j] == s[j + 1]);
        }
    }
}

/// Inserting a fresh entry with de-duplicated peers at the front of a
/// registry whose entries all carry de-duplicated peers keeps every entry's
/// peers de-duplicated and the keys distinct.
proof fn lemma_registry_shape(
    s: Seq<((u64, u64, u64, u64), Seq<u64>)>,
    k: (u64, u64, u64, u64),
    ps: Seq<u64>,
    cap: int,
)
    requires
        !has_key(s, k),
        distinct_keys(s),
        no_dups(ps),
        forall|i: int| 0 <= i < s.len() ==> no_dups(#[trigger] s[i].1),
    ensures
        distinct_keys(s.insert(0, (k, ps))),
        forall|i: int|
            0 <= i < s.insert(0, (k, ps)).len() ==> no_dups(#[trigger] s.insert(0, (k, ps))[i].1),
        s.len() <= cap - 1 ==> s.insert(0, (k, ps)).len() <= cap,
{
    let t = s.insert(0, (k, ps));
    assert(t[0] == (k, ps));
    assert forall|i: int, j: int| 0 <= i < j < t.len() implies t[i].0 != t[j].0 by {
        if i == 0 {
            assert(t[j] == s[j - 1]);
            if t[j].0 == k {
                assert(has_key(s, k));
            }
        } else {
            assert(t[i] == s[i - 1]);
            assert(t[j] == s[j - 1]);
        }
    }
    assert forall|i: int| 0 <= i < t.len() implies no_dups(#[trigger] t[i].1) by {
        if i == 0 {
            assert(t[0].1 == ps);
        } else {
            assert(t[i] == s[i - 1]);
        }
    }
}

/// Whether `x` occurs in `v`.
fn contains_u64(v: &Vec<u64>, x: u64) -> (r: bool)
    ensures
        r == v@.contains(x),
{
    let mut i: usize = 0;
    while i < v.len()
        invariant
            0 <= i <= v@.len(),
            forall|j: int| 0 <= j < i ==> v@[j] != x,
        decreases v@.len() - i,
    {
        if v[i] == x {
            assert(v@.contains(x));
            return true;
        }
        i += 1;
    }
    assert(!v@.contains(x));
    false
}

/// Wraps each plain peer number as a peer identity, keeping the order.
fn to_peer_vec(v: Vec<u64>) -> (r: Vec<PeerId>)
    ensures
        r@.len() == v@.len(),
        forall|j: int| 0 <= j < v@.len() ==> #[trigger] r@[j] == PeerId(v@[j]),
{
    let mut r: Vec<PeerId> = Vec::new();
    let mut i: usize = 0;
    while i < v.len()
        invariant
            0 <= i <= v@.len(),
            r@.len() == i,
            forall|j: int| 0 <= j < i ==> #[trigger] r@[j] == PeerId(v@[j]),
        decreases v@.len() - i,
    {
        r.push(PeerId(v[i]));
        i += 1;
    }
    r
}

} // verus!
