//! The duplicate-suppression cache: admits at most one concurrent processing
//! attempt per gossip-block root.
//!
//! `try_insert` yields a token on first insertion of a root and nothing while
//! that token is outstanding; releasing the token frees the root. The cache is
//! bounded: when full, the least-recently-inserted root is evicted even if its
//! token is still outstanding, and releasing that token is then a no-op.

use vstd::prelude::*;

use crate::ids::Hash256;

verus! {

/// Proof that a root was admitted for processing; releasing it re-admits the
/// root. Eviction may invalidate a token early, in which case releasing it
/// does nothing.
#[derive(Clone, Copy, Debug, PartialEq, Eq, Structural)]
pub struct DuplicateCacheToken {
    /// The root this token admits.
    pub root: Hash256,
}

/// The set of block roots currently admitted, most recently inserted first.
#[derive(Debug, Clone, PartialEq, Eq)]
pub struct DuplicateCache {
    /// Admitted roots, most recent first.
    pub roots: Vec<Hash256>,
    /// Maximum number of admitted roots.
    pub cap: usize,
}

/// The cache state after a successful insertion of `root`: the root moves to
/// the front, and if the cache was full its oldest root leaves.
pub open spec fn inserted(s: Seq<Hash256>, cap: int, root: Hash256) -> Seq<Hash256> {
    if s.len() >= cap {
        s.drop_last().insert(0, root)
    } else {
        s.insert(0, root)
    }
}

/// The cache state after releasing a token for `root`: the root leaves if it
/// is still present; an evicted root's release changes nothing.
pub open spec fn released(s: Seq<Hash256>, root: Hash256) -> Seq<Hash256> {
    if s.contains(root) {
        s.remove_value(root)
    } else {
        s
    }
}

impl DuplicateCache {
    /// The admitted roots, most recent first.
    pub open spec fn view(&self) -> Seq<Hash256> {
        self.roots@
    }

    pub open spec fn spec_cap(&self) -> usize {
        self.cap
    }

    /// Roots are pairwise distinct and never exceed the capacity.
    pub open spec fn wf(&self) -> bool {
        &&& self.cap >= 1
        &&& self.roots@.len() <= self.cap
        &&& forall|i: int, j: int|
            0 <= i < j < self.roots@.len() ==> self.roots@[i] != self.roots@[j]
    }

    pub fn new(cap: usize) -> (r: Self)
        requires
            cap >= 1,
        ensures
            r.wf(),
            r@ =~= Seq::<Hash256>::empty(),
            r.spec_cap() == cap,
    {
        DuplicateCache { roots: Vec::new(), cap }
    }

    pub fn len(&self) -> (n: usize)
        ensures
            n == self@.len(),
    {
        self.roots.len()
    }

    /// Whether a token for `root` is currently outstanding.
    pub fn contains(&self, root: Hash256) -> (r: bool)
        ensures
            r == self@.contains(root),
    {
        let mut i: usize = 0;
        while i < self.roots.len()
            invariant
                0 <= i <= self.roots@.len(),
                forall|j: int| 0 <= j < i ==> self.roots@[j] != root,
            decreases self.roots@.len() - i,
        {
            if self.roots[i] == root {
                assert(self.roots@.contains(root));
                return true;
            }
            i += 1;
        }
        assert(!self.roots@.contains(root));
        false
    }

    /// Admits `root` unless a token for it is already outstanding. On
    /// admission the root becomes the most recent entry, evicting the oldest
    /// entry if the cache is full.
    pub fn try_insert(&mut self, root: Hash256) -> (r: Option<DuplicateCacheToken>)
        requires
            old(self).wf(),
        ensures
            final(self).wf(),
            final(self).spec_cap() == old(self).spec_cap(),
            old(self)@.contains(root) ==> r is None && *final(self) == *old(self),
            !old(self)@.contains(root) ==> {
                &&& r == Some(DuplicateCacheToken { root })
                &&& final(self)@ == inserted(old(self)@, old(self).spec_cap() as int, root)
                &&& final(self)@.contains(root)
            },
    {
        if self.contains(root) {
            return None;
        }
        if self.roots.len() >= self.cap {
            let ghost pre = self.roots@;
            self.roots.pop();
            assert(self.roots@ =~= pre.drop_last());
        }
        let ghost mid = self.roots@;
        self.roots.insert(0, root);
        assert(self.roots@ =~= mid.insert(0, root));
        assert(self.roots@[0] == root);
        assert(self.roots@.contains(root));
        Some(DuplicateCacheToken { root })
    }

    /// Releases a token: removes its root if still present; does nothing if
    /// the root was already evicted.
    pub fn release(&mut self, token: DuplicateCacheToken)
        requires
            old(self).wf(),
        ensures
            final(self).wf(),
            final(self).spec_cap() == old(self).spec_cap(),
            final(self)@ == released(old(self)@, token.root),
            !final(self)@.contains(token.root),
    {
        let ghost pre = self.roots@;
        let mut i: usize = 0;
        while i < self.roots.len()
            invariant
                self.roots@ == pre,
                self.cap == old(self).cap,
                old(self).wf(),
                pre == old(self).roots@,
                0 <= i <= pre.len(),
                forall|j: int| 0 <= j < i ==> pre[j] != token.root,
            decreases pre.len() - i,
        {
            if self.roots[i] == token.root {
                assert(pre.contains(token.root));
                self.roots.remove(i);
                assert(self.roots@ =~= pre.remove(i as int));
                proof {
                    lemma_remove_found_value(pre, token.root, i as int);
                }
                return;
            }
            i += 1;
        }
        assert(!pre.contains(token.root));
    }
}

/// Removing a pairwise-distinct sequence's only occurrence of `v`, found at
/// index `i`, is `remove_value`, and nothing else in the sequence is `v`.
proof fn lemma_remove_found_value(s: Seq<Hash256>, v: Hash256, i: int)
    requires
        0 <= i < s.len(),
        s[i] == v,
        forall|p: int, q: int| 0 <= p < q < s.len() ==> s[p] != s[q],
        forall|j: int| 0 <= j < i ==> s[j] != v,
    ensures
        s.remove(i) == s.remove_value(v),
        !s.remove(i).contains(v),
        forall|p: int, q: int|
            0 <= p < q < s.remove(i).len() ==> s.remove(i)[p] != s.remove(i)[q],
{
    let idx = s.index_of_first(v);
    s.index_of_first_ensures(v);
    assert(s.contains(v));
    assert(idx matches Some(fi) && fi == i) by {
        match idx {
            Some(fi) => {
                assert(s[fi] == v);
                if fi < i {
                    assert(false);
                } else if fi > i {
                    assert(s[i] == v);
                    assert(false);
                }
            },
            None => {
                assert(false);
            },
        }
    }
    assert(s.remove_value(v) == s.remove(i));
    let r = s.remove(i);
    assert forall|j: int| 0 <= j < r.len() implies r[j] != v by {
        if j < i {
            assert(r[j] == s[j]);
        } else {
            assert(r[j] == s[j + 1]);
        }
    }
    assert(!r.contains(v));
    assert forall|p: int, q: int| 0 <= p < q < r.len() implies r[p] != r[q] by {
        let sp = if p < i { p } else { p + 1 };
        let sq = if q < i { q } else { q + 1 };
        assert(r[p] == s[sp]);
        assert(r[q] == s[sq]);
    }
}

/// Duplicate suppression: after a fresh root is admitted it is present, so a
/// second insertion attempt yields no token while the first token is
/// outstanding; once the token is released the root is absent again, so a new
/// token can be granted.
pub proof fn lemma_duplicate_suppression(s: Seq<Hash256>, cap: int, root: Hash256)
    requires
        cap >= 1,
        !s.contains(root),
    ensures
        inserted(s, cap, root).contains(root),
        !released(inserted(s, cap, root), root).contains(root),
{
    let s2 = inserted(s, cap, root);
    assert(s2[0] == root);
    assert(s2.contains(root));
    let s3 = s2.remove_value(root);
    s2.index_of_first_ensures(root);
    match s2.index_of_first(root) {
        Some(i) => {
            assert(i == 0) by {
                if i > 0 {
                    assert(s2[i] == root);
                    if s.len() >= cap {
                        assert(s2[i] == s.drop_last()[i - 1]);
                        assert(s.drop_last()[i - 1] == s[i - 1]);
                        assert(s.contains(root));
                    } else {
                        assert(s2[i] == s[i - 1]);
                        assert(s.contains(root));
                    }
                }
            }
            assert(s3 =~= s2.remove(0));
            assert forall|j: int| 0 <= j < s3.len() implies s3[j] != root by {
                assert(s3[j] == s2[j + 1]);
                if s.len() >= cap {
                    assert(s2[j + 1] == s.drop_last()[j]);
                    assert(s.drop_last()[j] == s[j]);
                    if s3[j] == root {
                        assert(s.contains(root));
                    }
                } else {
                    assert(s2[j + 1] == s[j]);
                    if s3[j] == root {
                        assert(s.contains(root));
                    }
                }
            }
            assert(!s3.contains(root));
        },
        None => {
            assert(false);
        },
    }
}

} // verus!
