//! Bounded least-recently-used thumbnail cache: a map from file path to a
//! decoded-texture handle, with most-recently-used entries kept at the front
//! and the least-recently-used entry evicted on overflow.

use vstd::prelude::*;
use crate::strutil::str_eq;

verus! {

/// One cached thumbnail: the file path and the handle of its decoded
/// texture (the texture itself lives with the unverified renderer).
pub struct CacheEntry {
    pub path: String,
    pub handle: u64,
}

/// The cache, most-recently-used entry first.
pub struct ImageCache {
    entries: Vec<CacheEntry>,
    capacity: usize,
}

pub open spec fn entry_view(e: CacheEntry) -> (Seq<char>, u64) {
    (e.path@, e.handle)
}

/// Some entry has key `k`.
pub open spec fn has_key(s: Seq<(Seq<char>, u64)>, k: Seq<char>) -> bool {
    exists|i: int| 0 <= i < s.len() && s[i].0 == k
}

/// Index of the entry with key `k` (unique when keys are distinct).
pub open spec fn key_at(s: Seq<(Seq<char>, u64)>, k: Seq<char>) -> int {
    choose|i: int| 0 <= i < s.len() && s[i].0 == k
}

/// No two entries share a key.
pub open spec fn distinct_keys(s: Seq<(Seq<char>, u64)>) -> bool {
    forall|i: int, j: int| 0 <= i < j < s.len() ==> s[i].0 != s[j].0
}

impl View for ImageCache {
    type V = Seq<(Seq<char>, u64)>;

    closed spec fn view(&self) -> Seq<(Seq<char>, u64)> {
        self.entries@.map_values(|e: CacheEntry| entry_view(e))
    }
}

impl ImageCache {
    /// Bound the cache never grows past.
    pub closed spec fn spec_capacity(&self) -> int {
        self.capacity as int
    }

    /// Well-formed: non-trivial bound, within bound, keys distinct.
    pub closed spec fn wf(&self) -> bool {
        &&& self.capacity >= 1
        &&& self@.len() <= self.capacity
        &&& distinct_keys(self@)
    }

    pub fn new(capacity: usize) -> (r: ImageCache)
        requires
            capacity >= 1,
        ensures
            r.wf(),
            r@ =~= Seq::<(Seq<char>, u64)>::empty(),
            r.spec_capacity() == capacity,
    {
        ImageCache { entries: Vec::new(), capacity }
    }

    pub fn len(&self) -> (r: usize)
        ensures
            r == self@.len(),
    {
        self.entries.len()
    }

    pub fn capacity(&self) -> (r: usize)
        ensures
            r == self.spec_capacity(),
    {
        self.capacity
    }

    /// Returns the cached handle for `path` and promotes that entry to
    /// most-recently-used; a miss leaves the cache unchanged.
    pub fn get(&mut self, path: &str) -> (r: Option<u64>)
        requires
            old(self).wf(),
        ensures
            final(self).wf(),
            final(self).spec_capacity() == old(self).spec_capacity(),
            !has_key(old(self)@, path@) ==> r is None && final(self)@ =~= old(self)@,
            has_key(old(self)@, path@) ==> {
                let i = key_at(old(self)@, path@);
                &&& r == Some(old(self)@[i].1)
                &&& final(self)@ =~= seq![old(self)@[i]] + old(self)@.remove(i)
            },
    {
        let n: usize = self.entries.len();
        let mut i: usize = 0;
        while i < n
            invariant
                self == old(self),
                self.wf(),
                n == self@.len(),
                i <= n,
                forall|j: int| 0 <= j < i ==> self@[j].0 != path@,
            decreases n - i,
        {
            if str_eq(self.entries[i].path.as_str(), path) {
                proof {
                    assert(self@[i as int].0 == path@);
                    let w = key_at(old(self)@, path@);
                    assert(0 <= w < old(self)@.len() && old(self)@[w].0 == path@);
                    if w < i as int {
                        assert(old(self)@[w].0 != path@);
                    } else if w > i as int {
                        assert(old(self)@[i as int].0 != old(self)@[w].0);
                    }
                    assert(w == i as int);
                }
                let e: CacheEntry = self.entries.remove(i);
                let h: u64 = e.handle;
                self.entries.insert(0, e);
                proof {
                    let i = i as int;
                    assert forall|j: int| 0 <= j < self@.len() implies self@[j] == (seq![
                        old(self)@[i],
                    ] + old(self)@.remove(i))[j] by {
                        if j == 0 {
                        } else if j <= i {
                            assert(self.entries@[j] == old(self).entries@[j - 1]);
                        } else {
                            assert(self.entries@[j] == old(self).entries@[j]);
                        }
                    }
                    assert(self@ =~= seq![old(self)@[i]] + old(self)@.remove(i));
                    assert forall|a: int, b: int|
                        0 <= a < b < self@.len() implies self@[a].0 != self@[b].0 by {
                        let oa: int = if a == 0 { i } else if a <= i { a - 1 } else { a };
                        let ob: int = if b <= i { b - 1 } else { b };
                        assert(self@[a] == old(self)@[oa]);
                        assert(self@[b] == old(self)@[ob]);
                        if oa < ob {
                            assert(old(self)@[oa].0 != old(self)@[ob].0);
                        } else {
                            assert(old(self)@[ob].0 != old(self)@[oa].0);
                        }
                    }
                }
                return Some(h);
            }
            i = i + 1;
        }
        proof {
            assert(!has_key(old(self)@, path@));
        }
        None
    }

    /// Inserts a fresh path as most-recently-used; at capacity, the
    /// least-recently-used entry (the last one) is evicted first.
    pub fn insert(&mut self, path: String, handle: u64)
        requires
            old(self).wf(),
            !has_key(old(self)@, path@),
        ensures
            final(self).wf(),
            final(self).spec_capacity() == old(self).spec_capacity(),
            old(self)@.len() < old(self).spec_capacity() ==> final(self)@ =~= seq![(path@, handle)]
                + old(self)@,
            old(self)@.len() == old(self).spec_capacity() ==> final(self)@ =~= seq![
                (path@, handle),
            ] + old(self)@.drop_last(),
    {
        if self.entries.len() >= self.capacity {
            let ghost pre = self@;
            self.entries.pop();
            proof {
                assert(self@ =~= pre.drop_last());
            }
        }
        let ghost mid = self@;
        self.entries.insert(0, CacheEntry { path, handle });
        proof {
            assert(self@ =~= seq![(path@, handle)] + mid);
            assert forall|a: int, b: int|
                0 <= a < b < self@.len() implies self@[a].0 != self@[b].0 by {
                assert(self@[b] == mid[b - 1]);
                assert(mid[b - 1] == old(self)@[b - 1]);
                if a == 0 {
                    assert(old(self)@[b - 1].0 != path@);
                } else {
                    assert(self@[a] == old(self)@[a - 1]);
                    assert(old(self)@[a - 1].0 != old(self)@[b - 1].0);
                }
            }
        }
    }
}

/// For a full cache of capacity N, inserting an (N+1)-th distinct key evicts
/// exactly the least-recently-used entry: its key is gone, the new key and
/// every other old key are still present.
pub proof fn lemma_lru_eviction(
    pre: Seq<(Seq<char>, u64)>,
    post: Seq<(Seq<char>, u64)>,
    k: Seq<char>,
    h: u64,
)
    requires
        pre.len() >= 1,
        distinct_keys(pre),
        !has_key(pre, k),
        post == seq![(k, h)] + pre.drop_last(),
    ensures
        !has_key(post, pre.last().0),
        has_key(post, k),
        forall|j: int| 0 <= j < pre.len() - 1 ==> has_key(post, pre[j].0),
{
    assert(post[0].0 == k);
    assert forall|i: int| 0 <= i < post.len() implies post[i].0 != pre.last().0 by {
        if i == 0 {
            assert(pre.last().0 != k);
        } else {
            assert(post[i] == pre[i - 1]);
            assert(pre[i - 1].0 != pre[pre.len() - 1].0);
        }
    }
    assert forall|j: int| 0 <= j < pre.len() - 1 implies has_key(post, pre[j].0) by {
        assert(post[j + 1] == pre[j]);
    }
}

} // verus!
