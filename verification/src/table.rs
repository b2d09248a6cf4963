//! Verified association tables backing the registries: one keyed by strings
//! (sessions, transports) and one keyed by numeric handles (body streams,
//! WebSocket connections, cancellation tokens). Both are viewed as maps and
//! keep their keys unique.

use vstd::prelude::*;

verus! {

/// A value carrying an idle stamp (milliseconds); lets a table evict
/// entries that have been idle longer than a time-to-live.
pub trait Stamped {
    spec fn spec_stamp(&self) -> u64;

    fn stamp(&self) -> (r: u64)
        ensures
            r == self.spec_stamp(),
    ;
}

/// A key type for the tables: compared and cloned by its view.
pub trait ViewKey: View + Sized {
    fn key_eq(&self, other: &Self) -> (r: bool)
        ensures
            r == (self@ == other@),
    ;

    fn key_dup(&self) -> (r: Self)
        ensures
            r@ == self@,
    ;
}

impl ViewKey for String {
    fn key_eq(&self, other: &Self) -> (r: bool)
        ensures
            r == (self@ == other@),
    {
        *self == *other
    }

    fn key_dup(&self) -> (r: Self)
        ensures
            r@ == self@,
    {
        self.clone()
    }
}

/// Whether an entry stamped at `stamp` is still within its time-to-live at
/// time `now`.
pub open spec fn fresh_at(stamp: u64, now: u64, ttl: u64) -> bool {
    now <= stamp + ttl
}

/// An association table whose keys are compared by their views, itself
/// viewed as a map from key views to values. Keys are unique.
pub struct KeyedTable<K, T> {
    entries: Vec<(K, T)>,
}

impl<K: ViewKey, T> KeyedTable<K, T> {
    /// Well-formed: no two entries share a key.
    pub closed spec fn wf(&self) -> bool {
        forall|i: int, j: int|
            0 <= i < j < self.entries@.len() ==> (#[trigger] self.entries@[i]).0@ != (
            #[trigger] self.entries@[j]).0@
    }

    pub closed spec fn spec_has(&self, k: K::V) -> bool {
        exists|i: int| 0 <= i < self.entries@.len() && (#[trigger] self.entries@[i]).0@ == k
    }

    pub closed spec fn index_of(&self, k: K::V) -> int {
        choose|i: int| 0 <= i < self.entries@.len() && (#[trigger] self.entries@[i]).0@ == k
    }

    /// Number of entries.
    pub closed spec fn spec_len(&self) -> nat {
        self.entries@.len()
    }

    pub closed spec fn view(&self) -> Map<K::V, T> {
        Map::new(|k: K::V| self.spec_has(k), |k: K::V| self.entries@[self.index_of(k)].1)
    }

    proof fn lemma_entry(&self, i: int)
        requires
            self.wf(),
            0 <= i < self.entries@.len(),
        ensures
            self@.contains_key(self.entries@[i].0@),
            self@[self.entries@[i].0@] == self.entries@[i].1,
            self.index_of(self.entries@[i].0@) == i,
    {
        let k = self.entries@[i].0@;
        assert(self.spec_has(k));
        let j = self.index_of(k);
        assert(0 <= j < self.entries@.len() && self.entries@[j].0@ == k);
        if i != j {
            assert(false);
        }
    }

    pub fn new() -> (r: Self)
        ensures
            r.wf(),
            r@ == Map::<K::V, T>::empty(),
    {
        let r = KeyedTable { entries: Vec::new() };
        proof {
            assert(r@ =~= Map::<K::V, T>::empty());
        }
        r
    }

    /// Find the position of a key, if present.
    fn find(&self, k: &K) -> (r: Option<usize>)
        requires
            self.wf(),
        ensures
            r matches Some(i) ==> i < self.entries@.len() && self.entries@[i as int].0@ == k@
                && self@.contains_key(k@) && self@[k@] == self.entries@[i as int].1,
            r is None ==> !self@.contains_key(k@),
    {
        let mut i: usize = 0;
        while i < self.entries.len()
            invariant
                self.wf(),
                i <= self.entries@.len(),
                forall|j: int| 0 <= j < i ==> (#[trigger] self.entries@[j]).0@ != k@,
            decreases self.entries@.len() - i,
        {
            if self.entries[i].0.key_eq(k) {
                proof {
                    self.lemma_entry(i as int);
                }
                return Some(i);
            }
            i = i + 1;
        }
        None
    }

    pub fn contains(&self, k: &K) -> (r: bool)
        requires
            self.wf(),
        ensures
            r == self@.contains_key(k@),
    {
        self.find(k).is_some()
    }

    pub fn get(&self, k: &K) -> (r: Option<&T>)
        requires
            self.wf(),
        ensures
            r matches Some(v) ==> self@.contains_key(k@) && *v == self@[k@],
            r is None ==> !self@.contains_key(k@),
    {
        match self.find(k) {
            Some(i) => Some(&self.entries[i].1),
            None => None,
        }
    }

    /// Insert a value under a key, replacing any previous value.
    pub fn insert(&mut self, k: K, v: T)
        requires
            old(self).wf(),
        ensures
            final(self).wf(),
            final(self)@ == old(self)@.insert(k@, v),
    {
        match self.find(&k) {
            Some(i) => {
                let ghost pre = *self;
                let elem = vstd::std_specs::vec::vec_index_mut(&mut self.entries, i);
                *elem = (k, v);
                proof {
                    assert forall|m: int, n: int|
                        0 <= m < n < self.entries@.len() implies (#[trigger] self.entries@[m]).0@
                        != (#[trigger] self.entries@[n]).0@ by {
                        assert(pre.entries@[m].0@ != pre.entries@[n].0@);
                    }
                    assert forall|kk: K::V| true implies self.spec_has(kk) == (pre.spec_has(kk)
                        || kk == pre.entries@[i as int].0@) by {
                        if pre.spec_has(kk) {
                            let j = choose|j: int|
                                0 <= j < pre.entries@.len() && (#[trigger] pre.entries@[j]).0@
                                    == kk;
                            assert(self.entries@[j].0@ == kk || j == i as int);
                        }
                        if self.spec_has(kk) {
                            let j = choose|j: int|
                                0 <= j < self.entries@.len() && (#[trigger] self.entries@[j]).0@
                                    == kk;
                            assert(pre.entries@[j].0@ == kk || j == i as int);
                        }
                    }
                    assert forall|kk: K::V| self.spec_has(kk) implies self@[kk] == old(
                        self,
                    )@.insert(pre.entries@[i as int].0@, self.entries@[i as int].1)[kk] by {
                        let j = self.index_of(kk);
                        assert(0 <= j < self.entries@.len() && self.entries@[j].0@ == kk);
                        if j != i as int {
                            pre.lemma_entry(j);
                            assert(pre.entries@[j] == self.entries@[j]);
                        }
                    }
                    assert(self@ =~= pre@.insert(pre.entries@[i as int].0@, self.entries@[
                        i as int].1));
                }
            },
            None => {
                let ghost pre = *self;
                let ghost kv = k@;
                self.entries.push((k, v));
                proof {
                    let n = pre.entries@.len();
                    assert(self.entries@ == pre.entries@.push(self.entries@[n as int]));
                    assert forall|m: int, j: int|
                        0 <= m < j < self.entries@.len() implies (#[trigger] self.entries@[m]).0@
                        != (#[trigger] self.entries@[j]).0@ by {
                        if j < n {
                            assert(pre.entries@[m].0@ != pre.entries@[j].0@);
                        } else {
                            assert(self.entries@[m] == pre.entries@[m]);
                            assert(!pre.spec_has(kv));
                        }
                    }
                    assert forall|kk: K::V| self.spec_has(kk) implies self@[kk]
                        == pre@.insert(kv, self.entries@[n as int].1)[kk] by {
                        let j = self.index_of(kk);
                        assert(0 <= j < self.entries@.len() && self.entries@[j].0@ == kk);
                        if j != n {
                            pre.lemma_entry(j);
                            assert(pre.entries@[j] == self.entries@[j]);
                        }
                    }
                    assert forall|kk: K::V| true implies self.spec_has(kk) == (pre.spec_has(kk)
                        || kk == kv) by {
                        if pre.spec_has(kk) {
                            let j = choose|j: int|
                                0 <= j < pre.entries@.len() && (#[trigger] pre.entries@[j]).0@
                                    == kk;
                            assert(self.entries@[j].0@ == kk);
                        }
                        if self.spec_has(kk) {
                            let j = choose|j: int|
                                0 <= j < self.entries@.len() && (#[trigger] self.entries@[j]).0@
                                    == kk;
                            if j < n {
                                assert(pre.entries@[j].0@ == kk);
                            }
                        }
                    }
                    assert(self@ =~= pre@.insert(kv, self.entries@[n as int].1));
                }
            },
        }
    }

    /// Remove a key, if present.
    pub fn remove(&mut self, k: &K)
        requires
            old(self).wf(),
        ensures
            final(self).wf(),
            final(self)@ == old(self)@.remove(k@),
    {
        let _ = self.take(k);
    }

    /// Remove a key and hand back its value, if present.
    pub fn take(&mut self, k: &K) -> (r: Option<T>)
        requires
            old(self).wf(),
        ensures
            final(self).wf(),
            final(self)@ == old(self)@.remove(k@),
            r matches Some(v) ==> old(self)@.contains_key(k@) && v == old(self)@[k@],
            r is None ==> !old(self)@.contains_key(k@),
            old(self)@.contains_key(k@) ==> final(self).spec_len() == old(self).spec_len() - 1,
            !old(self)@.contains_key(k@) ==> final(self).spec_len() == old(self).spec_len(),
    {
        match self.find(k) {
            Some(i) => {
                let ghost pre = *self;
                let (_, v) = self.entries.remove(i);
                proof {
                    let n = pre.entries@.len();
                    assert forall|m: int, j: int|
                        0 <= m < j < self.entries@.len() implies (#[trigger] self.entries@[m]).0@
                        != (#[trigger] self.entries@[j]).0@ by {
                        let m0 = if m < i as int { m } else { m + 1 };
                        let j0 = if j < i as int { j } else { j + 1 };
                        assert(self.entries@[m] == pre.entries@[m0]);
                        assert(self.entries@[j] == pre.entries@[j0]);
                        assert(pre.entries@[m0].0@ != pre.entries@[j0].0@);
                    }
                    assert forall|kk: K::V| true implies self.spec_has(kk) == (pre.spec_has(kk)
                        && kk != k@) by {
                        if self.spec_has(kk) {
                            let j = choose|j: int|
                                0 <= j < self.entries@.len() && (#[trigger] self.entries@[j]).0@
                                    == kk;
                            let j0 = if j < i as int { j } else { j + 1 };
                            assert(pre.entries@[j0].0@ == kk);
                            if kk == k@ {
                                pre.lemma_entry(j0);
                                assert(false);
                            }
                        }
                        if pre.spec_has(kk) && kk != k@ {
                            let j = choose|j: int|
                                0 <= j < pre.entries@.len() && (#[trigger] pre.entries@[j]).0@
                                    == kk;
                            if j < i as int {
                                assert(self.entries@[j].0@ == kk);
                            } else {
                                assert(j != i as int);
                                assert(self.entries@[j - 1].0@ == kk);
                            }
                        }
                    }
                    assert forall|kk: K::V| self.spec_has(kk) implies self@[kk] == pre@.remove(
                        k@,
                    )[kk] by {
                        let j = self.index_of(kk);
                        assert(0 <= j < self.entries@.len() && self.entries@[j].0@ == kk);
                        let j0 = if j < i as int { j } else { j + 1 };
                        assert(self.entries@[j] == pre.entries@[j0]);
                        pre.lemma_entry(j0);
                    }
                    assert(self@ =~= pre@.remove(k@));
                    pre.lemma_entry(i as int);
                }
                Some(v)
            },
            None => {
                proof {
                    assert(self@ =~= old(self)@.remove(k@));
                }
                None
            },
        }
    }
}

impl<K: ViewKey, T: Stamped> KeyedTable<K, T> {
    /// Find the key of some entry whose stamp has outlived the time-to-live.
    fn find_stale(&self, now: u64, ttl: u64) -> (r: Option<K>)
        requires
            self.wf(),
        ensures
            r matches Some(k) ==> self@.contains_key(k@) && !fresh_at(
                self@[k@].spec_stamp(),
                now,
                ttl,
            ),
            r is None ==> forall|kk: K::V|
                #[trigger] self@.contains_key(kk) ==> fresh_at(self@[kk].spec_stamp(), now, ttl),
    {
        let mut i: usize = 0;
        while i < self.entries.len()
            invariant
                self.wf(),
                i <= self.entries@.len(),
                forall|j: int|
                    0 <= j < i ==> fresh_at(
                        (#[trigger] self.entries@[j]).1.spec_stamp(),
                        now,
                        ttl,
                    ),
            decreases self.entries@.len() - i,
        {
            let s = self.entries[i].1.stamp();
            let is_fresh = now <= s || now - s <= ttl;
            if !is_fresh {
                proof {
                    self.lemma_entry(i as int);
                }
                return Some(self.entries[i].0.key_dup());
            }
            i = i + 1;
        }
        proof {
            assert forall|kk: K::V| #[trigger] self@.contains_key(kk) implies fresh_at(
                self@[kk].spec_stamp(),
                now,
                ttl,
            ) by {
                let j = self.index_of(kk);
                assert(0 <= j < self.entries@.len() && self.entries@[j].0@ == kk);
                self.lemma_entry(j);
            }
        }
        None
    }

    /// Drop every entry whose stamp is older than the time-to-live at `now`;
    /// entries still within it are kept, unchanged.
    pub fn evict_idle(&mut self, now: u64, ttl: u64)
        requires
            old(self).wf(),
        ensures
            final(self).wf(),
            forall|k: K::V|
                #[trigger] final(self)@.contains_key(k) <==> old(self)@.contains_key(k) && fresh_at(
                    old(self)@[k].spec_stamp(),
                    now,
                    ttl,
                ),
            forall|k: K::V|
                #[trigger] final(self)@.contains_key(k) ==> final(self)@[k] == old(self)@[k],
    {
        loop
            invariant_except_break
                self.wf(),
                forall|k: K::V|
                    #[trigger] self@.contains_key(k) ==> old(self)@.contains_key(k) && self@[k]
                        == old(self)@[k],
                forall|k: K::V|
                    old(self)@.contains_key(k) && fresh_at(
                        (#[trigger] old(self)@[k]).spec_stamp(),
                        now,
                        ttl,
                    ) ==> self@.contains_key(k),
            ensures
                self.wf(),
                forall|k: K::V|
                    #[trigger] self@.contains_key(k) ==> old(self)@.contains_key(k) && self@[k]
                        == old(self)@[k],
                forall|k: K::V|
                    old(self)@.contains_key(k) && fresh_at(
                        (#[trigger] old(self)@[k]).spec_stamp(),
                        now,
                        ttl,
                    ) ==> self@.contains_key(k),
                forall|kk: K::V|
                    #[trigger] self@.contains_key(kk) ==> fresh_at(
                        self@[kk].spec_stamp(),
                        now,
                        ttl,
                    ),
            decreases self.spec_len(),
        {
            match self.find_stale(now, ttl) {
                Some(k) => {
                    let _ = self.take(&k);
                },
                None => {
                    break;
                },
            }
        }
    }
}

/// An association table with numeric-handle keys, viewed as a map from
/// `u64` to values. Keys are unique.
pub struct IdTable<T> {
    entries: Vec<(u64, T)>,
}

impl<T> IdTable<T> {
    /// Well-formed: no two entries share a key.
    pub closed spec fn wf(&self) -> bool {
        forall|i: int, j: int|
            0 <= i < j < self.entries@.len() ==> (#[trigger] self.entries@[i]).0 != (
            #[trigger] self.entries@[j]).0
    }

    pub closed spec fn spec_has(&self, k: u64) -> bool {
        exists|i: int| 0 <= i < self.entries@.len() && (#[trigger] self.entries@[i]).0 == k
    }

    pub closed spec fn index_of(&self, k: u64) -> int {
        choose|i: int| 0 <= i < self.entries@.len() && (#[trigger] self.entries@[i]).0 == k
    }

    /// Number of entries.
    pub closed spec fn spec_len(&self) -> nat {
        self.entries@.len()
    }

    pub closed spec fn view(&self) -> Map<u64, T> {
        Map::new(|k: u64| self.spec_has(k), |k: u64| self.entries@[self.index_of(k)].1)
    }

    proof fn lemma_entry(&self, i: int)
        requires
            self.wf(),
            0 <= i < self.entries@.len(),
        ensures
            self@.contains_key(self.entries@[i].0),
            self@[self.entries@[i].0] == self.entries@[i].1,
            self.index_of(self.entries@[i].0) == i,
    {
        let k = self.entries@[i].0;
        assert(self.spec_has(k));
        let j = self.index_of(k);
        assert(0 <= j < self.entries@.len() && self.entries@[j].0 == k);
        if i != j {
            assert(false);
        }
    }

    pub fn new() -> (r: Self)
        ensures
            r.wf(),
            r@ == Map::<u64, T>::empty(),
    {
        let r = IdTable { entries: Vec::new() };
        proof {
            assert(r@ =~= Map::<u64, T>::empty());
        }
        r
    }

    /// Find the position of a key, if present.
    fn find(&self, k: u64) -> (r: Option<usize>)
        requires
            self.wf(),
        ensures
            r matches Some(i) ==> i < self.entries@.len() && self.entries@[i as int].0 == k
                && self@.contains_key(k) && self@[k] == self.entries@[i as int].1,
            r is None ==> !self@.contains_key(k),
    {
        let mut i: usize = 0;
        while i < self.entries.len()
            invariant
                self.wf(),
                i <= self.entries@.len(),
                forall|j: int| 0 <= j < i ==> (#[trigger] self.entries@[j]).0 != k,
            decreases self.entries@.len() - i,
        {
            if self.entries[i].0 == k {
                proof {
                    self.lemma_entry(i as int);
                }
                return Some(i);
            }
            i = i + 1;
        }
        None
    }

    pub fn contains(&self, k: u64) -> (r: bool)
        requires
            self.wf(),
        ensures
            r == self@.contains_key(k),
    {
        self.find(k).is_some()
    }

    pub fn get(&self, k: u64) -> (r: Option<&T>)
        requires
            self.wf(),
        ensures
            r matches Some(v) ==> self@.contains_key(k) && *v == self@[k],
            r is None ==> !self@.contains_key(k),
    {
        match self.find(k) {
            Some(i) => Some(&self.entries[i].1),
            None => None,
        }
    }

    /// Insert a value under a key, replacing any previous value.
    pub fn insert(&mut self, k: u64, v: T)
        requires
            old(self).wf(),
        ensures
            final(self).wf(),
            final(self)@ == old(self)@.insert(k, v),
    {
        match self.find(k) {
            Some(i) => {
                let ghost pre = *self;
                let elem = vstd::std_specs::vec::vec_index_mut(&mut self.entries, i);
                *elem = (k, v);
                proof {
                    assert forall|m: int, n: int|
                        0 <= m < n < self.entries@.len() implies (#[trigger] self.entries@[m]).0
                        != (#[trigger] self.entries@[n]).0 by {
                        assert(pre.entries@[m].0 != pre.entries@[n].0);
                    }
                    assert forall|kk: u64| true implies self.spec_has(kk) == (pre.spec_has(kk)
                        || kk == pre.entries@[i as int].0) by {
                        if pre.spec_has(kk) {
                            let j = choose|j: int|
                                0 <= j < pre.entries@.len() && (#[trigger] pre.entries@[j]).0
                                    == kk;
                            assert(self.entries@[j].0 == kk || j == i as int);
                        }
                        if self.spec_has(kk) {
                            let j = choose|j: int|
                                0 <= j < self.entries@.len() && (#[trigger] self.entries@[j]).0
                                    == kk;
                            assert(pre.entries@[j].0 == kk || j == i as int);
                        }
                    }
                    assert forall|kk: u64| self.spec_has(kk) implies self@[kk] == old(
                        self,
                    )@.insert(pre.entries@[i as int].0, self.entries@[i as int].1)[kk] by {
                        let j = self.index_of(kk);
                        assert(0 <= j < self.entries@.len() && self.entries@[j].0 == kk);
                        if j != i as int {
                            pre.lemma_entry(j);
                            assert(pre.entries@[j] == self.entries@[j]);
                        }
                    }
                    assert(self@ =~= pre@.insert(pre.entries@[i as int].0, self.entries@[
                        i as int].1));
                }
            },
            None => {
                let ghost pre = *self;
                self.entries.push((k, v));
                proof {
                    let n = pre.entries@.len();
                    assert(self.entries@ == pre.entries@.push(self.entries@[n as int]));
                    assert forall|m: int, j: int|
                        0 <= m < j < self.entries@.len() implies (#[trigger] self.entries@[m]).0
                        != (#[trigger] self.entries@[j]).0 by {
                        if j < n {
                            assert(pre.entries@[m].0 != pre.entries@[j].0);
                        } else {
                            assert(self.entries@[m] == pre.entries@[m]);
                            assert(!pre.spec_has(k));
                        }
                    }
                    assert forall|kk: u64| self.spec_has(kk) implies self@[kk]
                        == pre@.insert(k, self.entries@[n as int].1)[kk] by {
                        let j = self.index_of(kk);
                        assert(0 <= j < self.entries@.len() && self.entries@[j].0 == kk);
                        if j != n {
                            pre.lemma_entry(j);
                            assert(pre.entries@[j] == self.entries@[j]);
                        }
                    }
                    assert forall|kk: u64| true implies self.spec_has(kk) == (pre.spec_has(kk)
                        || kk == k) by {
                        if pre.spec_has(kk) {
                            let j = choose|j: int|
                                0 <= j < pre.entries@.len() && (#[trigger] pre.entries@[j]).0
                                    == kk;
                            assert(self.entries@[j].0 == kk);
                        }
                        if self.spec_has(kk) {
                            let j = choose|j: int|
                                0 <= j < self.entries@.len() && (#[trigger] self.entries@[j]).0
                                    == kk;
                            if j < n {
                                assert(pre.entries@[j].0 == kk);
                            }
                        }
                    }
                    assert(self@ =~= pre@.insert(k, self.entries@[n as int].1));
                }
            },
        }
    }

    /// Remove a key, if present.
    pub fn remove(&mut self, k: u64)
        requires
            old(self).wf(),
        ensures
            final(self).wf(),
            final(self)@ == old(self)@.remove(k),
    {
        let _ = self.take(k);
    }

    /// Remove a key and hand back its value, if present.
    pub fn take(&mut self, k: u64) -> (r: Option<T>)
        requires
            old(self).wf(),
        ensures
            final(self).wf(),
            final(self)@ == old(self)@.remove(k),
            r matches Some(v) ==> old(self)@.contains_key(k) && v == old(self)@[k],
            r is None ==> !old(self)@.contains_key(k),
            old(self)@.contains_key(k) ==> final(self).spec_len() == old(self).spec_len() - 1,
            !old(self)@.contains_key(k) ==> final(self).spec_len() == old(self).spec_len(),
    {
        match self.find(k) {
            Some(i) => {
                let ghost pre = *self;
                let (_, v) = self.entries.remove(i);
                proof {
                    let n = pre.entries@.len();
                    assert forall|m: int, j: int|
                        0 <= m < j < self.entries@.len() implies (#[trigger] self.entries@[m]).0
                        != (#[trigger] self.entries@[j]).0 by {
                        let m0 = if m < i as int { m } else { m + 1 };
                        let j0 = if j < i as int { j } else { j + 1 };
                        assert(self.entries@[m] == pre.entries@[m0]);
                        assert(self.entries@[j] == pre.entries@[j0]);
                        assert(pre.entries@[m0].0 != pre.entries@[j0].0);
                    }
                    assert forall|kk: u64| true implies self.spec_has(kk) == (pre.spec_has(kk)
                        && kk != k) by {
                        if self.spec_has(kk) {
                            let j = choose|j: int|
                                0 <= j < self.entries@.len() && (#[trigger] self.entries@[j]).0
                                    == kk;
                            let j0 = if j < i as int { j } else { j + 1 };
                            assert(pre.entries@[j0].0 == kk);
                            if kk == k {
                                pre.lemma_entry(j0);
                                assert(false);
                            }
                        }
                        if pre.spec_has(kk) && kk != k {
                            let j = choose|j: int|
                                0 <= j < pre.entries@.len() && (#[trigger] pre.entries@[j]).0
                                    == kk;
                            if j < i as int {
                                assert(self.entries@[j].0 == kk);
                            } else {
                                assert(j != i as int);
                                assert(self.entries@[j - 1].0 == kk);
                            }
                        }
                    }
                    assert forall|kk: u64| self.spec_has(kk) implies self@[kk] == pre@.remove(
                        k,
                    )[kk] by {
                        let j = self.index_of(kk);
                        assert(0 <= j < self.entries@.len() && self.entries@[j].0 == kk);
                        let j0 = if j < i as int { j } else { j + 1 };
                        assert(self.entries@[j] == pre.entries@[j0]);
                        pre.lemma_entry(j0);
                    }
                    assert(self@ =~= pre@.remove(k));
                    pre.lemma_entry(i as int);
                }
                Some(v)
            },
            None => {
                proof {
                    assert(self@ =~= old(self)@.remove(k));
                }
                None
            },
        }
    }
}

} // verus!