use vstd::prelude::*;

verus! {

/// A finite map from account identifiers to values.
///
/// Entries are kept in insertion order and no account appears twice.
pub struct AccountMap<T> {
    entries: Vec<(String, T)>,
}

impl<T> AccountMap<T> {
    /// The account identifier stored at position `i`.
    pub closed spec fn key_at(&self, i: int) -> Seq<char> {
        self.entries@[i].0@
    }

    /// The number of stored entries.
    pub closed spec fn spec_len(&self) -> nat {
        self.entries@.len()
    }

    /// No account identifier is stored twice.
    pub closed spec fn wf(&self) -> bool {
        forall|i: int, j: int|
            0 <= i < j < self.entries@.len() ==> #[trigger] self.key_at(i) != #[trigger] self.key_at(j)
    }

    proof fn lemma_entry(&self, i: int)
        requires
            self.wf(),
            0 <= i < self.entries@.len(),
        ensures
            self@.contains_key(self.key_at(i)),
            self@[self.key_at(i)] == self.entries@[i].1,
    {
        let k = self.key_at(i);
        assert(self.key_at(i) == k);
        let j = choose|j: int| 0 <= j < self.entries@.len() && #[trigger] self.key_at(j) == k;
        if j != i {
            if i < j {
                assert(self.key_at(i) != self.key_at(j));
            } else {
                assert(self.key_at(j) != self.key_at(i));
            }
        }
    }

    pub fn new() -> (r: Self)
        ensures
            r.wf(),
            r@ == Map::<Seq<char>, T>::empty(),
    {
        let r = AccountMap { entries: Vec::new() };
        assert(r@ =~= Map::<Seq<char>, T>::empty());
        r
    }

    /// The position of `k`, if it is stored.
    fn index_of(&self, k: &String) -> (r: Option<usize>)
        requires
            self.wf(),
        ensures
            match r {
                Some(i) => i < self.entries@.len() && self.key_at(i as int) == k@,
                None => !self@.contains_key(k@),
            },
    {
        let mut i: usize = 0;
        while i < self.entries.len()
            invariant
                i <= self.entries@.len(),
                forall|j: int| 0 <= j < i ==> #[trigger] self.key_at(j) != k@,
            decreases self.entries@.len() - i,
        {
            if self.entries[i].0 == *k {
                return Some(i);
            }
            i = i + 1;
        }
        proof {
            if self@.contains_key(k@) {
                let j = choose|j: int| 0 <= j < self.entries@.len() && #[trigger] self.key_at(j) == k@;
                assert(self.key_at(j) != k@);
            }
        }
        None
    }

    /// Whether `k` is stored.
    pub fn contains(&self, k: &String) -> (r: bool)
        requires
            self.wf(),
        ensures
            r == self@.contains_key(k@),
    {
        match self.index_of(k) {
            Some(i) => {
                proof {
                    self.lemma_entry(i as int);
                }
                true
            },
            None => false,
        }
    }

    /// The value stored for `k`, if any.
    pub fn get(&self, k: &String) -> (r: Option<&T>)
        requires
            self.wf(),
        ensures
            match r {
                Some(v) => self@.contains_key(k@) && *v == self@[k@],
                None => !self@.contains_key(k@),
            },
    {
        match self.index_of(k) {
            Some(i) => {
                proof {
                    self.lemma_entry(i as int);
                }
                Some(&self.entries[i].1)
            },
            None => None,
        }
    }

    /// Stores `v` for `k`, replacing any earlier value.
    pub fn insert(&mut self, k: String, v: T)
        requires
            old(self).wf(),
        ensures
            final(self).wf(),
            final(self)@ == old(self)@.insert(k@, v),
    {
        let ghost pre = *self;
        match self.index_of(&k) {
            Some(i) => {
                self.entries.set(i, (k, v));
                proof {
                    self.lemma_after_set(pre, i as int);
                }
            },
            None => {
                let ghost key = k@;
                self.entries.push((k, v));
                proof {
                    self.lemma_after_push(pre, key);
                }
            },
        }
    }

    /// Stores `v` for `k` and hands back the earlier value, when `k` is stored;
    /// otherwise changes nothing.
    pub fn replace(&mut self, k: &String, v: T) -> (r: Option<T>)
        requires
            old(self).wf(),
        ensures
            final(self).wf(),
            match r {
                Some(prev) => old(self)@.contains_key(k@) && prev == old(self)@[k@] && final(self)@
                    == old(self)@.insert(k@, v),
                None => !old(self)@.contains_key(k@) && final(self)@ == old(self)@,
            },
    {
        let ghost pre = *self;
        match self.index_of(k) {
            Some(i) => {
                proof {
                    pre.lemma_entry(i as int);
                }
                let mut slot = (k.clone(), v);
                self.entries.set_and_swap(i, &mut slot);
                proof {
                    self.lemma_after_set(pre, i as int);
                }
                Some(slot.1)
            },
            None => None,
        }
    }

    /// Removes `k` and its value, if stored; the other entries keep their order.
    pub fn remove(&mut self, k: &String)
        requires
            old(self).wf(),
        ensures
            final(self).wf(),
            final(self)@ == old(self)@.remove(k@),
    {
        let ghost pre = *self;
        match self.index_of(k) {
            Some(i) => {
                self.entries.remove(i);
                proof {
                    let n = pre.entries@.len() as int;
                    let ii = i as int;
                    assert forall|j: int| 0 <= j < n - 1 implies #[trigger] self.key_at(j) == pre.key_at(
                        if j < ii { j } else { j + 1 },
                    ) by {}
                    assert forall|a: int, b: int| 0 <= a < b < self.entries@.len() implies #[trigger] self.key_at(a)
                        != #[trigger] self.key_at(b) by {
                        let a2 = if a < ii { a } else { a + 1 };
                        let b2 = if b < ii { b } else { b + 1 };
                        assert(self.key_at(a) == pre.key_at(a2));
                        assert(self.key_at(b) == pre.key_at(b2));
                    }
                    assert forall|q: Seq<char>| #[trigger] self@.contains_key(q) == pre@.remove(k@).contains_key(q) by {
                        if self@.contains_key(q) {
                            let j = choose|j: int| 0 <= j < self.entries@.len() && #[trigger] self.key_at(j) == q;
                            let j2 = if j < ii { j } else { j + 1 };
                            assert(pre.key_at(j2) == q);
                            if q == k@ {
                                assert(pre.key_at(ii) == q);
                            }
                        }
                        if pre@.contains_key(q) && q != k@ {
                            let j = choose|j: int| 0 <= j < pre.entries@.len() && #[trigger] pre.key_at(j) == q;
                            if j < ii {
                                assert(self.key_at(j) == q);
                            } else {
                                assert(j != ii);
                                assert(self.key_at(j - 1) == q);
                            }
                        }
                    }
                    assert forall|q: Seq<char>| #[trigger] self@.contains_key(q) implies self@[q] == pre@[q] by {
                        let j = choose|j: int| 0 <= j < self.entries@.len() && #[trigger] self.key_at(j) == q;
                        self.lemma_entry(j);
                        let j2 = if j < ii { j } else { j + 1 };
                        assert(pre.key_at(j2) == q);
                        pre.lemma_entry(j2);
                    }
                    assert(self@ =~= pre@.remove(k@));
                }
            },
            None => {
                assert(pre@.remove(k@) =~= pre@);
            },
        }
    }

    /// Whether `k` is stored and nothing else is.
    pub fn is_only_key(&self, k: &String) -> (r: bool)
        requires
            self.wf(),
        ensures
            r == (self@.dom() == set![k@]),
    {
        if self.entries.len() == 1 && self.entries[0].0 == *k {
            proof {
                self.lemma_entry(0);
                assert forall|q: Seq<char>| #[trigger] self@.contains_key(q) implies q == k@ by {
                    let j = choose|j: int| 0 <= j < self.entries@.len() && #[trigger] self.key_at(j) == q;
                }
                assert(self@.dom() =~= set![k@]);
            }
            true
        } else {
            proof {
                if self@.dom() == set![k@] {
                    assert(self@.contains_key(k@));
                    let j = choose|j: int| 0 <= j < self.entries@.len() && #[trigger] self.key_at(j) == k@;
                    if self.entries@.len() != 1 {
                        let other = if j == 0 { 1int } else { 0int };
                        self.lemma_entry(other);
                        assert(self.key_at(other) != self.key_at(j)) by {
                            if other < j {} else {}
                        }
                    } else {
                        assert(j == 0);
                    }
                }
            }
            false
        }
    }

    /// The entries, in insertion order.
    pub fn entries(&self) -> (r: &Vec<(String, T)>)
        requires
            self.wf(),
        ensures
            r@.len() == self.spec_len(),
            forall|i: int|
                0 <= i < r@.len() ==> #[trigger] r@[i].0@ == self.key_at(i) && self@.contains_key(
                    r@[i].0@,
                ) && self@[r@[i].0@] == r@[i].1,
    {
        let r = &self.entries;
        proof {
            assert forall|i: int| 0 <= i < r@.len() implies #[trigger] r@[i].0@ == self.key_at(i)
                && self@.contains_key(r@[i].0@) && self@[r@[i].0@] == r@[i].1 by {
                self.lemma_entry(i);
            }
        }
        r
    }

    proof fn lemma_after_set(&self, pre: Self, i: int)
        requires
            pre.wf(),
            0 <= i < pre.entries@.len(),
            self.entries@ == pre.entries@.update(i, self.entries@[i]),
            self.key_at(i) == pre.key_at(i),
        ensures
            self.wf(),
            self@ == pre@.insert(pre.key_at(i), self.entries@[i].1),
    {
        assert forall|a: int, b: int| 0 <= a < b < self.entries@.len() implies #[trigger] self.key_at(a)
            != #[trigger] self.key_at(b) by {
            assert(self.key_at(a) == pre.key_at(a));
            assert(self.key_at(b) == pre.key_at(b));
        }
        let k = pre.key_at(i);
        assert forall|q: Seq<char>| #[trigger] self@.contains_key(q) == pre@.insert(k, self.entries@[i].1).contains_key(q) by {
            if self@.contains_key(q) {
                let j = choose|j: int| 0 <= j < self.entries@.len() && #[trigger] self.key_at(j) == q;
                assert(pre.key_at(j) == q);
            }
            if pre@.contains_key(q) {
                let j = choose|j: int| 0 <= j < pre.entries@.len() && #[trigger] pre.key_at(j) == q;
                assert(self.key_at(j) == q);
            }
            if q == k {
                assert(self.key_at(i) == q);
            }
        }
        assert forall|q: Seq<char>| #[trigger] self@.contains_key(q) implies self@[q] == pre@.insert(k, self.entries@[i].1)[q] by {
            let j = choose|j: int| 0 <= j < self.entries@.len() && #[trigger] self.key_at(j) == q;
            self.lemma_entry(j);
            if q != k {
                assert(pre.key_at(j) == q);
                pre.lemma_entry(j);
            } else {
                self.lemma_entry(i);
            }
        }
        assert(self@ =~= pre@.insert(k, self.entries@[i].1));
    }

    proof fn lemma_after_push(&self, pre: Self, k: Seq<char>)
        requires
            pre.wf(),
            !pre@.contains_key(k),
            self.entries@.len() == pre.entries@.len() + 1,
            forall|j: int| 0 <= j < pre.entries@.len() ==> self.entries@[j] == pre.entries@[j],
            self.key_at(pre.entries@.len() as int) == k,
        ensures
            self.wf(),
            self@ == pre@.insert(k, self.entries@[pre.entries@.len() as int].1),
    {
        let n = pre.entries@.len() as int;
        assert forall|j: int| 0 <= j < n implies #[trigger] pre.key_at(j) != k by {
            pre.lemma_entry(j);
        }
        assert forall|a: int, b: int| 0 <= a < b < self.entries@.len() implies #[trigger] self.key_at(a)
            != #[trigger] self.key_at(b) by {
            assert(self.key_at(a) == pre.key_at(a));
            if b < n {
                assert(self.key_at(b) == pre.key_at(b));
            }
        }
        let v = self.entries@[n].1;
        assert forall|q: Seq<char>| #[trigger] self@.contains_key(q) == pre@.insert(k, v).contains_key(q) by {
            if self@.contains_key(q) {
                let j = choose|j: int| 0 <= j < self.entries@.len() && #[trigger] self.key_at(j) == q;
                if j < n {
                    assert(pre.key_at(j) == q);
                }
            }
            if pre@.contains_key(q) {
                let j = choose|j: int| 0 <= j < pre.entries@.len() && #[trigger] pre.key_at(j) == q;
                assert(self.key_at(j) == q);
            }
            if q == k {
                assert(self.key_at(n) == q);
            }
        }
        assert forall|q: Seq<char>| #[trigger] self@.contains_key(q) implies self@[q] == pre@.insert(k, v)[q] by {
            let j = choose|j: int| 0 <= j < self.entries@.len() && #[trigger] self.key_at(j) == q;
            self.lemma_entry(j);
            if j < n {
                assert(pre.key_at(j) == q);
                pre.lemma_entry(j);
            }
        }
        assert(self@ =~= pre@.insert(k, v));
    }
}

impl<T> View for AccountMap<T> {
    type V = Map<Seq<char>, T>;

    closed spec fn view(&self) -> Map<Seq<char>, T> {
        Map::new(
            |k: Seq<char>| exists|i: int| 0 <= i < self.entries@.len() && #[trigger] self.key_at(i) == k,
            |k: Seq<char>|
                self.entries@[choose|i: int| 0 <= i < self.entries@.len() && #[trigger] self.key_at(i) == k].1,
        )
    }
}

} // verus!
