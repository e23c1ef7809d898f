use vstd::prelude::*;

verus! {

/// Keys of a count map: comparable and copyable by view.
pub trait CountKey: View + Sized {
    fn same_key(&self, other: &Self) -> (r: bool)
        ensures
            r == (self@ == other@),
    ;

    fn copy_key(&self) -> (r: Self)
        ensures
            r@ == self@,
    ;
}

impl CountKey for u16 {
    fn same_key(&self, other: &u16) -> (r: bool) {
        *self == *other
    }

    fn copy_key(&self) -> (r: u16) {
        *self
    }
}

impl CountKey for String {
    fn same_key(&self, other: &String) -> (r: bool) {
        *self == *other
    }

    fn copy_key(&self) -> (r: String) {
        self.clone()
    }
}

/// A tally: how many times each key was counted.
#[derive(Debug)]
#[verifier::reject_recursive_types(K)]
pub struct CountMap<K: CountKey> {
    entries: Vec<(K, usize)>,
}

impl<K: CountKey> CountMap<K> {
    closed spec fn keys_distinct(&self) -> bool {
        forall|i: int, j: int|
            0 <= i < self.entries@.len() && 0 <= j < self.entries@.len() && i != j
                ==> self.entries@[i].0@ != self.entries@[j].0@
    }

    #[verifier::type_invariant]
    closed spec fn inv(&self) -> bool {
        self.keys_distinct()
    }

    /// The count of each key; keys never counted are absent.
    pub closed spec fn counts(&self) -> Map<K::V, nat> {
        Map::new(
            |k: K::V| exists|i: int| 0 <= i < self.entries@.len() && self.entries@[i].0@ == k,
            |k: K::V| {
                let i = choose|i: int| 0 <= i < self.entries@.len() && self.entries@[i].0@ == k;
                self.entries@[i].1 as nat
            },
        )
    }

    /// The count of a key, zero where it was never counted.
    pub open spec fn count_of(&self, k: K::V) -> nat {
        if self.counts().contains_key(k) {
            self.counts()[k]
        } else {
            0
        }
    }

    /// The number of distinct keys.
    pub closed spec fn key_len(&self) -> nat {
        self.entries@.len()
    }

    /// The key at a position.
    pub closed spec fn key_at_spec(&self, i: int) -> K::V {
        self.entries@[i].0@
    }

    proof fn lemma_count(&self, i: int)
        requires
            self.keys_distinct(),
            0 <= i < self.entries@.len(),
        ensures
            self.counts().contains_key(self.entries@[i].0@),
            self.counts()[self.entries@[i].0@] == self.entries@[i].1 as nat,
    {
        let k = self.entries@[i].0@;
        assert(exists|j: int| 0 <= j < self.entries@.len() && self.entries@[j].0@ == k);
        let j = choose|j: int| 0 <= j < self.entries@.len() && self.entries@[j].0@ == k;
        assert(j == i);
    }

    /// An empty tally.
    pub fn new() -> (r: Self)
        ensures
            r.counts() == Map::<K::V, nat>::empty(),
            r.key_len() == 0,
    {
        let r = CountMap { entries: Vec::new() };
        proof {
            assert(r.counts() =~= Map::<K::V, nat>::empty());
        }
        r
    }

    fn find(&self, key: &K) -> (r: Option<usize>)
        ensures
            match r {
                Some(i) => i < self.entries@.len() && self.entries@[i as int].0@ == key@,
                None => forall|j: int| 0 <= j < self.entries@.len() ==> self.entries@[j].0@ != key@,
            },
    {
        let mut i: usize = 0;
        while i < self.entries.len()
            invariant
                i <= self.entries@.len(),
                forall|j: int| 0 <= j < i ==> self.entries@[j].0@ != key@,
            decreases self.entries@.len() - i,
        {
            if self.entries[i].0.same_key(key) {
                return Some(i);
            }
            i = i + 1;
        }
        None
    }

    /// The count of a key.
    pub fn get(&self, key: &K) -> (r: usize)
        ensures
            r == self.count_of(key@),
    {
        proof {
            use_type_invariant(self);
        }
        match self.find(key) {
            Some(i) => {
                proof {
                    self.lemma_count(i as int);
                }
                self.entries[i].1
            },
            None => {
                proof {
                    if self.counts().contains_key(key@) {
                        let j = choose|j: int| 0 <= j < self.entries@.len() && self.entries@[j].0@ == key@;
                    }
                }
                0
            },
        }
    }

    /// Counts a key `n` more times.
    pub fn add(&mut self, key: &K, n: usize)
        requires
            old(self).count_of(key@) + n <= usize::MAX,
        ensures
            final(self).counts() == old(self).counts().insert(key@, old(self).count_of(key@) + n as nat),
    {
        proof {
            use_type_invariant(&*self);
        }
        let ghost old_counts = self.counts();
        match self.find(key) {
            Some(i) => {
                proof {
                    self.lemma_count(i as int);
                }
                let c = self.entries[i].1;
                let k = key.copy_key();
                let mut entries: Vec<(K, usize)> = Vec::new();
                std::mem::swap(&mut entries, &mut self.entries);
                let ghost before = entries@;
                entries.set(i, (k, c + n));
                self.entries = entries;
                proof {
                    assert(self.keys_distinct());
                    assert forall|q: K::V| self.counts().contains_key(q) == old_counts.insert(key@, (c + n) as nat).contains_key(q) by {
                        if q == key@ {
                            assert(self.entries@[i as int].0@ == q);
                        }
                        if q != key@ && old_counts.contains_key(q) {
                            let j = choose|j: int| 0 <= j < before.len() && before[j].0@ == q;
                            assert(self.entries@[j].0@ == q);
                        }
                        if self.counts().contains_key(q) {
                            let j = choose|j: int| 0 <= j < self.entries@.len() && self.entries@[j].0@ == q;
                            if j != i {
                                assert(before[j].0@ == q);
                            }
                        }
                    }
                    assert forall|q: K::V| #[trigger] self.counts().contains_key(q) implies self.counts()[q] == old_counts.insert(key@, (c + n) as nat)[q] by {
                        let j = choose|j: int| 0 <= j < self.entries@.len() && self.entries@[j].0@ == q;
                        self.lemma_count(j);
                        if j != i {
                            assert(before[j] == self.entries@[j]);
                            assert(exists|m: int| 0 <= m < before.len() && before[m].0@ == q);
                            let m = choose|m: int| 0 <= m < before.len() && before[m].0@ == q;
                            assert(m == j);
                        }
                    }
                    assert(self.counts() =~= old_counts.insert(key@, (c + n) as nat));
                }
            },
            None => {
                let k = key.copy_key();
                let mut entries: Vec<(K, usize)> = Vec::new();
                std::mem::swap(&mut entries, &mut self.entries);
                let ghost before = entries@;
                entries.push((k, n));
                self.entries = entries;
                proof {
                    assert(!old_counts.contains_key(key@)) by {
                        if old_counts.contains_key(key@) {
                            let j = choose|j: int| 0 <= j < before.len() && before[j].0@ == key@;
                        }
                    }
                    assert(self.keys_distinct());
                    assert forall|q: K::V| self.counts().contains_key(q) == old_counts.insert(key@, n as nat).contains_key(q) by {
                        if q != key@ && old_counts.contains_key(q) {
                            let j = choose|j: int| 0 <= j < before.len() && before[j].0@ == q;
                            assert(self.entries@[j].0@ == q);
                        }
                        if q == key@ {
                            assert(self.entries@[before.len() as int].0@ == q);
                        }
                        if self.counts().contains_key(q) && q != key@ {
                            let j = choose|j: int| 0 <= j < self.entries@.len() && self.entries@[j].0@ == q;
                            assert(before[j].0@ == q);
                        }
                    }
                    assert forall|q: K::V| #[trigger] self.counts().contains_key(q) implies self.counts()[q] == old_counts.insert(key@, n as nat)[q] by {
                        let j = choose|j: int| 0 <= j < self.entries@.len() && self.entries@[j].0@ == q;
                        self.lemma_count(j);
                        if j < before.len() {
                            assert(before[j] == self.entries@[j]);
                            let m = choose|m: int| 0 <= m < before.len() && before[m].0@ == q;
                            assert(m == j);
                        }
                    }
                    assert(self.counts() =~= old_counts.insert(key@, n as nat));
                }
            },
        }
    }

    /// The number of distinct keys counted.
    pub fn len(&self) -> (r: usize)
        ensures
            r == self.key_len(),
    {
        self.entries.len()
    }

    /// The key at a position.
    pub fn key_at(&self, i: usize) -> (r: &K)
        requires
            i < self.key_len(),
        ensures
            r@ == self.key_at_spec(i as int),
    {
        &self.entries[i].0
    }

    /// The count at a position.
    pub fn count_at(&self, i: usize) -> (r: usize)
        requires
            i < self.key_len(),
        ensures
            r == self.count_of(self.key_at_spec(i as int)),
    {
        proof {
            use_type_invariant(self);
            self.lemma_count(i as int);
        }
        self.entries[i].1
    }
}


impl<K: CountKey> CountMap<K> {
    /// Adds every count of `other` to this tally.
    pub fn merge_from(&mut self, other: &CountMap<K>)
        requires
            forall|k: K::V| #[trigger] old(self).count_of(k) + other.count_of(k) <= usize::MAX,
        ensures
            forall|k: K::V| #[trigger] final(self).count_of(k) == old(self).count_of(k) + other.count_of(k),
            final(self).counts().dom() == old(self).counts().dom().union(other.counts().dom()),
    {
        proof {
            use_type_invariant(other);
        }
        let n = other.entries.len();
        let mut i: usize = 0;
        while i < n
            invariant
                n == other.entries@.len(),
                i <= n,
                other.keys_distinct(),
                forall|k: K::V| #[trigger] old(self).count_of(k) + other.count_of(k) <= usize::MAX,
                forall|k: K::V| #[trigger] self.count_of(k) == old(self).count_of(k) + (if exists|j: int|
                    0 <= j < i && other.entries@[j].0@ == k { other.count_of(k) } else { 0 }),
                forall|k: K::V| #[trigger] self.counts().contains_key(k) <==> (old(self).counts().contains_key(k)
                    || exists|j: int| 0 <= j < i && other.entries@[j].0@ == k),
            decreases n - i,
        {
            let key = &other.entries[i].0;
            let c = other.entries[i].1;
            proof {
                other.lemma_count(i as int);
                assert(!(exists|j: int| 0 <= j < i && other.entries@[j].0@ == key@));
                assert(self.count_of(key@) == old(self).count_of(key@));
            }
            let ghost before = self.counts();
            let ghost before_self = *self;
            self.add(key, c);
            proof {
                assert forall|k: K::V| #[trigger] self.count_of(k) == old(self).count_of(k) + (if exists|j: int|
                    0 <= j < i + 1 && other.entries@[j].0@ == k { other.count_of(k) } else { 0 }) by {
                    if k == key@ {
                        assert(other.entries@[i as int].0@ == k);
                    } else {
                        assert(before_self.count_of(k) == self.count_of(k));
                        if exists|j: int| 0 <= j < i + 1 && other.entries@[j].0@ == k {
                            let j = choose|j: int| 0 <= j < i + 1 && other.entries@[j].0@ == k;
                            assert(j != i);
                        }
                    }
                }
                assert forall|k: K::V| #[trigger] self.counts().contains_key(k) <==> (old(self).counts().contains_key(k)
                    || exists|j: int| 0 <= j < i + 1 && other.entries@[j].0@ == k) by {
                    if k == key@ {
                        assert(other.entries@[i as int].0@ == k);
                    } else {
                        if exists|j: int| 0 <= j < i + 1 && other.entries@[j].0@ == k {
                            let j = choose|j: int| 0 <= j < i + 1 && other.entries@[j].0@ == k;
                            assert(j != i);
                        }
                    }
                }
            }
            i = i + 1;
        }
        proof {
            assert forall|k: K::V| (exists|j: int| 0 <= j < n && other.entries@[j].0@ == k) == other.counts().contains_key(k) by {}
            assert(self.counts().dom() =~= old(self).counts().dom().union(other.counts().dom()));
            assert forall|k: K::V| #[trigger] self.count_of(k) == old(self).count_of(k) + other.count_of(k) by {
                if !other.counts().contains_key(k) {
                    assert(other.count_of(k) == 0);
                }
            }
        }
    }
}

} // verus!
