use vstd::prelude::*;

verus! {

/// Values that can be copied so that the copy has the same view.
pub trait Duplicate: View + Sized {
    fn duplicate(&self) -> (r: Self)
        ensures
            r@ == self@,
    ;
}

impl Duplicate for String {
    fn duplicate(&self) -> (r: String) {
        self.clone()
    }
}

impl Duplicate for usize {
    fn duplicate(&self) -> (r: usize) {
        *self
    }
}

impl Duplicate for u64 {
    fn duplicate(&self) -> (r: u64) {
        *self
    }
}

/// The map described by a sequence of (key, value) pairs, later pairs overriding earlier ones.
pub open spec fn pairs_to_map<V>(s: Seq<(Seq<char>, V)>) -> Map<Seq<char>, V>
    decreases s.len(),
{
    if s.len() == 0 {
        Map::empty()
    } else {
        pairs_to_map(s.drop_last()).insert(s.last().0, s.last().1)
    }
}

/// No key occurs twice in the sequence of pairs.
pub open spec fn keys_distinct<V>(s: Seq<(Seq<char>, V)>) -> bool {
    forall|i: int, j: int| 0 <= i < s.len() && 0 <= j < s.len() && i != j ==> s[i].0 != s[j].0
}

/// With distinct keys, the map holds exactly the keys of the pairs, each with its own value.
pub proof fn lemma_pairs_to_map_lookup<V>(s: Seq<(Seq<char>, V)>)
    requires
        keys_distinct(s),
    ensures
        forall|i: int| 0 <= i < s.len() ==> #[trigger] pairs_to_map(s).contains_key(s[i].0)
            && pairs_to_map(s)[s[i].0] == s[i].1,
        forall|k: Seq<char>| #[trigger] pairs_to_map(s).contains_key(k) ==> exists|i: int|
            0 <= i < s.len() && s[i].0 == k,
    decreases s.len(),
{
    if s.len() > 0 {
        let p = s.drop_last();
        assert(keys_distinct(p));
        lemma_pairs_to_map_lookup(p);
        assert forall|i: int| 0 <= i < s.len() implies #[trigger] pairs_to_map(s).contains_key(
            s[i].0,
        ) && pairs_to_map(s)[s[i].0] == s[i].1 by {
            if i < s.len() - 1 {
                assert(p[i] == s[i]);
                assert(s[s.len() - 1].0 != s[i].0);
                assert(pairs_to_map(p).contains_key(p[i].0));
            }
        }
        assert forall|k: Seq<char>| #[trigger] pairs_to_map(s).contains_key(k) implies exists|
            i: int,
        | 0 <= i < s.len() && s[i].0 == k by {
            if k != s.last().0 {
                assert(pairs_to_map(p).contains_key(k));
                let i = choose|i: int| 0 <= i < p.len() && p[i].0 == k;
                assert(s[i] == p[i]);
            } else {
                assert(s[s.len() - 1].0 == k);
            }
        }
    }
}

/// Replacing the value of a pair leaves the other keys alone and rebinds that key.
pub proof fn lemma_pairs_to_map_update<V>(s: Seq<(Seq<char>, V)>, i: int, v: V)
    requires
        keys_distinct(s),
        0 <= i < s.len(),
    ensures
        pairs_to_map(s.update(i, (s[i].0, v))) == pairs_to_map(s).insert(s[i].0, v),
    decreases s.len(),
{
    let t = s.update(i, (s[i].0, v));
    if i == s.len() - 1 {
        assert(t.drop_last() =~= s.drop_last());
        assert(pairs_to_map(t) =~= pairs_to_map(s).insert(s[i].0, v));
    } else {
        let p = s.drop_last();
        assert(keys_distinct(p));
        lemma_pairs_to_map_update(p, i, v);
        assert(t.drop_last() =~= p.update(i, (p[i].0, v)));
        assert(s.last().0 != s[i].0);
        assert(pairs_to_map(t) =~= pairs_to_map(s).insert(s[i].0, v));
    }
}

/// Removing a pair removes exactly its key from the map.
pub proof fn lemma_pairs_to_map_remove<V>(s: Seq<(Seq<char>, V)>, i: int)
    requires
        keys_distinct(s),
        0 <= i < s.len(),
    ensures
        keys_distinct(s.remove(i)),
        pairs_to_map(s.remove(i)) == pairs_to_map(s).remove(s[i].0),
{
    let t = s.remove(i);
    assert forall|a: int, b: int| 0 <= a < t.len() && 0 <= b < t.len() && a != b implies t[a].0 != t[b].0 by {
        let a2 = if a < i { a } else { a + 1 };
        let b2 = if b < i { b } else { b + 1 };
        assert(t[a] == s[a2]);
        assert(t[b] == s[b2]);
    }
    lemma_pairs_to_map_lookup(t);
    lemma_pairs_to_map_lookup(s);
    let m = pairs_to_map(s).remove(s[i].0);
    assert forall|k: Seq<char>| #[trigger] pairs_to_map(t).contains_key(k) implies m.contains_key(k)
        && pairs_to_map(t)[k] == m[k] by {
        let j = choose|j: int| 0 <= j < t.len() && t[j].0 == k;
        let j2 = if j < i { j } else { j + 1 };
        assert(t[j] == s[j2]);
        assert(pairs_to_map(s).contains_key(s[j2].0));
    }
    assert forall|k: Seq<char>| #[trigger] m.contains_key(k) implies pairs_to_map(t).contains_key(k) by {
        assert(pairs_to_map(s).contains_key(k));
        let j = choose|j: int| 0 <= j < s.len() && s[j].0 == k;
        assert(j != i);
        let j2 = if j < i { j } else { j - 1 };
        assert(t[j2] == s[j]);
        assert(pairs_to_map(t).contains_key(t[j2].0));
    }
    assert(pairs_to_map(t) =~= m);
}

/// An insertion-ordered map from string keys to values, with no key twice.
#[derive(Debug)]
#[verifier::reject_recursive_types(V)]
pub struct StrMap<V: View> {
    entries: Vec<(String, V)>,
}

impl<V: View> StrMap<V> {
    /// The (key, value) pairs in insertion order, by view.
    pub closed spec fn pairs(&self) -> Seq<(Seq<char>, V::V)> {
        self.entries@.map_values(|e: (String, V)| (e.0@, e.1@))
    }

    #[verifier::type_invariant]
    closed spec fn inv(&self) -> bool {
        keys_distinct(self.pairs())
    }

    /// The keys in insertion order.
    pub closed spec fn key_order(&self) -> Seq<Seq<char>> {
        self.pairs().map_values(|p: (Seq<char>, V::V)| p.0)
    }
}

impl<V: View> View for StrMap<V> {
    type V = Map<Seq<char>, V::V>;

    closed spec fn view(&self) -> Map<Seq<char>, V::V> {
        pairs_to_map(self.pairs())
    }
}

impl<V: View> StrMap<V> {
    /// An empty map.
    pub fn new() -> (r: Self)
        ensures
            r@ == Map::<Seq<char>, V::V>::empty(),
            r.key_order() == Seq::<Seq<char>>::empty(),
    {
        let r = StrMap { entries: Vec::new() };
        proof {
            assert(r.pairs() =~= Seq::<(Seq<char>, V::V)>::empty());
            assert(r.key_order() =~= Seq::<Seq<char>>::empty());
        }
        r
    }

    proof fn lemma_view(&self)
        requires
            keys_distinct(self.pairs()),
        ensures
            forall|i: int| 0 <= i < self.entries@.len() ==> #[trigger] self@.contains_key(
                self.entries@[i].0@,
            ) && self@[self.entries@[i].0@] == self.entries@[i].1@,
            forall|k: Seq<char>| #[trigger] self@.contains_key(k) ==> exists|i: int|
                0 <= i < self.entries@.len() && self.entries@[i].0@ == k,
            self.key_order().len() == self.entries@.len(),
            forall|i: int| 0 <= i < self.entries@.len() ==> #[trigger] self.key_order()[i]
                == self.entries@[i].0@,
    {
        lemma_pairs_to_map_lookup(self.pairs());
        assert forall|i: int| 0 <= i < self.entries@.len() implies #[trigger] self@.contains_key(
            self.entries@[i].0@,
        ) && self@[self.entries@[i].0@] == self.entries@[i].1@ by {
            assert(self.pairs()[i] == (self.entries@[i].0@, self.entries@[i].1@));
        }
        assert forall|k: Seq<char>| #[trigger] self@.contains_key(k) implies exists|i: int|
            0 <= i < self.entries@.len() && self.entries@[i].0@ == k by {
            let i = choose|i: int| 0 <= i < self.pairs().len() && self.pairs()[i].0 == k;
            assert(self.pairs()[i] == (self.entries@[i].0@, self.entries@[i].1@));
        }
    }

    /// The position of a key, if present.
    fn find(&self, key: &str) -> (r: Option<usize>)
        ensures
            match r {
                Some(i) => i < self.entries@.len() && self.entries@[i as int].0@ == key@,
                None => forall|j: int|
                    0 <= j < self.entries@.len() ==> self.entries@[j].0@ != key@,
            },
    {
        let k = key.to_owned();
        let mut i: usize = 0;
        while i < self.entries.len()
            invariant
                i <= self.entries@.len(),
                k@ == key@,
                forall|j: int| 0 <= j < i ==> self.entries@[j].0@ != key@,
            decreases self.entries@.len() - i,
        {
            if self.entries[i].0 == k {
                return Some(i);
            }
            i = i + 1;
        }
        None
    }

    /// Number of keys.
    pub fn len(&self) -> (r: usize)
        ensures
            r == self@.len(),
            r == self.key_order().len(),
    {
        proof {
            use_type_invariant(self);
            self.lemma_view();
            self.lemma_len();
        }
        self.entries.len()
    }

    proof fn lemma_len(&self)
        requires
            keys_distinct(self.pairs()),
        ensures
            self@.len() == self.entries@.len(),
            self@.dom().finite(),
    {
        self.lemma_view();
        let d = self@.dom();
        let ks = self.key_order();
        assert(ks.no_duplicates()) by {
            assert forall|i: int, j: int| 0 <= i < ks.len() && 0 <= j < ks.len() && i != j implies ks[i] != ks[j] by {
                assert(self.pairs()[i].0 == ks[i]);
                assert(self.pairs()[j].0 == ks[j]);
            }
        }
        assert(d =~= ks.to_set()) by {
            assert forall|k: Seq<char>| d.contains(k) <==> ks.to_set().contains(k) by {
                if d.contains(k) {
                    let i = choose|i: int| 0 <= i < self.entries@.len() && self.entries@[i].0@ == k;
                    assert(ks[i] == k);
                }
                if ks.to_set().contains(k) {
                    let i = choose|i: int| 0 <= i < ks.len() && ks[i] == k;
                    assert(self@.contains_key(self.entries@[i].0@));
                }
            }
        }
        ks.unique_seq_to_set();
    }

    /// Whether the map has no keys.
    pub fn is_empty(&self) -> (r: bool)
        ensures
            r == (self@.len() == 0),
    {
        proof {
            use_type_invariant(self);
            self.lemma_len();
        }
        self.entries.len() == 0
    }

    /// The value of a key.
    pub fn get(&self, key: &str) -> (r: Option<&V>)
        ensures
            match r {
                Some(v) => self@.contains_key(key@) && v@ == self@[key@],
                None => !self@.contains_key(key@),
            },
    {
        proof {
            use_type_invariant(self);
            self.lemma_view();
        }
        match self.find(key) {
            Some(i) => {
                proof {
                    assert(self@.contains_key(self.entries@[i as int].0@));
                }
                Some(&self.entries[i].1)
            },
            None => None,
        }
    }

    /// Whether the key is present.
    pub fn contains_key(&self, key: &str) -> (r: bool)
        ensures
            r == self@.contains_key(key@),
    {
        proof {
            use_type_invariant(self);
            self.lemma_view();
        }
        self.find(key).is_some()
    }

    /// Binds the key to the value, replacing any earlier value; a new key goes last.
    pub fn insert(&mut self, key: String, value: V)
        ensures
            final(self)@ == old(self)@.insert(key@, value@),
            old(self)@.contains_key(key@) ==> final(self).key_order() == old(self).key_order(),
            !old(self)@.contains_key(key@) ==> final(self).key_order() == old(self).key_order().push(key@),
    {
        proof {
            use_type_invariant(&*self);
            self.lemma_view();
        }
        let ghost old_pairs = self.pairs();
        let ghost old_keys = self.key_order();
        match self.find(key.as_str()) {
            Some(i) => {
                let ghost kv = self.entries@[i as int].0@;
                let mut entries: Vec<(String, V)> = Vec::new();
                std::mem::swap(&mut entries, &mut self.entries);
                let ghost e0 = entries@;
                entries.set(i, (key, value));
                proof {
                    let np = entries@.map_values(|e: (String, V)| (e.0@, e.1@));
                    assert(np =~= old_pairs.update(i as int, (old_pairs[i as int].0, value@)));
                    lemma_pairs_to_map_update(old_pairs, i as int, value@);
                    assert(keys_distinct(np));
                }
                self.entries = entries;
                proof {
                    assert(self.key_order() =~= old_keys);
                }
            },
            None => {
                let mut entries: Vec<(String, V)> = Vec::new();
                std::mem::swap(&mut entries, &mut self.entries);
                entries.push((key, value));
                proof {
                    let np = entries@.map_values(|e: (String, V)| (e.0@, e.1@));
                    assert(np.drop_last() =~= old_pairs);
                    assert(keys_distinct(np)) by {
                        assert forall|a: int, b: int| 0 <= a < np.len() && 0 <= b < np.len() && a != b implies np[a].0 != np[b].0 by {
                            if a < np.len() - 1 && b < np.len() - 1 {
                                assert(np[a] == old_pairs[a]);
                                assert(np[b] == old_pairs[b]);
                            } else if a < np.len() - 1 {
                                assert(np[a] == old_pairs[a]);
                            } else {
                                assert(np[b] == old_pairs[b]);
                            }
                        }
                    }
                }
                self.entries = entries;
                proof {
                    assert(self.key_order() =~= old_keys.push(key@));
                }
            },
        }
    }

    /// The key at a position of the insertion order.
    pub fn key_at(&self, i: usize) -> (r: &String)
        requires
            i < self.key_order().len(),
        ensures
            r@ == self.key_order()[i as int],
            self@.contains_key(r@),
    {
        proof {
            use_type_invariant(self);
            self.lemma_view();
        }
        &self.entries[i].0
    }

    /// The value at a position of the insertion order.
    pub fn value_at(&self, i: usize) -> (r: &V)
        requires
            i < self.key_order().len(),
        ensures
            r@ == self@[self.key_order()[i as int]],
    {
        proof {
            use_type_invariant(self);
            self.lemma_view();
            assert(self.key_order()[i as int] == self.entries@[i as int].0@);
            assert(self@.contains_key(self.entries@[i as int].0@));
        }
        &self.entries[i].1
    }
}

impl<V: View> StrMap<V> {
    /// Removes a key, keeping the order of the others; gives back its value.
    pub fn remove(&mut self, key: &str) -> (r: Option<V>)
        ensures
            final(self)@ == old(self)@.remove(key@),
            match r {
                Some(v) => old(self)@.contains_key(key@) && v@ == old(self)@[key@],
                None => !old(self)@.contains_key(key@),
            },
    {
        proof {
            use_type_invariant(&*self);
            self.lemma_view();
        }
        let ghost old_pairs = self.pairs();
        match self.find(key) {
            Some(i) => {
                proof {
                    assert(self@.contains_key(self.entries@[i as int].0@));
                }
                let mut entries: Vec<(String, V)> = Vec::new();
                std::mem::swap(&mut entries, &mut self.entries);
                let e = entries.remove(i);
                proof {
                    assert(old_pairs[i as int].0 == key@);
                    lemma_pairs_to_map_remove(old_pairs, i as int);
                    assert(entries@.map_values(|e: (String, V)| (e.0@, e.1@)) =~= old_pairs.remove(i as int));
                }
                self.entries = entries;
                Some(e.1)
            },
            None => {
                proof {
                    assert(!self@.contains_key(key@)) by {
                        if self@.contains_key(key@) {
                            let j = choose|j: int| 0 <= j < self.entries@.len() && self.entries@[j].0@ == key@;
                        }
                    }
                    assert(self@.remove(key@) =~= self@);
                }
                None
            },
        }
    }
}

impl<V: Duplicate> StrMap<V> {
    /// A copy with the same keys, order and values.
    pub fn duplicate(&self) -> (r: Self)
        ensures
            r@ == self@,
            r.key_order() == self.key_order(),
    {
        proof {
            use_type_invariant(self);
        }
        let mut out: Vec<(String, V)> = Vec::new();
        let mut i: usize = 0;
        while i < self.entries.len()
            invariant
                i <= self.entries@.len(),
                out@.len() == i,
                forall|j: int| 0 <= j < i ==> #[trigger] out@[j].0@ == self.entries@[j].0@
                    && out@[j].1@ == self.entries@[j].1@,
            decreases self.entries@.len() - i,
        {
            let k = self.entries[i].0.clone();
            let v = self.entries[i].1.duplicate();
            out.push((k, v));
            i = i + 1;
        }
        proof {
            let np = out@.map_values(|e: (String, V)| (e.0@, e.1@));
            assert(np =~= self.pairs());
        }
        let r = StrMap { entries: out };
        proof {
            assert(r.key_order() =~= self.key_order());
        }
        r
    }

    /// Binds every key of `other` to its value there, as a union that prefers `other`.
    pub fn extend_from(&mut self, other: &StrMap<V>)
        ensures
            final(self)@ == old(self)@.union_prefer_right(other@),
    {
        proof {
            use_type_invariant(other);
            other.lemma_view();
        }
        let n = other.entries.len();
        let mut i: usize = 0;
        while i < n
            invariant
                n == other.entries@.len(),
                i <= n,
                self@ == old(self)@.union_prefer_right(pairs_to_map(other.pairs().take(i as int))),
            decreases n - i,
        {
            let k = other.entries[i].0.clone();
            let v = other.entries[i].1.duplicate();
            self.insert(k, v);
            proof {
                assert(other.pairs().take(i + 1).drop_last() =~= other.pairs().take(i as int));
                assert(other.pairs()[i as int] == (other.entries@[i as int].0@, other.entries@[i as int].1@));
                assert(self@ =~= old(self)@.union_prefer_right(pairs_to_map(other.pairs().take(i + 1))));
            }
            i = i + 1;
        }
        proof {
            assert(other.pairs().take(n as int) =~= other.pairs());
        }
    }
}

impl<V: Duplicate> Clone for StrMap<V> {
    fn clone(&self) -> (r: Self)
        ensures
            r@ == self@,
    {
        self.duplicate()
    }
}

/// A read gives back what a write wrote, and a write leaves every other key as it was
/// (`insert` then `get`, over the views their contracts speak of).
pub proof fn law_read_after_write<V>(m: Map<Seq<char>, V>, k: Seq<char>, v: V, other: Seq<char>)
    ensures
        m.insert(k, v).contains_key(k),
        m.insert(k, v)[k] == v,
        other != k ==> m.insert(k, v).contains_key(other) == m.contains_key(other),
        other != k && m.contains_key(other) ==> m.insert(k, v)[other] == m[other],
{
}

/// Removing a key that a write added to a map without it gives back the map (`insert` then
/// `remove`).
pub proof fn law_remove_undoes_insert<V>(m: Map<Seq<char>, V>, k: Seq<char>, v: V)
    requires
        !m.contains_key(k),
    ensures
        m.insert(k, v).remove(k) == m,
{
    assert(m.insert(k, v).remove(k) =~= m);
}

} // verus!
