use vstd::prelude::*;

verus! {

/// What a store holds: a finite map from key text to value text.
pub type StoreMap = Map<Seq<char>, Seq<char>>;

/// The value stored under `k`, if any.
pub open spec fn lookup(m: StoreMap, k: Seq<char>) -> Option<Seq<char>> {
    if m.contains_key(k) {
        Some(m[k])
    } else {
        None
    }
}

/// `r` lists each key of `m` exactly once, in no particular order.
pub open spec fn lists_keys(r: Seq<String>, m: StoreMap) -> bool {
    &&& forall|i: int| 0 <= i < r.len() ==> #[trigger] m.contains_key(r[i]@)
    &&& forall|k: Seq<char>| #[trigger] m.contains_key(k) ==> exists|i: int| 0 <= i < r.len() && r[i]@ == k
    &&& forall|i: int, j: int| 0 <= i < j < r.len() ==> r[i]@ != r[j]@
}

/// The key-value map shared by every connection.
///
/// Entries are kept in a vector with pairwise distinct keys; the ghost map
/// mirrors them and is what the contracts speak of.
#[derive(Clone)]
pub struct KVStore {
    entries: Vec<(String, String)>,
    contents: Ghost<StoreMap>,
}

impl View for KVStore {
    type V = StoreMap;

    closed spec fn view(&self) -> StoreMap {
        self.contents@
    }
}

impl KVStore {
    /// The key of the `i`-th entry.
    closed spec fn key_at(&self, i: int) -> Seq<char> {
        self.entries@[i].0@
    }

    /// Entries have distinct keys and agree exactly with the ghost map.
    pub closed spec fn wf(&self) -> bool {
        &&& forall|i: int, j: int|
            0 <= i < j < self.entries@.len() ==> self.key_at(i) != self.key_at(j)
        &&& forall|i: int|
            0 <= i < self.entries@.len() ==> #[trigger] self.contents@.contains_key(self.key_at(i))
                && self.contents@[self.key_at(i)] == self.entries@[i].1@
        &&& forall|k: Seq<char>|
            #[trigger] self.contents@.contains_key(k) ==> exists|i: int|
                0 <= i < self.entries@.len() && self.key_at(i) == k
    }

    /// Position of the entry whose key is `key`, if there is one.
    fn find(&self, key: &str) -> (r: Option<usize>)
        requires
            self.wf(),
        ensures
            match r {
                Some(i) => i < self.entries@.len() && self.key_at(i as int) == key@,
                None => !self@.contains_key(key@),
            },
    {
        let wanted = String::from_str(key);
        let mut i: usize = 0;
        while i < self.entries.len()
            invariant
                self.wf(),
                wanted@ == key@,
                i <= self.entries@.len(),
                forall|j: int| 0 <= j < i ==> self.key_at(j) != key@,
            decreases self.entries@.len() - i,
        {
            if self.entries[i].0 == wanted {
                return Some(i);
            }
            i = i + 1;
        }
        None
    }

    /// Creates a new, empty store.
    pub fn new() -> (r: Self)
        ensures
            r.wf(),
            r@ == StoreMap::empty(),
    {
        KVStore { entries: Vec::new(), contents: Ghost(StoreMap::empty()) }
    }

    /// Replaces the entry at `i`, whose key is `key`, with `key` and `value`.
    fn overwrite_at(&mut self, i: usize, key: String, value: String)
        requires
            old(self).wf(),
            i < old(self).entries@.len(),
            old(self).key_at(i as int) == key@,
        ensures
            final(self).wf(),
            final(self)@ == old(self)@.insert(key@, value@),
    {
        let ghost k = key@;
        let ghost v = value@;
        let ghost before = self.entries@;
        self.entries.set(i, (key, value));
        self.contents = Ghost(self.contents@.insert(k, v));
        assert forall|j: int| 0 <= j < self.entries@.len() && j != i implies
            self.key_at(j) == old(self).key_at(j) && self.key_at(j) != k by {
            assert(old(self).key_at(i as int) == k);
            assert(old(self).contents@.contains_key(old(self).key_at(j)));
        }
        assert(self.key_at(i as int) == k);
        assert forall|a: int, b: int| 0 <= a < b < self.entries@.len() implies
            self.key_at(a) != self.key_at(b) by {
            assert(old(self).contents@.contains_key(old(self).key_at(a)));
        }
        assert forall|a: int| 0 <= a < self.entries@.len() implies
            #[trigger] self.contents@.contains_key(self.key_at(a))
                && self.contents@[self.key_at(a)] == self.entries@[a].1@ by {
            if a != i {
                assert(old(self).contents@.contains_key(old(self).key_at(a)));
            }
        }
        assert forall|q: Seq<char>| #[trigger] self.contents@.contains_key(q) implies
            exists|j: int| 0 <= j < self.entries@.len() && self.key_at(j) == q by {
            if q == k {
                assert(self.key_at(i as int) == q);
            } else {
                let j = choose|j: int| 0 <= j < before.len() && before[j].0@ == q;
                assert(self.key_at(j) == q);
            }
        }
    }

    /// Adds an entry for `key`, which the store does not hold yet.
    fn append_new(&mut self, key: String, value: String)
        requires
            old(self).wf(),
            !old(self)@.contains_key(key@),
        ensures
            final(self).wf(),
            final(self)@ == old(self)@.insert(key@, value@),
    {
        let ghost k = key@;
        let ghost v = value@;
        let ghost before = self.entries@;
        self.entries.push((key, value));
        self.contents = Ghost(self.contents@.insert(k, v));
        let ghost n = before.len() as int;
        assert(self.key_at(n) == k);
        assert forall|a: int, b: int| 0 <= a < b < self.entries@.len() implies
            self.key_at(a) != self.key_at(b) by {
            assert(self.key_at(a) == old(self).key_at(a));
            assert(old(self).contents@.contains_key(old(self).key_at(a)));
            if b < n {
                assert(self.key_at(b) == old(self).key_at(b));
            }
        }
        assert forall|a: int| 0 <= a < self.entries@.len() implies
            #[trigger] self.contents@.contains_key(self.key_at(a))
                && self.contents@[self.key_at(a)] == self.entries@[a].1@ by {
            if a < n {
                assert(old(self).contents@.contains_key(old(self).key_at(a)));
            }
        }
        assert forall|q: Seq<char>| #[trigger] self.contents@.contains_key(q) implies
            exists|j: int| 0 <= j < self.entries@.len() && self.key_at(j) == q by {
            if q == k {
                assert(self.key_at(n) == q);
            } else {
                let j = choose|j: int| 0 <= j < before.len() && before[j].0@ == q;
                assert(self.key_at(j) == q);
            }
        }
    }

    /// Inserts `key` with `value`, replacing any value it had.
    pub fn set(&mut self, key: String, value: String)
        requires
            old(self).wf(),
        ensures
            final(self).wf(),
            final(self)@ == old(self)@.insert(key@, value@),
    {
        match self.find(key.as_str()) {
            Some(i) => self.overwrite_at(i, key, value),
            None => self.append_new(key, value),
        }
    }

    /// The value stored under `key`, if any.
    pub fn get(&self, key: &str) -> (r: Option<String>)
        requires
            self.wf(),
        ensures
            match r {
                Some(v) => lookup(self@, key@) == Some(v@),
                None => lookup(self@, key@) is None,
            },
    {
        match self.find(key) {
            Some(i) => Some(self.entries[i].1.clone()),
            None => None,
        }
    }

    /// Removes the entry for `key`; tells whether there was one.
    pub fn delete(&mut self, key: &str) -> (r: bool)
        requires
            old(self).wf(),
        ensures
            final(self).wf(),
            r == old(self)@.contains_key(key@),
            final(self)@ == old(self)@.remove(key@),
    {
        match self.find(key) {
            Some(i) => {
                let ghost k = key@;
                let ghost n = self.entries@.len() as int;
                self.entries.remove(i);
                self.contents = Ghost(self.contents@.remove(k));
                assert forall|j: int| 0 <= j < n - 1 implies #[trigger] self.key_at(j)
                    == old(self).key_at(if j < i { j } else { j + 1 }) by {}
                assert forall|j: int| 0 <= j < n && j != i implies
                    old(self).key_at(j) != k by {
                    assert(old(self).key_at(i as int) == k);
                    assert(old(self).contents@.contains_key(old(self).key_at(j)));
                }
                assert forall|a: int, b: int| 0 <= a < b < self.entries@.len() implies
                    self.key_at(a) != self.key_at(b) by {
                    let oa = if a < i { a } else { a + 1 };
                    let ob = if b < i { b } else { b + 1 };
                    assert(self.key_at(a) == old(self).key_at(oa));
                    assert(self.key_at(b) == old(self).key_at(ob));
                    assert(old(self).contents@.contains_key(old(self).key_at(oa)));
                }
                assert forall|a: int| 0 <= a < self.entries@.len() implies
                    #[trigger] self.contents@.contains_key(self.key_at(a))
                        && self.contents@[self.key_at(a)] == self.entries@[a].1@ by {
                    let oa = if a < i { a } else { a + 1 };
                    assert(self.key_at(a) == old(self).key_at(oa));
                    assert(old(self).contents@.contains_key(old(self).key_at(oa)));
                }
                assert forall|q: Seq<char>| #[trigger] self.contents@.contains_key(q) implies
                    exists|j: int| 0 <= j < self.entries@.len() && self.key_at(j) == q by {
                    assert(old(self).contents@.contains_key(q));
                    let j = choose|j: int| 0 <= j < n && old(self).key_at(j) == q;
                    let nj = if j < i { j } else { j - 1 };
                    assert(self.key_at(nj) == q);
                }
                true
            },
            None => {
                assert(self.contents@.remove(key@) =~= self.contents@);
                false
            },
        }
    }

    /// Replaces the value of `key` if the store holds it, and returns the
    /// value it replaced; leaves the store as it was otherwise.
    pub fn update(&mut self, key: String, value: String) -> (r: Option<String>)
        requires
            old(self).wf(),
        ensures
            final(self).wf(),
            match r {
                Some(prev) => lookup(old(self)@, key@) == Some(prev@)
                    && final(self)@ == old(self)@.insert(key@, value@),
                None => lookup(old(self)@, key@) is None && final(self)@ == old(self)@,
            },
    {
        match self.find(key.as_str()) {
            Some(i) => {
                let prev = self.entries[i].1.clone();
                assert(self.contents@.contains_key(self.key_at(i as int)));
                self.overwrite_at(i, key, value);
                Some(prev)
            },
            None => None,
        }
    }

    /// Every key the store holds, each once, in no particular order.
    pub fn keys(&self) -> (r: Vec<String>)
        requires
            self.wf(),
        ensures
            lists_keys(r@, self@),
    {
        let mut r: Vec<String> = Vec::new();
        let mut i: usize = 0;
        while i < self.entries.len()
            invariant
                self.wf(),
                i <= self.entries@.len(),
                r@.len() == i,
                forall|j: int| 0 <= j < i ==> #[trigger] r@[j]@ == self.key_at(j),
            decreases self.entries@.len() - i,
        {
            r.push(self.entries[i].0.clone());
            i = i + 1;
        }
        assert forall|j: int| 0 <= j < r@.len() implies #[trigger] self@.contains_key(r@[j]@) by {
            assert(self.contents@.contains_key(self.key_at(j)));
        }
        assert forall|k: Seq<char>| #[trigger] self@.contains_key(k) implies
            exists|j: int| 0 <= j < r@.len() && r@[j]@ == k by {
            let j = choose|j: int| 0 <= j < self.entries@.len() && self.key_at(j) == k;
            assert(r@[j]@ == k);
        }
        assert forall|a: int, b: int| 0 <= a < b < r@.len() implies r@[a]@ != r@[b]@ by {
            assert(r@[a]@ == self.key_at(a));
            assert(r@[b]@ == self.key_at(b));
        }
        r
    }

    /// Removes every entry.
    pub fn clear(&mut self)
        requires
            old(self).wf(),
        ensures
            final(self).wf(),
            final(self)@ == StoreMap::empty(),
    {
        self.entries.clear();
        self.contents = Ghost(StoreMap::empty());
    }
}

} // verus!
