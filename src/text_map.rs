use vstd::prelude::*;

verus! {

/// What a lookup of `k` in `m` gives: the value under `k`, or nothing.
pub open spec fn lookup(m: Map<Seq<char>, Seq<char>>, k: Seq<char>) -> Option<Seq<char>> {
    if m.contains_key(k) {
        Some(m[k])
    } else {
        None
    }
}

/// A lookup finds nothing exactly where the key has no value, and once `k`
/// has been set to `v`, a lookup of `k` finds `v`.
pub proof fn lookup_after_insert(m: Map<Seq<char>, Seq<char>>, k: Seq<char>, v: Seq<char>)
    ensures
        lookup(m, k) is None <==> !m.contains_key(k),
        lookup(m.insert(k, v), k) == Some(v),
{
}

/// The text held by an optional string.
pub open spec fn text_of(r: Option<String>) -> Option<Seq<char>> {
    match r {
        Some(s) => Some(s@),
        None => None,
    }
}

/// A mapping from text keys to text values, with exact key comparison.
/// Entries are kept in a vector with no key twice, and a lookup scans
/// them; their order carries no meaning.
pub struct TextMap {
    entries: Vec<(String, String)>,
    contents: Ghost<Map<Seq<char>, Seq<char>>>,
}

impl View for TextMap {
    type V = Map<Seq<char>, Seq<char>>;

    closed spec fn view(&self) -> Map<Seq<char>, Seq<char>> {
        self.contents@
    }
}

/// `entries` lists `m` exactly: no key twice, each entry's key maps to its
/// value, and each key of `m` stands in some entry.
spec fn lists(entries: Seq<(String, String)>, m: Map<Seq<char>, Seq<char>>) -> bool {
    &&& forall|i: int, j: int|
        0 <= i < j < entries.len() ==> #[trigger] entries[i].0@ != #[trigger] entries[j].0@
    &&& forall|i: int|
        0 <= i < entries.len() ==> {
            &&& m.contains_key(#[trigger] entries[i].0@)
            &&& m[entries[i].0@] == entries[i].1@
        }
    &&& forall|k: Seq<char>|
        #[trigger] m.contains_key(k) ==> exists|i: int|
            0 <= i < entries.len() && #[trigger] entries[i].0@ == k
    &&& m.dom().finite()
    &&& m.len() == entries.len()
}

impl TextMap {
    #[verifier::type_invariant]
    spec fn well_formed(self) -> bool {
        lists(self.entries@, self.contents@)
    }

    /// An empty mapping.
    pub fn new() -> (r: TextMap)
        ensures
            r@ == Map::<Seq<char>, Seq<char>>::empty(),
    {
        TextMap { entries: Vec::new(), contents: Ghost(Map::empty()) }
    }

    /// The position of the entry whose key is `key`, if there is one.
    fn find(&self, key: &String) -> (r: Option<usize>)
        ensures
            match r {
                Some(i) => i < self.entries@.len() && self.entries@[i as int].0@ == key@,
                None => forall|i: int|
                    0 <= i < self.entries@.len() ==> #[trigger] self.entries@[i].0@ != key@,
            },
            r is None <==> !self@.contains_key(key@),
    {
        proof {
            use_type_invariant(self);
        }
        let mut i: usize = 0;
        while i < self.entries.len()
            invariant
                i <= self.entries@.len(),
                forall|j: int| 0 <= j < i ==> #[trigger] self.entries@[j].0@ != key@,
            decreases self.entries@.len() - i,
        {
            if self.entries[i].0 == *key {
                proof {
                    use_type_invariant(self);
                    assert(self@.contains_key(self.entries@[i as int].0@));
                }
                return Some(i);
            }
            i = i + 1;
        }
        None
    }

    /// Whether `key` has a value.
    pub fn contains_key(&self, key: &str) -> (r: bool)
        ensures
            r == self@.contains_key(key@),
    {
        let k = key.to_owned();
        self.find(&k).is_some()
    }

    /// An owned copy of the value under `key`, or `None` where there is none.
    pub fn get(&self, key: &str) -> (r: Option<String>)
        ensures
            text_of(r) == lookup(self@, key@),
    {
        proof {
            use_type_invariant(self);
        }
        let k = key.to_owned();
        match self.find(&k) {
            Some(i) => Some(self.entries[i].1.clone()),
            None => None,
        }
    }

    /// Moves the whole mapping out, leaving an empty one behind.
    fn take(&mut self) -> (r: TextMap)
        ensures
            r == *old(self),
            final(self)@ == Map::<Seq<char>, Seq<char>>::empty(),
    {
        let mut other = TextMap::new();
        std::mem::swap(self, &mut other);
        other
    }

    /// Sets the value under `key` to `value`, and hands back the value that
    /// was there before, if any.
    pub fn insert(&mut self, key: String, value: String) -> (r: Option<String>)
        ensures
            final(self)@ == old(self)@.insert(key@, value@),
            text_of(r) == lookup(old(self)@, key@),
    {
        let ghost k = key@;
        let ghost v = value@;
        let found = self.find(&key);
        let taken = self.take();
        proof {
            use_type_invariant(&taken);
        }
        let ghost m = taken.contents@;
        let TextMap { mut entries, contents: _ } = taken;
        let ghost before = entries@;
        let prev = match found {
            Some(i) => {
                let prev = entries[i].1.clone();
                entries[i] = (key, value);
                proof {
                    assert(m.insert(k, v).dom() =~= m.dom());
                    assert forall|j: int| 0 <= j < entries@.len() && j != i implies
                        #[trigger] entries@[j] == before[j] && before[j].0@ != k by {
                        assert(before[j].0@ != before[i as int].0@);
                    }
                    assert forall|q: Seq<char>| #[trigger] m.insert(k, v).contains_key(q) implies
                        exists|j: int| 0 <= j < entries@.len() && #[trigger] entries@[j].0@ == q by {
                        if q == k {
                            assert(entries@[i as int].0@ == q);
                        } else {
                            assert(m.contains_key(q));
                            let j = choose|j: int| 0 <= j < before.len() && #[trigger] before[j].0@ == q;
                            assert(entries@[j].0@ == q);
                        }
                    }
                }
                Some(prev)
            },
            None => {
                entries.push((key, value));
                proof {
                    let n = before.len() as int;
                    assert forall|j: int| 0 <= j < n implies #[trigger] entries@[j] == before[j] && before[j].0@ != k by {}
                    assert(entries@[n].0@ == k);
                    assert(!m.contains_key(k));
                    assert(m.insert(k, v).dom() =~= m.dom().insert(k));
                    assert forall|q: Seq<char>| #[trigger] m.insert(k, v).contains_key(q) implies
                        exists|j: int| 0 <= j < entries@.len() && #[trigger] entries@[j].0@ == q by {
                        if q != k {
                            assert(m.contains_key(q));
                            let j = choose|j: int| 0 <= j < before.len() && #[trigger] before[j].0@ == q;
                            assert(entries@[j].0@ == q);
                        }
                    }
                }
                None
            },
        };
        assert(lists(entries@, m.insert(k, v)));
        *self = TextMap { entries, contents: Ghost(m.insert(k, v)) };
        prev
    }

    /// Takes the value under `key` out of the mapping, and hands it back if
    /// there was one.
    pub fn remove(&mut self, key: &str) -> (r: Option<String>)
        ensures
            final(self)@ == old(self)@.remove(key@),
            text_of(r) == lookup(old(self)@, key@),
    {
        let k = key.to_owned();
        match self.find(&k) {
            Some(i) => {
                let taken = self.take();
                proof {
                    use_type_invariant(&taken);
                }
                let ghost m = taken.contents@;
                let TextMap { mut entries, contents: _ } = taken;
                let ghost before = entries@;
                let (_, value) = entries.remove(i);
                proof {
                    assert forall|j: int| 0 <= j < entries@.len() implies
                        #[trigger] entries@[j] == (if j < i { before[j] } else { before[j + 1] }) by {}
                    assert forall|j: int| 0 <= j < entries@.len() implies
                        #[trigger] entries@[j].0@ != k@ by {
                        if j < i {
                            assert(before[j].0@ != before[i as int].0@);
                        } else {
                            assert(before[i as int].0@ != before[j + 1].0@);
                        }
                    }
                    assert forall|a: int, b: int| 0 <= a < b < entries@.len() implies
                        #[trigger] entries@[a].0@ != #[trigger] entries@[b].0@ by {
                        let a2 = if a < i { a } else { a + 1 };
                        let b2 = if b < i { b } else { b + 1 };
                        assert(before[a2].0@ != before[b2].0@);
                    }
                    assert forall|q: Seq<char>| #[trigger] m.remove(k@).contains_key(q) implies
                        exists|j: int| 0 <= j < entries@.len() && #[trigger] entries@[j].0@ == q by {
                        assert(m.contains_key(q));
                        let j = choose|j: int| 0 <= j < before.len() && #[trigger] before[j].0@ == q;
                        assert(j != i);
                        if j < i {
                            assert(entries@[j].0@ == q);
                        } else {
                            assert(entries@[j - 1].0@ == q);
                        }
                    }
                    assert(m.remove(k@).dom() =~= m.dom().remove(k@));
                }
                assert(lists(entries@, m.remove(k@)));
                *self = TextMap { entries, contents: Ghost(m.remove(k@)) };
                Some(value)
            },
            None => {
                proof {
                    assert(self@.remove(k@) =~= self@);
                }
                None
            },
        }
    }

    /// The number of keys.
    pub fn len(&self) -> (r: usize)
        ensures
            r == self@.len(),
    {
        proof {
            use_type_invariant(self);
        }
        self.entries.len()
    }

    /// Whether no key has a value.
    pub fn is_empty(&self) -> (r: bool)
        ensures
            r == (self@ == Map::<Seq<char>, Seq<char>>::empty()),
    {
        proof {
            use_type_invariant(self);
            if self.entries@.len() > 0 {
                assert(self@.contains_key(self.entries@[0].0@));
            } else {
                assert(self@ =~= Map::<Seq<char>, Seq<char>>::empty());
            }
        }
        self.entries.len() == 0
    }
}

} // verus!
