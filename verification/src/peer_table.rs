//! A small map from text keys to text values (share codes to peer ids and
//! the like), kept as a list of entries with distinct keys.

use vstd::prelude::*;

verus! {

/// A map from text keys to text values.
pub struct PeerTable {
    entries: Vec<(String, String)>,
}

/// The keys of a list of entries are distinct.
pub open spec fn distinct_keys(e: Seq<(String, String)>) -> bool {
    forall|i: int, j: int| 0 <= i < e.len() && 0 <= j < e.len() && i != j ==> (#[trigger] e[i]).0@ != (#[trigger] e[j]).0@
}

/// Whether some entry has key `k`.
pub open spec fn has_key(e: Seq<(String, String)>, k: Seq<char>) -> bool {
    exists|i: int| 0 <= i < e.len() && (#[trigger] e[i]).0@ == k
}

/// The value of the entry with key `k`.
pub open spec fn value_of(e: Seq<(String, String)>, k: Seq<char>) -> Seq<char> {
    e[choose|i: int| 0 <= i < e.len() && (#[trigger] e[i]).0@ == k].1@
}

/// The map a list of entries stands for.
pub open spec fn map_of(e: Seq<(String, String)>) -> Map<Seq<char>, Seq<char>> {
    Map::new(|k: Seq<char>| has_key(e, k), |k: Seq<char>| value_of(e, k))
}

/// With distinct keys, the entry at `i` gives the value of its key.
proof fn lemma_value_at(e: Seq<(String, String)>, i: int)
    requires
        distinct_keys(e),
        0 <= i < e.len(),
    ensures
        has_key(e, e[i].0@),
        value_of(e, e[i].0@) == e[i].1@,
        map_of(e).dom().contains(e[i].0@),
        map_of(e)[e[i].0@] == e[i].1@,
{
    let k = e[i].0@;
    assert(has_key(e, k));
    let c = choose|j: int| 0 <= j < e.len() && (#[trigger] e[j]).0@ == k;
    assert(c == i);
}

impl View for PeerTable {
    type V = Map<Seq<char>, Seq<char>>;

    closed spec fn view(&self) -> Map<Seq<char>, Seq<char>> {
        map_of(self.entries@)
    }
}

impl PeerTable {
    #[verifier::type_invariant]
    spec fn inv(self) -> bool {
        distinct_keys(self.entries@)
    }

    /// An empty table.
    pub fn new() -> (r: Self)
        ensures
            r@ == Map::<Seq<char>, Seq<char>>::empty(),
    {
        let r = PeerTable { entries: Vec::new() };
        assert(map_of(r.entries@) =~= Map::<Seq<char>, Seq<char>>::empty());
        r
    }

    /// Index of the entry with key `k`.
    fn index_of(&self, k: &str) -> (r: Option<usize>)
        ensures
            r matches Some(i) ==> i < self.entries@.len() && self.entries@[i as int].0@ == k@,
            r is None ==> !has_key(self.entries@, k@),
    {
        let key = k.to_string();
        let mut i: usize = 0;
        while i < self.entries.len()
            invariant
                0 <= i <= self.entries.len(),
                key@ == k@,
                forall|j: int| 0 <= j < i ==> (#[trigger] self.entries@[j]).0@ != k@,
            decreases self.entries.len() - i,
        {
            if self.entries[i].0 == key {
                return Some(i);
            }
            i = i + 1;
        }
        None
    }

    /// The value of key `k`, if any.
    pub fn get(&self, k: &str) -> (r: Option<String>)
        ensures
            r is Some <==> self@.dom().contains(k@),
            r matches Some(v) ==> v@ == self@[k@],
    {
        proof { use_type_invariant(self); }
        match self.index_of(k) {
            Some(i) => {
                proof { lemma_value_at(self.entries@, i as int); }
                Some(self.entries[i].1.clone())
            },
            None => None,
        }
    }

    /// Sets the value of key `k`.
    pub fn insert(&mut self, k: String, v: String)
        ensures
            final(self)@ == old(self)@.insert(k@, v@),
    {
        proof { use_type_invariant(&*self); }
        let ghost old_e = self.entries@;
        let found = self.index_of(k.as_str());
        let mut entries: Vec<(String, String)> = Vec::new();
        std::mem::swap(&mut entries, &mut self.entries);
        proof { assert(entries@ == old_e); }
        match found {
            Some(i) => {
                entries.set(i, (k, v));
            },
            None => {
                entries.push((k, v));
            },
        }
        let ghost e = entries@;
        assert(distinct_keys(e)) by {
            assert forall|a: int, b: int| 0 <= a < e.len() && 0 <= b < e.len() && a != b implies (#[trigger] e[a]).0@ != (#[trigger] e[b]).0@ by {
                if found is None {
                    if a == old_e.len() as int {
                        assert(old_e[b] == e[b]);
                    } else if b == old_e.len() as int {
                        assert(old_e[a] == e[a]);
                    } else {
                        assert(old_e[a] == e[a] && old_e[b] == e[b]);
                    }
                } else {
                    let i = found->0 as int;
                    if a != i && b != i {
                        assert(old_e[a] == e[a] && old_e[b] == e[b]);
                    } else if a == i {
                        assert(old_e[b] == e[b]);
                        assert(old_e[i].0@ == e[i].0@);
                    } else {
                        assert(old_e[a] == e[a]);
                        assert(old_e[i].0@ == e[i].0@);
                    }
                }
            }
        }
        proof {
            let target = map_of(old_e).insert(k@, v@);
            assert forall|key: Seq<char>| #[trigger] map_of(e).dom().contains(key) == target.dom().contains(key) by {
                if has_key(e, key) {
                    let j = choose|j: int| 0 <= j < e.len() && (#[trigger] e[j]).0@ == key;
                    if key != k@ {
                        assert(old_e[j] == e[j]);
                        assert(has_key(old_e, key));
                    }
                }
                if has_key(old_e, key) {
                    let j = choose|j: int| 0 <= j < old_e.len() && (#[trigger] old_e[j]).0@ == key;
                    if key != k@ {
                        assert(old_e[j] == e[j]);
                    }
                }
                if key == k@ {
                    match found {
                        Some(i) => assert(e[i as int].0@ == key),
                        None => assert(e[old_e.len() as int].0@ == key),
                    }
                }
            }
            assert forall|key: Seq<char>| #[trigger] map_of(e).dom().contains(key) implies map_of(e)[key] == target[key] by {
                let j = choose|j: int| 0 <= j < e.len() && (#[trigger] e[j]).0@ == key;
                lemma_value_at(e, j);
                if key != k@ {
                    assert(old_e[j] == e[j]);
                    lemma_value_at(old_e, j);
                }
            }
            assert(map_of(e) =~= target);
        }
        self.entries = entries;
    }

    /// Removes key `k`; true when it was there.
    pub fn remove(&mut self, k: &str) -> (r: bool)
        ensures
            r == old(self)@.dom().contains(k@),
            final(self)@ == old(self)@.remove(k@),
    {
        proof { use_type_invariant(&*self); }
        let ghost old_e = self.entries@;
        match self.index_of(k) {
            None => {
                assert(map_of(old_e).remove(k@) =~= map_of(old_e));
                false
            },
            Some(i) => {
                let mut entries: Vec<(String, String)> = Vec::new();
        std::mem::swap(&mut entries, &mut self.entries);
                proof { assert(entries@ == old_e); }
                entries.remove(i);
                let ghost e = entries@;
                assert(forall|a: int| 0 <= a < e.len() ==> #[trigger] e[a] == old_e[if a < i { a } else { a + 1 }]);
                assert(distinct_keys(e)) by {
                    assert forall|a: int, b: int| 0 <= a < e.len() && 0 <= b < e.len() && a != b implies (#[trigger] e[a]).0@ != (#[trigger] e[b]).0@ by {
                        let oa = if a < i { a } else { a + 1 };
                        let ob = if b < i { b } else { b + 1 };
                        assert(e[a] == old_e[oa] && e[b] == old_e[ob]);
                    }
                }
                proof {
                    let target = map_of(old_e).remove(k@);
                    assert forall|key: Seq<char>| #[trigger] map_of(e).dom().contains(key) == target.dom().contains(key) by {
                        if has_key(e, key) {
                            let j = choose|j: int| 0 <= j < e.len() && (#[trigger] e[j]).0@ == key;
                            let oj = if j < i { j } else { j + 1 };
                            assert(e[j] == old_e[oj]);
                            assert(has_key(old_e, key));
                            assert(oj != i as int);
                        }
                        if has_key(old_e, key) && key != k@ {
                            let j = choose|j: int| 0 <= j < old_e.len() && (#[trigger] old_e[j]).0@ == key;
                            assert(j != i as int);
                            let nj = if j < i { j } else { j - 1 };
                            assert(e[nj] == old_e[j]);
                        }
                    }
                    assert forall|key: Seq<char>| #[trigger] map_of(e).dom().contains(key) implies map_of(e)[key] == target[key] by {
                        let j = choose|j: int| 0 <= j < e.len() && (#[trigger] e[j]).0@ == key;
                        let oj = if j < i { j } else { j + 1 };
                        assert(e[j] == old_e[oj]);
                        lemma_value_at(e, j);
                        lemma_value_at(old_e, oj);
                    }
                    assert(map_of(e) =~= target);
                    lemma_value_at(old_e, i as int);
                }
                self.entries = entries;
                true
            },
        }
    }

    /// The keys whose value is `v`.
    pub fn keys_with_value(&self, v: &str) -> (r: Vec<String>)
        ensures
            forall|i: int| 0 <= i < r@.len() ==> self@.dom().contains((#[trigger] r@[i])@) && self@[r@[i]@] == v@,
            forall|k: Seq<char>| #[trigger] self@.dom().contains(k) && self@[k] == v@ ==> exists|i: int| 0 <= i < r@.len() && (#[trigger] r@[i])@ == k,
            forall|i: int, j: int| 0 <= i < j < r@.len() ==> r@[i]@ != r@[j]@,
    {
        proof { use_type_invariant(self); }
        let value = v.to_string();
        let mut r: Vec<String> = Vec::new();
        let mut i: usize = 0;
        while i < self.entries.len()
            invariant
                0 <= i <= self.entries.len(),
                value@ == v@,
                distinct_keys(self.entries@),
                r@.len() <= i,
                forall|a: int| 0 <= a < r@.len() ==> exists|j: int| 0 <= j < i && (#[trigger] self.entries@[j]).0@ == (#[trigger] r@[a])@ && self.entries@[j].1@ == v@,
                forall|j: int| 0 <= j < i && (#[trigger] self.entries@[j]).1@ == v@ ==> exists|a: int| 0 <= a < r@.len() && (#[trigger] r@[a])@ == self.entries@[j].0@,
                forall|a: int, b: int| 0 <= a < b < r@.len() ==> r@[a]@ != r@[b]@,
                forall|a: int| 0 <= a < r@.len() ==> forall|j: int| i <= j < self.entries@.len() ==> (#[trigger] self.entries@[j]).0@ != (#[trigger] r@[a])@,
            decreases self.entries.len() - i,
        {
            let ghost before = r@;
            if self.entries[i].1 == value {
                r.push(self.entries[i].0.clone());
                proof {
                    assert(r@[before.len() as int]@ == self.entries@[i as int].0@);
                    assert forall|a: int| 0 <= a < r@.len() implies exists|j: int| 0 <= j < i + 1 && (#[trigger] self.entries@[j]).0@ == (#[trigger] r@[a])@ && self.entries@[j].1@ == v@ by {
                        if a < before.len() {
                            assert(r@[a] == before[a]);
                        } else {
                            assert(self.entries@[i as int].0@ == r@[a]@);
                        }
                    }
                    assert forall|j: int| 0 <= j < i + 1 && (#[trigger] self.entries@[j]).1@ == v@ implies exists|a: int| 0 <= a < r@.len() && (#[trigger] r@[a])@ == self.entries@[j].0@ by {
                        if j < i {
                            let a = choose|a: int| 0 <= a < before.len() && (#[trigger] before[a])@ == self.entries@[j].0@;
                            assert(r@[a] == before[a]);
                        } else {
                            assert(r@[before.len() as int]@ == self.entries@[j].0@);
                        }
                    }
                    assert forall|a: int, b: int| 0 <= a < b < r@.len() implies r@[a]@ != r@[b]@ by {
                        if b == before.len() {
                            assert(r@[a] == before[a]);
                        } else {
                            assert(r@[a] == before[a] && r@[b] == before[b]);
                        }
                    }
                    assert forall|a: int| 0 <= a < r@.len() implies forall|j: int| i + 1 <= j < self.entries@.len() ==> (#[trigger] self.entries@[j]).0@ != (#[trigger] r@[a])@ by {
                        if a < before.len() {
                            assert(r@[a] == before[a]);
                        }
                    }
                }
            } else {
                proof {
                    assert forall|j: int| 0 <= j < i + 1 && (#[trigger] self.entries@[j]).1@ == v@ implies exists|a: int| 0 <= a < r@.len() && (#[trigger] r@[a])@ == self.entries@[j].0@ by {
                        if j == i {
                            assert(false);
                        }
                    }
                }
            }
            i = i + 1;
        }
        proof {
            let e = self.entries@;
            assert forall|a: int| 0 <= a < r@.len() implies self@.dom().contains((#[trigger] r@[a])@) && self@[r@[a]@] == v@ by {
                let j = choose|j: int| 0 <= j < e.len() && (#[trigger] e[j]).0@ == r@[a]@ && e[j].1@ == v@;
                lemma_value_at(e, j);
            }
            assert forall|k: Seq<char>| #[trigger] self@.dom().contains(k) && self@[k] == v@ implies exists|a: int| 0 <= a < r@.len() && (#[trigger] r@[a])@ == k by {
                let j = choose|j: int| 0 <= j < e.len() && (#[trigger] e[j]).0@ == k;
                lemma_value_at(e, j);
            }
        }
        r
    }
}

} // verus!
