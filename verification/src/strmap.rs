//! Name-keyed registries: a map from names to values, kept as a list of
//! entries with distinct names.

use vstd::prelude::*;
use crate::types::BrixType;

verus! {

/// A map from names to values.
pub struct StrMap<V> {
    entries: Vec<(String, V)>,
}

impl<V> StrMap<V> {
    /// No name occurs in two entries.
    #[verifier::type_invariant]
    spec fn inv(self) -> bool {
        self.distinct_names()
    }

    pub closed spec fn distinct_names(self) -> bool {
        forall|i: int, j: int|
            0 <= i < self.entries@.len() && 0 <= j < self.entries@.len() && i != j
                ==> #[trigger] self.entries@[i].0@ != #[trigger] self.entries@[j].0@
    }

    pub closed spec fn has_name(self, k: Seq<char>) -> bool {
        exists|i: int| 0 <= i < self.entries@.len() && #[trigger] self.entries@[i].0@ == k
    }

    pub closed spec fn index_of(self, k: Seq<char>) -> int {
        choose|i: int| 0 <= i < self.entries@.len() && #[trigger] self.entries@[i].0@ == k
    }

    /// The names and the values they map to.
    pub closed spec fn map(self) -> Map<Seq<char>, V> {
        Map::new(|k: Seq<char>| self.has_name(k), |k: Seq<char>| self.entries@[self.index_of(k)].1)
    }

    /// Number of entries.
    pub closed spec fn spec_len(self) -> nat {
        self.entries@.len()
    }

    /// An empty map.
    pub fn new() -> (r: Self)
        ensures
            r.map() == Map::<Seq<char>, V>::empty(),
            r.spec_len() == 0,
    {
        let r = StrMap { entries: Vec::new() };
        assert(r.map() =~= Map::<Seq<char>, V>::empty());
        r
    }

    /// Position of the entry named `k`.
    fn find(&self, k: &str) -> (r: Option<usize>)
        ensures
            r matches Some(i) ==> i < self.entries@.len() && self.entries@[i as int].0@ == k@,
            r is None ==> !self.has_name(k@),
    {
        let mut i: usize = 0;
        while i < self.entries.len()
            invariant
                i <= self.entries@.len(),
                forall|j: int| 0 <= j < i ==> #[trigger] self.entries@[j].0@ != k@,
            decreases self.entries@.len() - i,
        {
            if str_equal(self.entries[i].0.as_str(), k) {
                return Some(i);
            }
            i = i + 1;
        }
        None
    }

    proof fn lemma_index(self, i: int)
        requires
            self.distinct_names(),
            0 <= i < self.entries@.len(),
        ensures
            self.has_name(self.entries@[i].0@),
            self.index_of(self.entries@[i].0@) == i,
            self.map()[self.entries@[i].0@] == self.entries@[i].1,
    {
        let k = self.entries@[i].0@;
        assert(self.has_name(k));
    }

    /// Whether `k` is mapped.
    pub fn contains_key(&self, k: &str) -> (r: bool)
        ensures
            r == self.map().dom().contains(k@),
    {
        self.find(k).is_some()
    }

    /// Number of entries.
    pub fn len(&self) -> (r: usize)
        ensures
            r == self.spec_len(),
    {
        self.entries.len()
    }

    /// The value that `k` maps to.
    pub fn get(&self, k: &str) -> (r: Option<&V>)
        ensures
            r matches Some(v) ==> self.map().dom().contains(k@) && *v == self.map()[k@],
            r is None ==> !self.map().dom().contains(k@),
    {
        match self.find(k) {
            Some(i) => {
                proof {
                    use_type_invariant(self);
                    self.lemma_index(i as int);
                }
                Some(&self.entries[i].1)
            },
            None => None,
        }
    }

    /// Puts `v` in place of the value of `k` and hands the old value back;
    /// `None`, with nothing changed, when `k` is not mapped.
    pub fn replace(&mut self, k: &str, v: V) -> (r: Option<V>)
        ensures
            old(self).map().dom().contains(k@) ==> r == Some(old(self).map()[k@]) && final(self).map()
                == old(self).map().insert(k@, v),
            !old(self).map().dom().contains(k@) ==> r is None && final(self).map() == old(self).map(),
    {
        proof {
            use_type_invariant(&*self);
        }
        let ghost old_self = *self;
        match self.find(k) {
            Some(i) => {
                proof {
                    old_self.lemma_index(i as int);
                }
                let mut entries = Vec::new();
                std::mem::swap(&mut entries, &mut self.entries);
                let (name, old_value) = entries.remove(i);
                entries.insert(i, (name, v));
                assert(entries@ =~= old_self.entries@.update(i as int, (old_self.entries@[i as int].0, v)));
                self.entries = entries;
                proof {
                    let kk = k@;
                    assert forall|key: Seq<char>| #![trigger self.map().dom().contains(key)]
                        self.map().dom().contains(key) == old_self.map().insert(kk, v).dom().contains(key) by {
                        if key != kk && old_self.has_name(key) {
                            let j = old_self.index_of(key);
                            assert(self.entries@[j].0@ == key);
                        }
                        if key != kk && self.has_name(key) {
                            let j = self.index_of(key);
                            assert(old_self.entries@[j].0@ == key);
                        }
                        if key == kk {
                            assert(self.entries@[i as int].0@ == key);
                        }
                    }
                    assert forall|key: Seq<char>| self.map().dom().contains(key) implies
                        #[trigger] self.map()[key] == old_self.map().insert(kk, v)[key] by {
                        if key == kk {
                            self.lemma_index(i as int);
                        } else {
                            let j = self.index_of(key);
                            self.lemma_index(j);
                            old_self.lemma_index(j);
                        }
                    }
                    assert(self.map() =~= old_self.map().insert(kk, v));
                }
                Some(old_value)
            },
            None => None,
        }
    }

    /// Unmaps `k`, handing back the value it had; `None`, with nothing
    /// changed, when `k` is not mapped.
    pub fn remove(&mut self, k: &str) -> (r: Option<V>)
        ensures
            final(self).map() == old(self).map().remove(k@),
            old(self).map().dom().contains(k@) ==> r == Some(old(self).map()[k@]),
            !old(self).map().dom().contains(k@) ==> r is None,
    {
        proof {
            use_type_invariant(&*self);
        }
        let ghost old_self = *self;
        match self.find(k) {
            Some(i) => {
                proof {
                    old_self.lemma_index(i as int);
                }
                let ghost kk = k@;
                let mut entries = Vec::new();
                std::mem::swap(&mut entries, &mut self.entries);
                let (_, value) = entries.remove(i);
                let ghost n = old_self.entries@.len() as int;
                let ghost at = |j: int| if j < i { j } else { j + 1 };
                assert forall|j: int| 0 <= j < entries@.len() implies #[trigger] entries@[j] == old_self.entries@[at(j)] by {}
                assert forall|a: int, b: int|
                    0 <= a < entries@.len() && 0 <= b < entries@.len() && a != b implies #[trigger] entries@[a].0@
                        != #[trigger] entries@[b].0@ by {
                    assert(entries@[a] == old_self.entries@[at(a)]);
                    assert(entries@[b] == old_self.entries@[at(b)]);
                }
                self.entries = entries;
                proof {
                    assert(self.distinct_names());
                    assert forall|key: Seq<char>| #![trigger self.map().dom().contains(key)]
                        self.map().dom().contains(key) == old_self.map().remove(kk).dom().contains(key) by {
                        if key != kk && old_self.has_name(key) {
                            let j = old_self.index_of(key);
                            assert(j != i);
                            if j < i {
                                assert(self.entries@[j].0@ == key);
                            } else {
                                assert(self.entries@[j - 1].0@ == key);
                            }
                        }
                        if self.has_name(key) {
                            let j = self.index_of(key);
                            assert(old_self.entries@[at(j)].0@ == key);
                            assert(at(j) != i);
                        }
                    }
                    assert forall|key: Seq<char>| self.map().dom().contains(key) implies
                        #[trigger] self.map()[key] == old_self.map().remove(kk)[key] by {
                        let j = self.index_of(key);
                        self.lemma_index(j);
                        old_self.lemma_index(at(j));
                    }
                    assert(self.map() =~= old_self.map().remove(kk));
                }
                Some(value)
            },
            None => {
                assert(self.map() =~= old_self.map().remove(k@));
                None
            },
        }
    }

    /// Maps `k` to `v`, replacing an earlier value of `k`.
    pub fn insert(&mut self, k: String, v: V)
        ensures
            final(self).map() == old(self).map().insert(k@, v),
            old(self).map().dom().contains(k@) ==> final(self).spec_len() == old(self).spec_len(),
            !old(self).map().dom().contains(k@) ==> final(self).spec_len() == old(self).spec_len() + 1,
    {
        proof {
            use_type_invariant(&*self);
        }
        let ghost old_self = *self;
        match self.find(k.as_str()) {
            Some(i) => {
                let ghost kk = k@;
                let mut entries = Vec::new();
                std::mem::swap(&mut entries, &mut self.entries);
                entries.set(i, (k, v));
                self.entries = entries;
                proof {
                    assert forall|key: Seq<char>| #![trigger self.map().dom().contains(key)]
                        self.map().dom().contains(key) == old_self.map().insert(kk, v).dom().contains(key) by {
                        if key != kk && old_self.has_name(key) {
                            let j = old_self.index_of(key);
                            assert(self.entries@[j].0@ == key);
                        }
                        if key != kk && self.has_name(key) {
                            let j = self.index_of(key);
                            assert(old_self.entries@[j].0@ == key);
                        }
                        if key == kk {
                            assert(self.entries@[i as int].0@ == key);
                        }
                    }
                    assert forall|key: Seq<char>| self.map().dom().contains(key) implies
                        #[trigger] self.map()[key] == old_self.map().insert(kk, v)[key] by {
                        if key == kk {
                            self.lemma_index(i as int);
                        } else {
                            let j = self.index_of(key);
                            self.lemma_index(j);
                            old_self.lemma_index(j);
                        }
                    }
                    assert(self.map() =~= old_self.map().insert(kk, v));
                }
            },
            None => {
                let ghost kk = k@;
                let mut entries = Vec::new();
                std::mem::swap(&mut entries, &mut self.entries);
                entries.push((k, v));
                self.entries = entries;
                proof {
                    let n = old_self.entries@.len() as int;
                    assert forall|key: Seq<char>| #![trigger self.map().dom().contains(key)]
                        self.map().dom().contains(key) == old_self.map().insert(kk, v).dom().contains(key) by {
                        if key != kk && old_self.has_name(key) {
                            let j = old_self.index_of(key);
                            assert(self.entries@[j].0@ == key);
                        }
                        if key != kk && self.has_name(key) {
                            let j = self.index_of(key);
                            assert(old_self.entries@[j].0@ == key);
                        }
                        if key == kk {
                            assert(self.entries@[n].0@ == key);
                        }
                    }
                    assert forall|key: Seq<char>| self.map().dom().contains(key) implies
                        #[trigger] self.map()[key] == old_self.map().insert(kk, v)[key] by {
                        if key == kk {
                            self.lemma_index(n);
                        } else {
                            let j = self.index_of(key);
                            self.lemma_index(j);
                            old_self.lemma_index(j);
                        }
                    }
                    assert(self.map() =~= old_self.map().insert(kk, v));
                }
            },
        }
    }
}

/// Character-wise equality of two strings.
pub fn str_equal(a: &str, b: &str) -> (r: bool)
    ensures
        r == (a@ == b@),
{
    let n = a.unicode_len();
    if n != b.unicode_len() {
        return false;
    }
    let mut i: usize = 0;
    while i < n
        invariant
            n == a@.len(),
            n == b@.len(),
            i <= n,
            forall|j: int| 0 <= j < i ==> a@[j] == b@[j],
        decreases n - i,
    {
        if a.get_char(i) != b.get_char(i) {
            return false;
        }
        i = i + 1;
    }
    assert(a@ =~= b@);
    true
}

/// Two registries bind the same names to the same slots and types of
/// the same model.
pub open spec fn same_bindings<P>(a: Map<Seq<char>, (P, BrixType)>, b: Map<Seq<char>, (P, BrixType)>) -> bool {
    &&& a.dom() == b.dom()
    &&& forall|k: Seq<char>| #[trigger] a.dom().contains(k) ==> a[k].0 == b[k].0 && a[k].1@ == b[k].1@
}

impl<P: Copy> StrMap<(P, BrixType)> {
    /// A copy of a registry of slots and types.
    pub fn duplicate(&self) -> (r: Self)
        ensures
            same_bindings(r.map(), self.map()),
    {
        proof {
            use_type_invariant(self);
        }
        let mut entries: Vec<(String, (P, BrixType))> = Vec::new();
        let mut i: usize = 0;
        while i < self.entries.len()
            invariant
                i <= self.entries@.len(),
                entries@.len() == i,
                self.distinct_names(),
                forall|j: int| 0 <= j < i ==> {
                    &&& (#[trigger] entries@[j]).0@ == self.entries@[j].0@
                    &&& entries@[j].1.0 == self.entries@[j].1.0
                    &&& entries@[j].1.1@ == self.entries@[j].1.1@
                },
            decreases self.entries@.len() - i,
        {
            let e = &self.entries[i];
            entries.push((e.0.clone(), (e.1.0, e.1.1.copy())));
            i = i + 1;
        }
        let r = StrMap { entries };
        assert forall|k: Seq<char>| #[trigger] r.has_name(k) <==> self.has_name(k) by {
            if r.has_name(k) {
                let j = choose|j: int| 0 <= j < r.entries@.len() && #[trigger] r.entries@[j].0@ == k;
                assert(self.entries@[j].0@ == k);
            }
            if self.has_name(k) {
                let j = choose|j: int| 0 <= j < self.entries@.len() && #[trigger] self.entries@[j].0@ == k;
                assert(r.entries@[j].0@ == k);
            }
        }
        assert forall|k: Seq<char>| #[trigger] r.map().dom().contains(k) implies r.map()[k].0 == self.map()[k].0
            && r.map()[k].1@ == self.map()[k].1@ by {
            let a = r.index_of(k);
            let b = self.index_of(k);
            assert(r.entries@[a].0@ == k);
            assert(self.entries@[b].0@ == k);
            assert(self.entries@[a].0@ == k);
            assert(a == b);
        }
        assert(r.map().dom() =~= self.map().dom());
        r
    }
}

} // verus!
