//! A map from token names to token values, kept as a list of distinct names.

use vstd::prelude::*;
use vstd::string::StringExecFns;

verus! {

/// Names and values of the configured tokens. No name occurs twice.
pub struct TokenMap {
    entries: Vec<(String, String)>,
}

/// The name held at position `i` of `s`.
pub open spec fn name_at(s: Seq<(String, String)>, i: int) -> Seq<char> {
    s[i].0@
}

/// No name occurs twice in `s`.
pub open spec fn distinct_names(s: Seq<(String, String)>) -> bool {
    forall|i: int, j: int|
        0 <= i < s.len() && 0 <= j < s.len() && i != j ==> name_at(s, i) != name_at(s, j)
}

/// `k` is the name at some position of `s`.
pub open spec fn has_name(s: Seq<(String, String)>, k: Seq<char>) -> bool {
    exists|i: int| 0 <= i < s.len() && name_at(s, i) == k
}

/// The map that a list of distinct (name, value) pairs stands for.
pub open spec fn map_of(s: Seq<(String, String)>) -> Map<Seq<char>, Seq<char>> {
    Map::new(
        |k: Seq<char>| has_name(s, k),
        |k: Seq<char>| s[choose|i: int| 0 <= i < s.len() && name_at(s, i) == k].1@,
    )
}

/// In a list of distinct names, the value of the name at `i` is the one stored at `i`.
pub proof fn lemma_map_of_at(s: Seq<(String, String)>, i: int)
    requires
        distinct_names(s),
        0 <= i < s.len(),
    ensures
        map_of(s).dom().contains(s[i].0@),
        map_of(s)[s[i].0@] == s[i].1@,
{
    assert(name_at(s, i) == s[i].0@);
    let j = choose|j: int| 0 <= j < s.len() && name_at(s, j) == s[i].0@;
    assert(j == i);
}

impl View for TokenMap {
    type V = Map<Seq<char>, Seq<char>>;

    closed spec fn view(&self) -> Map<Seq<char>, Seq<char>> {
        map_of(self.entries@)
    }
}

impl TokenMap {
    #[verifier::type_invariant]
    spec fn well_formed(&self) -> bool {
        distinct_names(self.entries@)
    }

    /// The empty map.
    pub fn new() -> (m: TokenMap)
        ensures
            m@ == Map::<Seq<char>, Seq<char>>::empty(),
    {
        let m = TokenMap { entries: Vec::new() };
        assert(m@ =~= Map::<Seq<char>, Seq<char>>::empty());
        m
    }

    /// Number of names.
    pub fn len(&self) -> (n: usize)
        ensures
            n == self@.len(),
    {
        proof {
            use_type_invariant(self);
            self.lemma_len();
        }
        self.entries.len()
    }

    proof fn lemma_len(&self)
        requires
            distinct_names(self.entries@),
        ensures
            self@.dom().finite(),
            self@.len() == self.entries@.len(),
    {
        let s = self.entries@;
        let names = Seq::new(s.len(), |i: int| name_at(s, i));
        assert(names.no_duplicates());
        assert(names.to_set() =~= self@.dom()) by {
            assert forall|k: Seq<char>| names.to_set().contains(k) <==> self@.dom().contains(k) by {
                if names.to_set().contains(k) {
                    let i = choose|i: int| 0 <= i < names.len() && names[i] == k;
                    assert(has_name(s, k));
                }
                if self@.dom().contains(k) {
                    let i = choose|i: int| 0 <= i < s.len() && name_at(s, i) == k;
                    assert(names[i] == k);
                }
            }
        }
        names.unique_seq_to_set();
    }

    /// Position of `key` in the list, if it is there.
    fn find(&self, key: &String) -> (r: Option<usize>)
        ensures
            match r {
                Some(i) => i < self.entries@.len() && name_at(self.entries@, i as int) == key@,
                None => !has_name(self.entries@, key@),
            },
    {
        let mut i: usize = 0;
        while i < self.entries.len()
            invariant
                i <= self.entries@.len(),
                forall|j: int| 0 <= j < i ==> name_at(self.entries@, j) != key@,
            decreases self.entries.len() - i,
        {
            if self.entries[i].0 == *key {
                return Some(i);
            }
            i = i + 1;
        }
        None
    }

    /// Whether `name` is one of the names.
    pub fn contains_key(&self, name: &str) -> (b: bool)
        ensures
            b == self@.dom().contains(name@),
    {
        let key = String::from_str(name);
        self.find(&key).is_some()
    }

    /// The value stored under `name`.
    pub fn get(&self, name: &str) -> (r: Option<&str>)
        ensures
            match r {
                Some(v) => self@.dom().contains(name@) && v@ == self@[name@],
                None => !self@.dom().contains(name@),
            },
    {
        proof {
            use_type_invariant(self);
        }
        let key = String::from_str(name);
        match self.find(&key) {
            Some(i) => {
                proof {
                    lemma_map_of_at(self.entries@, i as int);
                }
                Some(self.entries[i].1.as_str())
            },
            None => None,
        }
    }

    /// Stores `value` under `name`, replacing any earlier value.
    pub fn insert(&mut self, name: String, value: String)
        ensures
            final(self)@ == old(self)@.insert(name@, value@),
    {
        proof {
            use_type_invariant(&*self);
        }
        let ghost old_s = self.entries@;
        match self.find(&name) {
            Some(i) => {
                let ghost k = name@;
                let ghost v = value@;
                let mut e: Vec<(String, String)> = Vec::new();
                std::mem::swap(&mut e, &mut self.entries);
                e.set(i, (name, value));
                let ghost s = e@;
                assert(s == old_s.update(i as int, s[i as int]));
                assert(s[i as int].0@ == k && s[i as int].1@ == v);
                assert(distinct_names(s)) by {
                    assert forall|a: int, b: int|
                        0 <= a < s.len() && 0 <= b < s.len() && a != b implies name_at(s, a)
                        != name_at(s, b) by {
                        assert(name_at(old_s, a) != name_at(old_s, b));
                    }
                }
                assert(map_of(s) =~= map_of(old_s).insert(k, v)) by {
                    assert forall|x: Seq<char>| map_of(s).dom().contains(x)
                        <==> map_of(old_s).insert(k, v).dom().contains(x) by {
                        if has_name(old_s, x) {
                            let j = choose|j: int| 0 <= j < old_s.len() && name_at(old_s, j) == x;
                            assert(name_at(s, j) == x);
                        }
                        if has_name(s, x) {
                            let j = choose|j: int| 0 <= j < s.len() && name_at(s, j) == x;
                            if j != i {
                                assert(name_at(old_s, j) == x);
                            }
                        }
                    }
                    assert forall|x: Seq<char>| #[trigger] map_of(s).dom().contains(x) implies map_of(
                        s,
                    )[x] == map_of(old_s).insert(k, v)[x] by {
                        let j = choose|j: int| 0 <= j < s.len() && name_at(s, j) == x;
                        lemma_map_of_at(s, j);
                        assert(name_at(s, i as int) == k);
                        assert(s[i as int].1@ == v);
                        if j != i {
                            assert(name_at(s, j) != name_at(s, i as int));
                            assert(s[j] == old_s[j]);
                            lemma_map_of_at(old_s, j);
                        }
                    }
                }
                self.entries = e;
            },
            None => {
                let ghost k = name@;
                let ghost v = value@;
                let mut e: Vec<(String, String)> = Vec::new();
                std::mem::swap(&mut e, &mut self.entries);
                e.push((name, value));
                let ghost s = e@;
                assert(s == old_s.push(s.last()));
                assert(distinct_names(s)) by {
                    assert forall|a: int, b: int|
                        0 <= a < s.len() && 0 <= b < s.len() && a != b implies name_at(s, a)
                        != name_at(s, b) by {
                        if a < old_s.len() && b < old_s.len() {
                            assert(name_at(old_s, a) != name_at(old_s, b));
                        } else if a < old_s.len() {
                            assert(name_at(old_s, a) != k);
                        } else {
                            assert(name_at(old_s, b) != k);
                        }
                    }
                }
                assert(map_of(s) =~= map_of(old_s).insert(k, v)) by {
                    assert forall|x: Seq<char>| map_of(s).dom().contains(x)
                        <==> map_of(old_s).insert(k, v).dom().contains(x) by {
                        if has_name(old_s, x) {
                            let j = choose|j: int| 0 <= j < old_s.len() && name_at(old_s, j) == x;
                            assert(name_at(s, j) == x);
                        }
                        if x == k {
                            assert(name_at(s, old_s.len() as int) == x);
                        }
                        if has_name(s, x) {
                            let j = choose|j: int| 0 <= j < s.len() && name_at(s, j) == x;
                            if j < old_s.len() {
                                assert(name_at(old_s, j) == x);
                            }
                        }
                    }
                    assert forall|x: Seq<char>| #[trigger] map_of(s).dom().contains(x) implies map_of(
                        s,
                    )[x] == map_of(old_s).insert(k, v)[x] by {
                        let j = choose|j: int| 0 <= j < s.len() && name_at(s, j) == x;
                        lemma_map_of_at(s, j);
                        if j < old_s.len() {
                            lemma_map_of_at(old_s, j);
                        }
                    }
                }
                self.entries = e;
            },
        }
    }

    /// Removes `name`; tells whether it was there.
    pub fn remove(&mut self, name: &str) -> (removed: bool)
        ensures
            removed == old(self)@.dom().contains(name@),
            final(self)@ == old(self)@.remove(name@),
    {
        proof {
            use_type_invariant(&*self);
        }
        let key = String::from_str(name);
        let ghost old_s = self.entries@;
        match self.find(&key) {
            Some(i) => {
                let ghost k = key@;
                let mut e: Vec<(String, String)> = Vec::new();
                std::mem::swap(&mut e, &mut self.entries);
                let _ = e.remove(i);
                let ghost s = e@;
                assert(s == old_s.remove(i as int));
                assert forall|j: int| 0 <= j < s.len() implies #[trigger] name_at(s, j) == name_at(
                    old_s,
                    if j < i { j } else { j + 1 },
                ) by {}
                assert(distinct_names(s)) by {
                    assert forall|a: int, b: int|
                        0 <= a < s.len() && 0 <= b < s.len() && a != b implies name_at(s, a)
                        != name_at(s, b) by {
                        let a2 = if a < i { a } else { a + 1 };
                        let b2 = if b < i { b } else { b + 1 };
                        assert(name_at(s, a) == name_at(old_s, a2));
                        assert(name_at(s, b) == name_at(old_s, b2));
                        assert(name_at(old_s, a2) != name_at(old_s, b2));
                    }
                }
                assert(map_of(s) =~= map_of(old_s).remove(k)) by {
                    assert forall|x: Seq<char>| map_of(s).dom().contains(x)
                        <==> map_of(old_s).remove(k).dom().contains(x) by {
                        if has_name(s, x) {
                            let j = choose|j: int| 0 <= j < s.len() && name_at(s, j) == x;
                            let j2 = if j < i { j } else { j + 1 };
                            assert(name_at(old_s, j2) == x);
                            assert(j2 != i);
                            assert(name_at(old_s, i as int) == k);
                        }
                        if has_name(old_s, x) && x != k {
                            let j = choose|j: int| 0 <= j < old_s.len() && name_at(old_s, j) == x;
                            assert(j != i);
                            let j1 = if j < i { j } else { j - 1 };
                            assert(name_at(s, j1) == x);
                        }
                    }
                    assert forall|x: Seq<char>| #[trigger] map_of(s).dom().contains(x) implies map_of(
                        s,
                    )[x] == map_of(old_s).remove(k)[x] by {
                        let j = choose|j: int| 0 <= j < s.len() && name_at(s, j) == x;
                        let j2 = if j < i { j } else { j + 1 };
                        lemma_map_of_at(s, j);
                        lemma_map_of_at(old_s, j2);
                    }
                }
                self.entries = e;
                true
            },
            None => {
                assert(map_of(old_s) =~= map_of(old_s).remove(key@));
                false
            },
        }
    }

    /// All names, each once.
    pub fn keys(&self) -> (r: Vec<&String>)
        ensures
            r@.len() == self@.len(),
            forall|i: int| 0 <= i < r@.len() ==> self@.dom().contains(#[trigger] r@[i]@),
            forall|i: int, j: int| 0 <= i < r@.len() && 0 <= j < r@.len() && i != j ==> r@[i]@ != r@[j]@,
            forall|k: Seq<char>| self@.dom().contains(k) ==> exists|i: int| 0 <= i < r@.len() && #[trigger] r@[i]@ == k,
    {
        proof {
            use_type_invariant(self);
            self.lemma_len();
        }
        let mut r: Vec<&String> = Vec::new();
        let mut i: usize = 0;
        while i < self.entries.len()
            invariant
                i <= self.entries@.len(),
                distinct_names(self.entries@),
                r@.len() == i,
                forall|j: int| 0 <= j < i ==> r@[j]@ == #[trigger] name_at(self.entries@, j),
            decreases self.entries.len() - i,
        {
            r.push(&self.entries[i].0);
            i = i + 1;
        }
        proof {
            let s = self.entries@;
            assert forall|a: int| 0 <= a < r@.len() implies self@.dom().contains(#[trigger] r@[a]@) by {
                assert(name_at(s, a) == r@[a]@);
            }
            assert forall|a: int, b: int| 0 <= a < r@.len() && 0 <= b < r@.len() && a != b implies r@[a]@ != r@[b]@ by {
                assert(name_at(s, a) == r@[a]@);
                assert(name_at(s, b) == r@[b]@);
            }
            assert forall|k: Seq<char>| self@.dom().contains(k) implies exists|a: int| 0 <= a < r@.len() && #[trigger] r@[a]@ == k by {
                let j = choose|j: int| 0 <= j < s.len() && name_at(s, j) == k;
                assert(r@[j]@ == name_at(s, j));
            }
        }
        r
    }

    /// Some stored value, if the map is not empty.
    pub fn any_value(&self) -> (r: Option<&str>)
        ensures
            r is Some <==> self@.dom().len() > 0,
            r matches Some(v) ==> exists|k: Seq<char>| self@.dom().contains(k) && #[trigger] self@[k] == v@,
    {
        proof {
            use_type_invariant(self);
            self.lemma_len();
        }
        if self.entries.len() == 0 {
            None
        } else {
            proof {
                lemma_map_of_at(self.entries@, 0);
            }
            Some(self.entries[0].1.as_str())
        }
    }
}

} // verus!
