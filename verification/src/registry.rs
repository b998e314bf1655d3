//! In-memory registries of the MCP server: resources and their read
//! handlers by URI, and resource templates by name.

use vstd::prelude::*;
use vstd::string::StringExecFns;

verus! {

/// Values stored under distinct string keys.
pub struct Keyed<V> {
    entries: Vec<(String, V)>,
}

/// The key at position `i` of `s`.
pub open spec fn key_at<V>(s: Seq<(String, V)>, i: int) -> Seq<char> {
    s[i].0@
}

/// No key occurs twice in `s`.
pub open spec fn distinct_keys<V>(s: Seq<(String, V)>) -> bool {
    forall|i: int, j: int| 0 <= i < s.len() && 0 <= j < s.len() && i != j ==> key_at(s, i) != key_at(s, j)
}

/// `k` is the key at some position of `s`.
pub open spec fn has_key<V>(s: Seq<(String, V)>, k: Seq<char>) -> bool {
    exists|i: int| 0 <= i < s.len() && key_at(s, i) == k
}

/// The map that a list of pairs with distinct keys stands for.
pub open spec fn keyed_map<V>(s: Seq<(String, V)>) -> Map<Seq<char>, V> {
    Map::new(|k: Seq<char>| has_key(s, k), |k: Seq<char>| s[choose|i: int| 0 <= i < s.len() && key_at(s, i) == k].1)
}

proof fn lemma_keyed_at<V>(s: Seq<(String, V)>, i: int)
    requires
        distinct_keys(s),
        0 <= i < s.len(),
    ensures
        keyed_map(s).dom().contains(s[i].0@),
        keyed_map(s)[s[i].0@] == s[i].1,
{
    assert(key_at(s, i) == s[i].0@);
    let j = choose|j: int| 0 <= j < s.len() && key_at(s, j) == s[i].0@;
    assert(j == i);
}

/// `v` is stored under some key of `m`.
pub open spec fn is_value_of<V>(m: Map<Seq<char>, V>, v: V) -> bool {
    exists|k: Seq<char>| #[trigger] m.dom().contains(k) && m[k] == v
}

impl<V> View for Keyed<V> {
    type V = Map<Seq<char>, V>;

    closed spec fn view(&self) -> Map<Seq<char>, V> {
        keyed_map(self.entries@)
    }
}

impl<V> Keyed<V> {
    #[verifier::type_invariant]
    spec fn well_formed(&self) -> bool {
        distinct_keys(self.entries@)
    }

    /// Nothing stored.
    pub fn new() -> (m: Keyed<V>)
        ensures
            m@ == Map::<Seq<char>, V>::empty(),
    {
        let m = Keyed { entries: Vec::new() };
        assert(m@ =~= Map::<Seq<char>, V>::empty());
        m
    }

    fn find(&self, key: &str) -> (r: Option<usize>)
        ensures
            match r {
                Some(i) => i < self.entries@.len() && key_at(self.entries@, i as int) == key@,
                None => !has_key(self.entries@, key@),
            },
    {
        let mut i: usize = 0;
        while i < self.entries.len()
            invariant
                i <= self.entries@.len(),
                forall|j: int| 0 <= j < i ==> key_at(self.entries@, j) != key@,
            decreases self.entries.len() - i,
        {
            if crate::text::str_eq(self.entries[i].0.as_str(), key) {
                return Some(i);
            }
            i = i + 1;
        }
        None
    }

    /// The value stored under `key`.
    pub fn get(&self, key: &str) -> (r: Option<&V>)
        ensures
            match r {
                Some(v) => self@.dom().contains(key@) && *v == self@[key@],
                None => !self@.dom().contains(key@),
            },
    {
        proof {
            use_type_invariant(self);
        }
        match self.find(key) {
            Some(i) => {
                proof {
                    lemma_keyed_at(self.entries@, i as int);
                }
                Some(&self.entries[i].1)
            },
            None => None,
        }
    }

    /// Stores `value` under `key`, replacing an earlier value.
    pub fn insert(&mut self, key: String, value: V)
        ensures
            final(self)@ == old(self)@.insert(key@, value),
    {
        proof {
            use_type_invariant(&*self);
        }
        let ghost old_s = self.entries@;
        let ghost k = key@;
        let ghost v = value;
        let mut e: Vec<(String, V)> = Vec::new();
        std::mem::swap(&mut e, &mut self.entries);
        match self.find_in(&e, key.as_str()) {
            Some(i) => {
                let _ = e.remove(i);
                e.insert(i, (key, value));
                let ghost s = e@;
                assert(s =~= old_s.update(i as int, (s[i as int].0, v)));
                assert(distinct_keys(s)) by {
                    assert forall|a: int, b: int| 0 <= a < s.len() && 0 <= b < s.len() && a != b implies key_at(s, a)
                        != key_at(s, b) by {
                        assert(key_at(old_s, a) != key_at(old_s, b));
                    }
                }
                assert(keyed_map(s) =~= keyed_map(old_s).insert(k, v)) by {
                    assert forall|x: Seq<char>| keyed_map(s).dom().contains(x) <==> keyed_map(old_s).insert(
                        k,
                        v,
                    ).dom().contains(x) by {
                        if has_key(old_s, x) {
                            let j = choose|j: int| 0 <= j < old_s.len() && key_at(old_s, j) == x;
                            assert(key_at(s, j) == x);
                        }
                        if has_key(s, x) {
                            let j = choose|j: int| 0 <= j < s.len() && key_at(s, j) == x;
                            if j != i {
                                assert(key_at(old_s, j) == x);
                            }
                        }
                    }
                    assert forall|x: Seq<char>| #[trigger] keyed_map(s).dom().contains(x) implies keyed_map(s)[x]
                        == keyed_map(old_s).insert(k, v)[x] by {
                        let j = choose|j: int| 0 <= j < s.len() && key_at(s, j) == x;
                        lemma_keyed_at(s, j);
                        assert(key_at(s, i as int) == k);
                        if j != i {
                            assert(key_at(s, j) != key_at(s, i as int));
                            assert(s[j] == old_s[j]);
                            lemma_keyed_at(old_s, j);
                        }
                    }
                }
            },
            None => {
                e.push((key, value));
                let ghost s = e@;
                assert(s == old_s.push(s.last()));
                assert(distinct_keys(s)) by {
                    assert forall|a: int, b: int| 0 <= a < s.len() && 0 <= b < s.len() && a != b implies key_at(s, a)
                        != key_at(s, b) by {
                        if a < old_s.len() && b < old_s.len() {
                            assert(key_at(old_s, a) != key_at(old_s, b));
                        } else if a < old_s.len() {
                            assert(key_at(old_s, a) != k);
                        } else {
                            assert(key_at(old_s, b) != k);
                        }
                    }
                }
                assert(keyed_map(s) =~= keyed_map(old_s).insert(k, v)) by {
                    assert forall|x: Seq<char>| keyed_map(s).dom().contains(x) <==> keyed_map(old_s).insert(
                        k,
                        v,
                    ).dom().contains(x) by {
                        if has_key(old_s, x) {
                            let j = choose|j: int| 0 <= j < old_s.len() && key_at(old_s, j) == x;
                            assert(key_at(s, j) == x);
                        }
                        if x == k {
                            assert(key_at(s, old_s.len() as int) == x);
                        }
                        if has_key(s, x) {
                            let j = choose|j: int| 0 <= j < s.len() && key_at(s, j) == x;
                            if j < old_s.len() {
                                assert(key_at(old_s, j) == x);
                            }
                        }
                    }
                    assert forall|x: Seq<char>| #[trigger] keyed_map(s).dom().contains(x) implies keyed_map(s)[x]
                        == keyed_map(old_s).insert(k, v)[x] by {
                        let j = choose|j: int| 0 <= j < s.len() && key_at(s, j) == x;
                        lemma_keyed_at(s, j);
                        if j < old_s.len() {
                            lemma_keyed_at(old_s, j);
                        }
                    }
                }
            },
        }
        self.entries = e;
    }

    fn find_in(&self, e: &Vec<(String, V)>, key: &str) -> (r: Option<usize>)
        ensures
            match r {
                Some(i) => i < e@.len() && key_at(e@, i as int) == key@,
                None => !has_key(e@, key@),
            },
    {
        let mut i: usize = 0;
        while i < e.len()
            invariant
                i <= e@.len(),
                forall|j: int| 0 <= j < i ==> key_at(e@, j) != key@,
            decreases e.len() - i,
        {
            if crate::text::str_eq(e[i].0.as_str(), key) {
                return Some(i);
            }
            i = i + 1;
        }
        None
    }

    /// All stored values, each once.
    pub fn values(&self) -> (r: Vec<&V>)
        ensures
            r@.len() == self@.dom().len(),
            forall|i: int| 0 <= i < r@.len() ==> is_value_of(self@, *#[trigger] r@[i]),
            forall|k: Seq<char>| #[trigger] self@.dom().contains(k) ==> exists|i: int| 0 <= i < r@.len() && *r@[i] == self@[k],
    {
        proof {
            use_type_invariant(self);
            self.lemma_len();
        }
        let mut r: Vec<&V> = Vec::new();
        let mut i: usize = 0;
        while i < self.entries.len()
            invariant
                i <= self.entries@.len(),
                distinct_keys(self.entries@),
                r@.len() == i,
                forall|j: int| 0 <= j < i ==> *r@[j] == #[trigger] self.entries@[j].1,
            decreases self.entries.len() - i,
        {
            r.push(&self.entries[i].1);
            i = i + 1;
        }
        proof {
            let s = self.entries@;
            assert forall|a: int| 0 <= a < r@.len() implies is_value_of(self@, *#[trigger] r@[a]) by {
                lemma_keyed_at(s, a);
                assert(*r@[a] == s[a].1);
                assert(self@.dom().contains(s[a].0@));
            }
            assert forall|k: Seq<char>| #[trigger] self@.dom().contains(k) implies exists|a: int| 0 <= a < r@.len()
                && *r@[a] == self@[k] by {
                let j = choose|j: int| 0 <= j < s.len() && key_at(s, j) == k;
                lemma_keyed_at(s, j);
                assert(*r@[j] == s[j].1);
            }
        }
        r
    }

    proof fn lemma_len(&self)
        requires
            distinct_keys(self.entries@),
        ensures
            self@.dom().finite(),
            self@.dom().len() == self.entries@.len(),
    {
        let s = self.entries@;
        let keys = Seq::new(s.len(), |i: int| key_at(s, i));
        assert(keys.no_duplicates());
        assert(keys.to_set() =~= self@.dom()) by {
            assert forall|k: Seq<char>| keys.to_set().contains(k) <==> self@.dom().contains(k) by {
                if keys.to_set().contains(k) {
                    let i = choose|i: int| 0 <= i < keys.len() && keys[i] == k;
                    assert(has_key(s, k));
                }
                if self@.dom().contains(k) {
                    let i = choose|i: int| 0 <= i < s.len() && key_at(s, i) == k;
                    assert(keys[i] == k);
                }
            }
        }
        keys.unique_seq_to_set();
    }
}

/// Resources with their read handlers, by URI, and resource templates, by
/// name. Registering under a key that is taken replaces what was there.
pub struct ResourceRegistry<R, T, H> {
    resources: Keyed<R>,
    handlers: Keyed<H>,
    templates: Keyed<T>,
}

impl<R, T, H> ResourceRegistry<R, T, H> {
    /// The resources by URI.
    pub closed spec fn resource_map(&self) -> Map<Seq<char>, R> {
        self.resources@
    }

    /// The read handlers by URI.
    pub closed spec fn handler_map(&self) -> Map<Seq<char>, H> {
        self.handlers@
    }

    /// The templates by name.
    pub closed spec fn template_map(&self) -> Map<Seq<char>, T> {
        self.templates@
    }

    /// An empty registry.
    pub fn new() -> (r: ResourceRegistry<R, T, H>)
        ensures
            r.resource_map() == Map::<Seq<char>, R>::empty(),
            r.handler_map() == Map::<Seq<char>, H>::empty(),
            r.template_map() == Map::<Seq<char>, T>::empty(),
    {
        ResourceRegistry { resources: Keyed::new(), handlers: Keyed::new(), templates: Keyed::new() }
    }

    /// Registers a resource under its URI with the handler that reads it.
    pub fn register_resource(&mut self, uri: String, resource: R, handler: H)
        ensures
            final(self).resource_map() == old(self).resource_map().insert(uri@, resource),
            final(self).handler_map() == old(self).handler_map().insert(uri@, handler),
            final(self).template_map() == old(self).template_map(),
    {
        let key = uri.clone();
        self.resources.insert(key, resource);
        self.handlers.insert(uri, handler);
    }

    /// Registers a template under its name.
    pub fn register_template(&mut self, name: String, template: T)
        ensures
            final(self).template_map() == old(self).template_map().insert(name@, template),
            final(self).resource_map() == old(self).resource_map(),
            final(self).handler_map() == old(self).handler_map(),
    {
        self.templates.insert(name, template);
    }

    /// All registered resources, each once.
    pub fn list_resources(&self) -> (r: Vec<&R>)
        ensures
            r@.len() == self.resource_map().dom().len(),
            forall|i: int| 0 <= i < r@.len() ==> is_value_of(self.resource_map(), *#[trigger] r@[i]),
            forall|k: Seq<char>| #[trigger] self.resource_map().dom().contains(k) ==> exists|i: int| 0 <= i < r@.len()
                && *r@[i] == self.resource_map()[k],
    {
        self.resources.values()
    }

    /// All registered templates, each once.
    pub fn list_templates(&self) -> (r: Vec<&T>)
        ensures
            r@.len() == self.template_map().dom().len(),
            forall|i: int| 0 <= i < r@.len() ==> is_value_of(self.template_map(), *#[trigger] r@[i]),
            forall|k: Seq<char>| #[trigger] self.template_map().dom().contains(k) ==> exists|i: int| 0 <= i < r@.len()
                && *r@[i] == self.template_map()[k],
    {
        self.templates.values()
    }

    /// The handler registered for `uri`.
    pub fn handler(&self, uri: &str) -> (r: Option<&H>)
        ensures
            match r {
                Some(h) => self.handler_map().dom().contains(uri@) && *h == self.handler_map()[uri@],
                None => !self.handler_map().dom().contains(uri@),
            },
    {
        self.handlers.get(uri)
    }
}

impl<R, T, H> Default for ResourceRegistry<R, T, H> {
    fn default() -> (r: ResourceRegistry<R, T, H>)
        ensures
            r.resource_map() == Map::<Seq<char>, R>::empty(),
            r.handler_map() == Map::<Seq<char>, H>::empty(),
            r.template_map() == Map::<Seq<char>, T>::empty(),
    {
        ResourceRegistry::new()
    }
}

/// The handler looked up for a URI is the one last registered for it; other
/// URIs keep theirs.
pub proof fn law_handler_after_register<H>(m: Map<Seq<char>, H>, uri: Seq<char>, h: H, other: Seq<char>)
    ensures
        m.insert(uri, h).dom().contains(uri) && m.insert(uri, h)[uri] == h,
        other != uri ==> (m.insert(uri, h).dom().contains(other) == m.dom().contains(other)),
        other != uri && m.dom().contains(other) ==> m.insert(uri, h)[other] == m[other],
{
}

} // verus!
