//! Named GitHub tokens with an optional default (the configuration that the
//! GitHub server keeps on disk).

use vstd::prelude::*;
use crate::token_map::TokenMap;
use vstd::string::StringExecFns;

verus! {

/// What is stored under `name` in `m`, if anything.
pub open spec fn lookup(m: Map<Seq<char>, Seq<char>>, name: Seq<char>) -> Option<Seq<char>> {
    if m.dom().contains(name) {
        Some(m[name])
    } else {
        None
    }
}

/// The characters of an optional string slice.
pub open spec fn opt_str_view(o: Option<&str>) -> Option<Seq<char>> {
    match o {
        Some(s) => Some(s@),
        None => None,
    }
}

/// The characters of an optional string.
pub open spec fn opt_string_view(o: Option<String>) -> Option<Seq<char>> {
    match o {
        Some(s) => Some(s@),
        None => None,
    }
}

/// The default name after `name` is removed: cleared when it was that name.
pub open spec fn default_after_remove(d: Option<Seq<char>>, name: Seq<char>) -> Option<Seq<char>> {
    if d == Some(name) {
        None
    } else {
        d
    }
}

/// `r` is an acceptable answer for the default token of tokens `m` with default name `d`:
/// the token of the default name, or, with no default name, some stored token
/// (none exactly when there are no tokens).
pub open spec fn is_default_token(m: Map<Seq<char>, Seq<char>>, d: Option<Seq<char>>, r: Option<Seq<char>>) -> bool {
    match d {
        Some(n) => r == lookup(m, n),
        None => {
            &&& (r is Some <==> m.dom().len() > 0)
            &&& (r matches Some(v) ==> exists|k: Seq<char>| m.dom().contains(k) && #[trigger] m[k] == v)
        },
    }
}

/// Token configuration: named tokens and the name of the default one.
pub struct TokenConfig {
    /// All named tokens.
    pub tokens: TokenMap,
    /// Name of the default token.
    pub default_token: Option<String>,
}

impl Default for TokenConfig {
    fn default() -> (c: TokenConfig)
        ensures
            c.tokens@ == Map::<Seq<char>, Seq<char>>::empty(),
            c.default_token is None,
    {
        TokenConfig { tokens: TokenMap::new(), default_token: None }
    }
}

impl TokenConfig {
    /// An empty configuration.
    pub fn new() -> (c: TokenConfig)
        ensures
            c.tokens@ == Map::<Seq<char>, Seq<char>>::empty(),
            c.default_token is None,
    {
        TokenConfig { tokens: TokenMap::new(), default_token: None }
    }

    /// Adds the token `token` under `name`, replacing an earlier one.
    pub fn add_token(&mut self, name: String, token: String)
        ensures
            final(self).tokens@ == old(self).tokens@.insert(name@, token@),
            final(self).default_token == old(self).default_token,
    {
        self.tokens.insert(name, token);
    }

    /// Removes the token `name`; tells whether there was one. A default that
    /// named it is cleared.
    pub fn remove_token(&mut self, name: &str) -> (removed: bool)
        ensures
            removed == old(self).tokens@.dom().contains(name@),
            final(self).tokens@ == old(self).tokens@.remove(name@),
            opt_string_view(final(self).default_token) == default_after_remove(
                opt_string_view(old(self).default_token),
                name@,
            ),
    {
        let removed = self.tokens.remove(name);
        let is_default = match &self.default_token {
            Some(d) => d.as_str().len() == name.len() && crate::text::str_eq(d.as_str(), name),
            None => false,
        };
        if is_default {
            self.default_token = None;
        }
        removed
    }

    /// The token stored under `name`.
    pub fn get_token(&self, name: &str) -> (r: Option<&str>)
        ensures
            opt_str_view(r) == lookup(self.tokens@, name@),
    {
        self.tokens.get(name)
    }

    /// The default token: the one the default name refers to, or, with no
    /// default name, one of the stored tokens.
    pub fn get_default_token(&self) -> (r: Option<&str>)
        ensures
            is_default_token(self.tokens@, opt_string_view(self.default_token), opt_str_view(r)),
    {
        match &self.default_token {
            Some(name) => self.tokens.get(name.as_str()),
            None => {
                self.tokens.any_value()
            },
        }
    }

    /// Makes `name` the default when such a token exists; tells whether it did.
    pub fn set_default_token(&mut self, name: &str) -> (ok: bool)
        ensures
            ok == old(self).tokens@.dom().contains(name@),
            final(self).tokens@ == old(self).tokens@,
            ok ==> opt_string_view(final(self).default_token) == Some(name@),
            !ok ==> final(self).default_token == old(self).default_token,
    {
        if self.tokens.contains_key(name) {
            self.default_token = Some(String::from_str(name));
            true
        } else {
            false
        }
    }

    /// Names of all tokens, each once.
    pub fn list_tokens(&self) -> (r: Vec<&String>)
        ensures
            r@.len() == self.tokens@.len(),
            forall|i: int| 0 <= i < r@.len() ==> self.tokens@.dom().contains(#[trigger] r@[i]@),
            forall|i: int, j: int| 0 <= i < r@.len() && 0 <= j < r@.len() && i != j ==> r@[i]@ != r@[j]@,
            forall|k: Seq<char>| self.tokens@.dom().contains(k) ==> exists|i: int| 0 <= i < r@.len() && #[trigger] r@[i]@ == k,
    {
        self.tokens.keys()
    }
}

/// A token that was added is what a lookup of its name gives back; other names
/// are not affected.
pub proof fn law_get_after_add(m: Map<Seq<char>, Seq<char>>, name: Seq<char>, token: Seq<char>, other: Seq<char>)
    ensures
        lookup(m.insert(name, token), name) == Some(token),
        other != name ==> lookup(m.insert(name, token), other) == lookup(m, other),
{
}

/// After removing a name, nothing is stored under it, and other names keep their tokens.
pub proof fn law_get_after_remove(m: Map<Seq<char>, Seq<char>>, name: Seq<char>, other: Seq<char>)
    ensures
        lookup(m.remove(name), name) is None,
        other != name ==> lookup(m.remove(name), other) == lookup(m, other),
{
}

/// A default set through `set_default_token` refers to a stored token, and the
/// default token is then that token.
pub proof fn law_default_after_set(m: Map<Seq<char>, Seq<char>>, name: Seq<char>, r: Option<Seq<char>>)
    requires
        m.dom().contains(name),
        is_default_token(m, Some(name), r),
    ensures
        r == Some(m[name]),
{
}

/// Removing the default token clears the default; removing another one keeps
/// the default and its token.
pub proof fn law_default_after_remove(m: Map<Seq<char>, Seq<char>>, d: Seq<char>, name: Seq<char>)
    ensures
        d == name ==> default_after_remove(Some(d), name) is None,
        d != name ==> default_after_remove(Some(d), name) == Some(d)
            && lookup(m.remove(name), d) == lookup(m, d),
{
}

} // verus!
