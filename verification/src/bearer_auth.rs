//! Bearer-token authentication: reading the `Authorization` header, the
//! checks made on a verified token, and the `WWW-Authenticate` challenge.

use std::sync::Arc;
use vstd::prelude::*;
use vstd::string::StrSliceExecFns;
use vstd::string::StringExecFns;
use crate::text::{chars_of, str_eq};

verus! {

/// `c` with ASCII upper-case letters mapped to lower case, as a code point.
pub open spec fn ascii_fold(c: char) -> u32 {
    if 'A' <= c && c <= 'Z' {
        (c as u32 + 32) as u32
    } else {
        c as u32
    }
}

/// std's `eq_ignore_ascii_case` on character sequences.
pub open spec fn eq_ignore_ascii_case(a: Seq<char>, b: Seq<char>) -> bool {
    a.len() == b.len() && forall|i: int| 0 <= i < a.len() ==> ascii_fold(#[trigger] a[i]) == ascii_fold(b[i])
}

/// Position of the first space in `s`, if any.
pub open spec fn first_space(s: Seq<char>) -> Option<int> {
    if exists|i: int| 0 <= i < s.len() && s[i] == ' ' {
        Some(choose|i: int| 0 <= i < s.len() && s[i] == ' ' && forall|j: int| 0 <= j < i ==> s[j] != ' ')
    } else {
        None
    }
}

/// The token in an `Authorization` header value: the header is split once at
/// its first space, and the part before it must be `bearer` in any case.
pub open spec fn bearer_token_of(header: Seq<char>) -> Option<Seq<char>> {
    match first_space(header) {
        Some(i) => if eq_ignore_ascii_case(header.take(i), "bearer"@) {
            Some(header.skip(i + 1))
        } else {
            None
        },
        None => None,
    }
}

proof fn lemma_first_space(s: Seq<char>, i: int)
    requires
        0 <= i < s.len(),
        s[i] == ' ',
        forall|j: int| 0 <= j < i ==> s[j] != ' ',
    ensures
        first_space(s) == Some(i),
{
    let k = choose|k: int| 0 <= k < s.len() && s[k] == ' ' && forall|j: int| 0 <= j < k ==> s[j] != ' ';
    if k < i {
        assert(s[k] != ' ');
    }
    if i < k {
        assert(s[i] != ' ');
    }
}

fn fold(c: char) -> (r: u32)
    ensures
        r == ascii_fold(c),
{
    if 'A' <= c && c <= 'Z' {
        c as u32 + 32
    } else {
        c as u32
    }
}

/// Parses a Bearer token out of an `Authorization` header value.
pub fn parse_bearer_token(header: &str) -> (r: Option<&str>)
    ensures
        opt_view(r) == bearer_token_of(header@),
{
    let v = chars_of(header);
    let mut i: usize = 0;
    while i < v.len() && v[i] != ' '
        invariant
            i <= v@.len(),
            v@ == header@,
            forall|j: int| 0 <= j < i ==> v@[j] != ' ',
        decreases v.len() - i,
    {
        i = i + 1;
    }
    if i == v.len() {
        assert(!exists|j: int| 0 <= j < header@.len() && header@[j] == ' ');
        return None;
    }
    proof {
        lemma_first_space(header@, i as int);
        reveal_strlit("bearer");
    }
    let scheme_ok = i == 6 && fold(v[0]) == 'b' as u32 && fold(v[1]) == 'e' as u32 && fold(v[2])
        == 'a' as u32 && fold(v[3]) == 'r' as u32 && fold(v[4]) == 'e' as u32 && fold(v[5]) == 'r'
        as u32;
    proof {
        let b = "bearer"@;
        if scheme_ok {
            assert forall|j: int| 0 <= j < header@.take(i as int).len() implies ascii_fold(
                #[trigger] header@.take(i as int)[j],
            ) == ascii_fold(b[j]) by {
                assert(0 <= j < 6);
            }
        }
        if eq_ignore_ascii_case(header@.take(i as int), b) {
            assert(ascii_fold(header@.take(i as int)[0]) == ascii_fold(b[0]));
            assert(ascii_fold(header@.take(i as int)[1]) == ascii_fold(b[1]));
            assert(ascii_fold(header@.take(i as int)[2]) == ascii_fold(b[2]));
            assert(ascii_fold(header@.take(i as int)[3]) == ascii_fold(b[3]));
            assert(ascii_fold(header@.take(i as int)[4]) == ascii_fold(b[4]));
            assert(ascii_fold(header@.take(i as int)[5]) == ascii_fold(b[5]));
        }
    }
    if scheme_ok {
        let n = header.unicode_len();
        Some(header.substring_char(i + 1, n))
    } else {
        None
    }
}

/// A header made of the scheme `bearer`, written in any case, a space and a
/// token gives back exactly that token, whatever it holds (spaces included).
pub proof fn law_bearer_header_gives_token(scheme: Seq<char>, token: Seq<char>)
    requires
        eq_ignore_ascii_case(scheme, "bearer"@),
    ensures
        bearer_token_of(scheme + seq![' '] + token) == Some(token),
{
    reveal_strlit("bearer");
    let h = scheme + seq![' '] + token;
    let n = scheme.len() as int;
    assert forall|j: int| 0 <= j < n implies h[j] != ' ' by {
        assert(h[j] == scheme[j]);
        assert(ascii_fold(scheme[j]) == ascii_fold("bearer"@[j]));
        assert(0 <= j < 6);
    }
    assert(h[n] == ' ');
    lemma_first_space(h, n);
    assert(h.take(n) =~= scheme);
    assert(h.skip(n + 1) =~= token);
}

/// The characters of an optional string slice.
pub open spec fn opt_view(o: Option<&str>) -> Option<Seq<char>> {
    match o {
        Some(s) => Some(s@),
        None => None,
    }
}

/// `parts` joined with single spaces.
pub open spec fn join_spaces(parts: Seq<Seq<char>>) -> Seq<char>
    decreases parts.len(),
{
    if parts.len() == 0 {
        Seq::empty()
    } else if parts.len() == 1 {
        parts[0]
    } else {
        join_spaces(parts.drop_last()) + " "@ + parts.last()
    }
}

/// The value of the `WWW-Authenticate` header sent with a refused request.
pub open spec fn www_authenticate_value(
    error: Seq<char>,
    description: Seq<char>,
    scopes: Seq<Seq<char>>,
    metadata_url: Option<Seq<char>>,
) -> Seq<char> {
    let base = "Bearer error=\""@ + error + "\", error_description=\""@ + description + "\""@;
    let with_scope = if scopes.len() > 0 {
        base + ", scope=\""@ + join_spaces(scopes) + "\""@
    } else {
        base
    };
    match metadata_url {
        Some(url) => with_scope + ", resource_metadata=\""@ + url + "\""@,
        None => with_scope,
    }
}

/// The views of a list of strings.
pub open spec fn views(v: Seq<String>) -> Seq<Seq<char>> {
    v.map_values(|s: String| s@)
}

/// Options for bearer authentication.
pub struct BearerAuthOptions {
    /// Scopes that a token must carry.
    pub required_scopes: Vec<String>,
    /// URL of the protected resource metadata, announced in `WWW-Authenticate`.
    pub resource_metadata_url: Option<String>,
}

impl Default for BearerAuthOptions {
    fn default() -> (o: BearerAuthOptions)
        ensures
            o.required_scopes@.len() == 0,
            o.resource_metadata_url is None,
    {
        BearerAuthOptions { required_scopes: Vec::new(), resource_metadata_url: None }
    }
}

impl BearerAuthOptions {
    /// Options with no required scope and no metadata URL.
    pub fn new() -> (o: BearerAuthOptions)
        ensures
            o.required_scopes@.len() == 0,
            o.resource_metadata_url is None,
    {
        BearerAuthOptions::default()
    }

    /// Sets the required scopes.
    pub fn with_scopes(self, scopes: Vec<String>) -> (o: BearerAuthOptions)
        ensures
            o.required_scopes == scopes,
            o.resource_metadata_url == self.resource_metadata_url,
    {
        BearerAuthOptions { required_scopes: scopes, resource_metadata_url: self.resource_metadata_url }
    }

    /// Sets the protected resource metadata URL.
    pub fn with_resource_metadata_url(self, url: String) -> (o: BearerAuthOptions)
        ensures
            o.required_scopes == self.required_scopes,
            o.resource_metadata_url == Some(url),
    {
        BearerAuthOptions { required_scopes: self.required_scopes, resource_metadata_url: Some(url) }
    }
}

/// Why a request was refused: HTTP status, OAuth error code and description.
pub struct AuthRejection {
    pub status: u16,
    pub error: String,
    pub description: String,
}

impl AuthRejection {
    /// The `WWW-Authenticate` value that goes with this refusal.
    pub fn www_authenticate(&self, options: &BearerAuthOptions) -> (r: String)
        ensures
            r@ == www_authenticate_value(
                self.error@,
                self.description@,
                views(options.required_scopes@),
                crate::token_config::opt_string_view(options.resource_metadata_url),
            ),
    {
        let mut r = String::from_str("Bearer error=\"");
        r.append(self.error.as_str());
        r.append("\", error_description=\"");
        r.append(self.description.as_str());
        r.append("\"");
        if options.required_scopes.len() > 0 {
            r.append(", scope=\"");
            let joined = join_with_spaces(&options.required_scopes);
            r.append(joined.as_str());
            r.append("\"");
        }
        match &options.resource_metadata_url {
            Some(url) => {
                r.append(", resource_metadata=\"");
                r.append(url.as_str());
                r.append("\"");
            },
            None => {},
        }
        r
    }
}

/// `parts` joined with single spaces.
pub fn join_with_spaces(parts: &Vec<String>) -> (r: String)
    ensures
        r@ == join_spaces(views(parts@)),
{
    let mut r = String::new();
    let mut i: usize = 0;
    while i < parts.len()
        invariant
            i <= parts@.len(),
            r@ == join_spaces(views(parts@.take(i as int))),
        decreases parts.len() - i,
    {
        let ghost prev = parts@.take(i as int);
        if i > 0 {
            r.append(" ");
        }
        r.append(parts[i].as_str());
        proof {
            let next = parts@.take(i + 1);
            assert(next.drop_last() == prev);
            assert(views(next).drop_last() == views(prev));
        }
        i = i + 1;
    }
    assert(parts@.take(parts@.len() as int) == parts@);
    r
}

fn rejection(status: u16, error: &str, description: &str) -> (r: AuthRejection)
    ensures
        r.status == status,
        r.error@ == error@,
        r.description@ == description@,
{
    AuthRejection { status, error: String::from_str(error), description: String::from_str(description) }
}

/// The `Authorization` header of a request: absent, present but not visible
/// ASCII text, or present as text.
pub enum AuthorizationHeader<'a> {
    Missing,
    Unreadable,
    Text(&'a str),
}

/// The first step of bearer authentication: the header must be there, be
/// text, and hold `Bearer TOKEN`. Gives the token or the refusal.
pub fn check_authorization_header<'a>(header: AuthorizationHeader<'a>) -> (r: Result<&'a str, AuthRejection>)
    ensures
        match header {
            AuthorizationHeader::Missing => r matches Err(e) && e.status == 401
                && e.error@ == "invalid_token"@ && e.description@ == "Missing Authorization header"@,
            AuthorizationHeader::Unreadable => r matches Err(e) && e.status == 401
                && e.error@ == "invalid_token"@ && e.description@ == "Invalid Authorization header encoding"@,
            AuthorizationHeader::Text(h) => match bearer_token_of(h@) {
                Some(t) => r matches Ok(tok) && tok@ == t,
                None => r matches Err(e) && e.status == 401 && e.error@ == "invalid_token"@
                    && e.description@ == "Invalid Authorization header format, expected 'Bearer TOKEN'"@,
            },
        },
{
    match header {
        AuthorizationHeader::Missing => Err(rejection(401, "invalid_token", "Missing Authorization header")),
        AuthorizationHeader::Unreadable => Err(
            rejection(401, "invalid_token", "Invalid Authorization header encoding"),
        ),
        AuthorizationHeader::Text(h) => match parse_bearer_token(h) {
            Some(t) => Ok(t),
            None => Err(
                rejection(
                    401,
                    "invalid_token",
                    "Invalid Authorization header format, expected 'Bearer TOKEN'",
                ),
            ),
        },
    }
}

/// What the token verifier said of a token.
pub enum TokenVerification {
    /// The token is known: whether it has expired, and the scopes it carries.
    Verified { expired: bool, scopes: Vec<String> },
    /// The verifier called the token invalid, with this message.
    InvalidToken(String),
    /// The verifier failed otherwise, with this message.
    OtherError(String),
}

/// Every scope in `required` is among `granted`.
pub open spec fn has_scopes(granted: Seq<Seq<char>>, required: Seq<Seq<char>>) -> bool {
    forall|i: int| 0 <= i < required.len() ==> granted.contains(#[trigger] required[i])
}

fn contains_string(v: &Vec<String>, s: &String) -> (b: bool)
    ensures
        b == views(v@).contains(s@),
{
    let mut i: usize = 0;
    while i < v.len()
        invariant
            i <= v@.len(),
            forall|j: int| 0 <= j < i ==> v@[j]@ != s@,
        decreases v.len() - i,
    {
        if v[i] == *s {
            assert(views(v@)[i as int] == s@);
            return true;
        }
        i = i + 1;
    }
    proof {
        if views(v@).contains(s@) {
            let j = choose|j: int| 0 <= j < views(v@).len() && views(v@)[j] == s@;
            assert(v@[j]@ == s@);
        }
    }
    false
}

/// The second step of bearer authentication, once the verifier has answered:
/// a refused or expired token is a 401, missing scopes a 403.
pub fn check_verified_token(verification: TokenVerification, options: &BearerAuthOptions) -> (r: Result<(), AuthRejection>)
    ensures
        match verification {
            TokenVerification::InvalidToken(msg) => r matches Err(e) && e.status == 401
                && e.error@ == "invalid_token"@ && e.description@ == msg@,
            TokenVerification::OtherError(msg) => r matches Err(e) && e.status == 401
                && e.error@ == "server_error"@ && e.description@ == msg@,
            TokenVerification::Verified { expired, scopes } => if expired {
                r matches Err(e) && e.status == 401 && e.error@ == "invalid_token"@
                    && e.description@ == "Token has expired"@
            } else if !has_scopes(views(scopes@), views(options.required_scopes@)) {
                r matches Err(e) && e.status == 403 && e.error@ == "insufficient_scope"@
                    && e.description@ == "Insufficient scope"@
            } else {
                r is Ok
            },
        },
{
    match verification {
        TokenVerification::InvalidToken(msg) => Err(
            AuthRejection { status: 401, error: String::from_str("invalid_token"), description: msg },
        ),
        TokenVerification::OtherError(msg) => Err(
            AuthRejection { status: 401, error: String::from_str("server_error"), description: msg },
        ),
        TokenVerification::Verified { expired, scopes } => {
            if expired {
                return Err(rejection(401, "invalid_token", "Token has expired"));
            }
            let mut i: usize = 0;
            while i < options.required_scopes.len()
                invariant
                    i <= options.required_scopes@.len(),
                    verification == (TokenVerification::Verified { expired, scopes }),
                    !expired,
                    forall|j: int| 0 <= j < i ==> views(scopes@).contains(#[trigger] views(options.required_scopes@)[j]),
                decreases options.required_scopes.len() - i,
            {
                if !contains_string(&scopes, &options.required_scopes[i]) {
                    assert(views(options.required_scopes@)[i as int] == options.required_scopes@[i as int]@);
                    assert(!has_scopes(views(scopes@), views(options.required_scopes@)));
                    return Err(rejection(403, "insufficient_scope", "Insufficient scope"));
                }
                i = i + 1;
            }
            assert(has_scopes(views(scopes@), views(options.required_scopes@)));
            Ok(())
        },
    }
}

/// Layer that puts bearer authentication in front of a service.
pub struct BearerAuthLayer<V> {
    pub verifier: Arc<V>,
    pub options: BearerAuthOptions,
}

impl<V> BearerAuthLayer<V> {
    /// A layer with default options.
    pub fn new(verifier: Arc<V>) -> (l: BearerAuthLayer<V>)
        ensures
            l.verifier == verifier,
            l.options.required_scopes@.len() == 0,
            l.options.resource_metadata_url is None,
    {
        BearerAuthLayer { verifier, options: BearerAuthOptions::default() }
    }

    /// A layer with the given options.
    pub fn with_options(verifier: Arc<V>, options: BearerAuthOptions) -> (l: BearerAuthLayer<V>)
        ensures
            l.verifier == verifier,
            l.options == options,
    {
        BearerAuthLayer { verifier, options }
    }
}

/// A service wrapped by bearer authentication.
pub struct BearerAuthMiddleware<S, V> {
    pub inner: S,
    pub verifier: Arc<V>,
    pub options: BearerAuthOptions,
}

impl BearerAuthOptions {
    /// A copy of these options.
    pub fn duplicate(&self) -> (o: BearerAuthOptions)
        ensures
            views(o.required_scopes@) == views(self.required_scopes@),
            crate::token_config::opt_string_view(o.resource_metadata_url)
                == crate::token_config::opt_string_view(self.resource_metadata_url),
    {
        let mut scopes: Vec<String> = Vec::new();
        let mut i: usize = 0;
        while i < self.required_scopes.len()
            invariant
                i <= self.required_scopes@.len(),
                views(scopes@) == views(self.required_scopes@).take(i as int),
            decreases self.required_scopes.len() - i,
        {
            scopes.push(String::from_str(self.required_scopes[i].as_str()));
            assert(views(self.required_scopes@).take(i + 1) =~= views(self.required_scopes@).take(i as int).push(
                self.required_scopes@[i as int]@,
            ));
            assert(views(scopes@) =~= views(self.required_scopes@).take(i + 1));
            i = i + 1;
        }
        assert(views(self.required_scopes@).take(self.required_scopes@.len() as int) =~= views(self.required_scopes@));
        let url = match &self.resource_metadata_url {
            Some(u) => Some(String::from_str(u.as_str())),
            None => None,
        };
        BearerAuthOptions { required_scopes: scopes, resource_metadata_url: url }
    }
}

impl<V> BearerAuthLayer<V> {
    /// Puts `inner` behind bearer authentication with this layer's verifier
    /// and a copy of its options.
    pub fn layer<S>(&self, inner: S) -> (m: BearerAuthMiddleware<S, V>)
        ensures
            m.inner == inner,
            *m.verifier == *self.verifier,
            views(m.options.required_scopes@) == views(self.options.required_scopes@),
            crate::token_config::opt_string_view(m.options.resource_metadata_url)
                == crate::token_config::opt_string_view(self.options.resource_metadata_url),
    {
        BearerAuthMiddleware {
            inner,
            verifier: crate::dns_protection::share(&self.verifier),
            options: self.options.duplicate(),
        }
    }
}

} // verus!
