//! Rules of the OAuth endpoints: the token endpoint (client check, grant
//! types, PKCE) and dynamic client registration.

use vstd::prelude::*;
use sha2::Digest;
use base64::Engine;
use vstd::string::StringExecFns;
use crate::text::{chars_of, is_ws, is_whitespace, str_eq, string_of, trim_start};
use crate::urls::{is_valid_url, parse_url};

verus! {

/// Token request parameters (form fields of the token endpoint).
pub struct TokenRequest {
    pub grant_type: String,
    pub code: Option<String>,
    pub redirect_uri: Option<String>,
    pub client_id: Option<String>,
    pub client_secret: Option<String>,
    pub code_verifier: Option<String>,
    pub refresh_token: Option<String>,
    pub scope: Option<String>,
    pub resource: Option<String>,
}

/// A refused OAuth request: HTTP status, OAuth error code, description.
pub struct OAuthFailure {
    pub status: u16,
    pub error: String,
    pub description: String,
}

/// `f` is this failure.
pub open spec fn is_failure(f: OAuthFailure, status: u16, error: Seq<char>, description: Seq<char>) -> bool {
    f.status == status && f.error@ == error && f.description@ == description
}

fn failure(status: u16, error: &str, description: &str) -> (f: OAuthFailure)
    ensures
        is_failure(f, status, error@, description@),
{
    OAuthFailure { status, error: String::from_str(error), description: String::from_str(description) }
}

/// The SHA-256 digest of `data`, as computed by the `sha2` crate.
pub uninterp spec fn sha256_of(data: Seq<u8>) -> Seq<u8>;

/// The URL-safe base64 encoding without padding of `data`, as computed by
/// the `base64` crate (`URL_SAFE_NO_PAD`).
pub uninterp spec fn base64_url_of(data: Seq<u8>) -> Seq<char>;

/// `sha2::Sha256::digest`. Claimed: the result is the named digest of the
/// input, 32 bytes long.
#[verifier::external_body]
fn sha256(data: &[u8]) -> (r: Vec<u8>)
    ensures
        r@ == sha256_of(data@),
        r@.len() == 32,
{
    sha2::Sha256::digest(data).to_vec()
}

/// `base64::engine::general_purpose::URL_SAFE_NO_PAD.encode`. Claimed: the
/// result is the named encoding of the input.
#[verifier::external_body]
fn base64_url(data: &[u8]) -> (r: String)
    ensures
        r@ == base64_url_of(data@),
{
    base64::engine::general_purpose::URL_SAFE_NO_PAD.encode(data)
}

/// The PKCE S256 check: the challenge is the URL-safe, unpadded base64 of
/// the SHA-256 of the verifier's UTF-8 bytes.
pub open spec fn pkce_matches(verifier: Seq<char>, challenge: Seq<char>) -> bool {
    base64_url_of(sha256_of(vstd::utf8::encode_utf8(verifier))) == challenge
}

/// Verifies a PKCE code challenge against a code verifier.
pub fn verify_pkce_challenge(verifier: &str, challenge: &str) -> (b: bool)
    ensures
        b == pkce_matches(verifier@, challenge@),
{
    let hash = sha256(verifier.as_bytes());
    let computed = base64_url(hash.as_slice());
    str_eq(computed.as_str(), challenge)
}

/// The words of `s`: its maximal runs of non-whitespace, in order (std's
/// `str::split_whitespace`).
pub open spec fn split_ws(s: Seq<char>) -> Seq<Seq<char>>
    decreases s.len(),
{
    let t = trim_start(s);
    if t.len() == 0 {
        Seq::empty()
    } else {
        let k = word_len(t);
        proof {
            lemma_trim_start_len(s);
            lemma_trim_start_first(s);
            lemma_word_len_bounds(t);
        }
        seq![t.take(k)] + split_ws(t.skip(k))
    }
}

/// What `trim_start` leaves does not start with whitespace.
pub proof fn lemma_trim_start_first(s: Seq<char>)
    ensures
        trim_start(s).len() > 0 ==> !is_ws(trim_start(s)[0]),
    decreases s.len(),
{
    if s.len() > 0 && is_ws(s[0]) {
        lemma_trim_start_first(s.drop_first());
    }
}

/// The first word of `t` fits in `t`, and is not empty when `t` starts with
/// a character that is not whitespace.
pub proof fn lemma_word_len_bounds(t: Seq<char>)
    ensures
        0 <= word_len(t) <= t.len(),
        t.len() > 0 && !is_ws(t[0]) ==> word_len(t) >= 1,
    decreases t.len(),
{
    if t.len() > 0 && !is_ws(t[0]) {
        lemma_word_len_bounds(t.drop_first());
    }
}

/// Length of the run of non-whitespace at the start of `t`.
pub open spec fn word_len(t: Seq<char>) -> int
    decreases t.len(),
{
    if t.len() == 0 || is_ws(t[0]) {
        0
    } else {
        1 + word_len(t.drop_first())
    }
}

/// What `trim_start` leaves is a suffix of its input.
pub proof fn lemma_trim_start_len(s: Seq<char>)
    ensures
        trim_start(s).len() <= s.len(),
        exists|k: int| 0 <= k <= s.len() && trim_start(s) == s.skip(k),
    decreases s.len(),
{
    if s.len() > 0 && is_ws(s[0]) {
        lemma_trim_start_len(s.drop_first());
        let k = choose|k: int| 0 <= k <= s.drop_first().len() && trim_start(s.drop_first()) == s.drop_first().skip(k);
        assert(s.drop_first().skip(k) == s.skip(k + 1));
    } else {
        assert(s.skip(0) == s);
    }
}

proof fn lemma_word_chars(t: Seq<char>, j: int)
    requires
        0 <= j < word_len(t),
    ensures
        !is_ws(t[j]),
    decreases t.len(),
{
    lemma_word_len_bounds(t);
    if j > 0 {
        lemma_word_chars(t.drop_first(), j - 1);
        assert(t.drop_first()[j - 1] == t[j]);
    }
}

/// The words of a string are never empty and hold no whitespace.
pub proof fn law_words_are_nonempty_without_whitespace(s: Seq<char>)
    ensures
        forall|i: int| 0 <= i < split_ws(s).len() ==> (#[trigger] split_ws(s)[i]).len() > 0,
        forall|i: int, j: int| 0 <= i < split_ws(s).len() && 0 <= j < split_ws(s)[i].len() ==> !is_ws(
            #[trigger] split_ws(s)[i][j],
        ),
    decreases s.len(),
{
    let t = trim_start(s);
    if t.len() > 0 {
        let k = word_len(t);
        lemma_trim_start_len(s);
        lemma_trim_start_first(s);
        lemma_word_len_bounds(t);
        law_words_are_nonempty_without_whitespace(t.skip(k));
        let rest = split_ws(t.skip(k));
        assert(split_ws(s) == seq![t.take(k)] + rest);
        assert forall|i: int, j: int| 0 <= i < split_ws(s).len() && 0 <= j < split_ws(s)[i].len() implies !is_ws(
            #[trigger] split_ws(s)[i][j],
        ) by {
            if i == 0 {
                assert(split_ws(s)[0] == t.take(k));
                lemma_word_chars(t, j);
            } else {
                assert(split_ws(s)[i] == rest[i - 1]);
            }
        }
        assert forall|i: int| 0 <= i < split_ws(s).len() implies (#[trigger] split_ws(s)[i]).len() > 0 by {
            if i > 0 {
                assert(split_ws(s)[i] == rest[i - 1]);
            }
        }
    }
}

proof fn lemma_word_len(t: Seq<char>, k: int)
    requires
        0 <= k <= t.len(),
        forall|j: int| 0 <= j < k ==> !is_ws(t[j]),
        k == t.len() || is_ws(t[k]),
    ensures
        word_len(t) == k,
    decreases k,
{
    if k > 0 {
        assert forall|j: int| 0 <= j < k - 1 implies !is_ws(t.drop_first()[j]) by {
            assert(t.drop_first()[j] == t[j + 1]);
        }
        lemma_word_len(t.drop_first(), k - 1);
    }
}

proof fn lemma_trim_start_at(s: Seq<char>, i: int, j: int)
    requires
        0 <= i <= j <= s.len(),
        forall|m: int| i <= m < j ==> is_ws(s[m]),
        j == s.len() || !is_ws(s[j]),
    ensures
        trim_start(s.skip(i)) == s.skip(j),
    decreases j - i,
{
    if i < j {
        assert(s.skip(i).drop_first() == s.skip(i + 1));
        lemma_trim_start_at(s, i + 1, j);
    } else {
        if s.skip(i).len() > 0 {
            assert(s.skip(i)[0] == s[i]);
        }
    }
}

/// The words of a string, separated by whitespace.
pub fn split_whitespace(s: &str) -> (r: Vec<String>)
    ensures
        r@.map_values(|w: String| w@) == split_ws(s@),
{
    let v = chars_of(s);
    let mut words: Vec<String> = Vec::new();
    let mut i: usize = 0;
    assert(v@.skip(0) == v@);
    while i < v.len()
        invariant
            i <= v@.len(),
            v@ == s@,
            words@.map_values(|w: String| w@) + split_ws(v@.skip(i as int)) == split_ws(v@),
        decreases v.len() - i,
    {
        let ghost i0 = i as int;
        while i < v.len() && is_whitespace(v[i])
            invariant
                i0 <= i <= v@.len(),
                forall|m: int| i0 <= m < i ==> is_ws(v@[m]),
            decreases v.len() - i,
        {
            i = i + 1;
        }
        proof {
            lemma_trim_start_at(v@, i0, i as int);
        }
        if i == v.len() {
            proof {
                assert(v@.skip(i as int).len() == 0);
                assert(split_ws(v@.skip(i0)) == Seq::<Seq<char>>::empty());
                assert(words@.map_values(|w: String| w@) + Seq::<Seq<char>>::empty() == words@.map_values(|w: String| w@));
                assert(split_ws(v@.skip(i as int)) == Seq::<Seq<char>>::empty());
            }
        } else {
            let start = i;
            let mut word: Vec<char> = Vec::new();
            while i < v.len() && !is_whitespace(v[i])
                invariant
                    start <= i <= v@.len(),
                    word@ == v@.subrange(start as int, i as int),
                    forall|m: int| start <= m < i ==> !is_ws(v@[m]),
                decreases v.len() - i,
            {
                word.push(v[i]);
                assert(v@.subrange(start as int, i + 1) == v@.subrange(start as int, i as int).push(v@[i as int]));
                i = i + 1;
            }
            let w = string_of(&word);
            proof {
                let t = v@.skip(start as int);
                assert forall|m: int| 0 <= m < i - start implies !is_ws(t[m]) by {
                    assert(t[m] == v@[start + m]);
                }
                if i < v.len() {
                    assert(t[i - start] == v@[i as int]);
                }
                lemma_word_len(t, i - start);
                assert(t.len() > 0 && t[0] == v@[start as int]);
                assert(trim_start(v@.skip(i0)) == t);
                assert(t.take(i - start) == v@.subrange(start as int, i as int));
                assert(t.skip(i - start) == v@.skip(i as int));
                assert(split_ws(v@.skip(i0)) == seq![w@] + split_ws(v@.skip(i as int)));
                let old_words = words@.map_values(|x: String| x@);
                assert(words@.push(w).map_values(|x: String| x@) == old_words.push(w@));
                assert(old_words.push(w@) + split_ws(v@.skip(i as int)) == old_words + (seq![w@] + split_ws(v@.skip(i as int))));
            }
            words.push(w);
        }
    }
    proof {
        assert(v@.skip(i as int).len() == 0);
        assert(trim_start(v@.skip(i as int)).len() == 0) by {
            lemma_trim_start_len(v@.skip(i as int));
        }
        assert(words@.map_values(|w: String| w@) + Seq::<Seq<char>>::empty() == words@.map_values(|w: String| w@));
    }
    words
}

/// What the client store said of the client of a request.
pub enum ClientLookup {
    /// The client is registered, with this secret if it has one.
    Found { client_secret: Option<String> },
    /// No such client.
    NotFound,
    /// The store failed, with this message.
    Failed(String),
}

/// The grant the token endpoint goes on with.
pub enum GrantPlan {
    /// Authorization-code grant; the PKCE check is made when `check_pkce`.
    AuthorizationCode { code: String, code_verifier: Option<String>, check_pkce: bool },
    /// Refresh-token grant, with the requested scopes split at whitespace.
    RefreshToken { refresh_token: String, scopes: Option<Vec<String>> },
}

/// The client id of a token request; a request without one is refused.
pub fn token_request_client_id(request: &TokenRequest) -> (r: Result<String, OAuthFailure>)
    ensures
        match request.client_id {
            Some(id) => r matches Ok(c) && c@ == id@,
            None => r matches Err(f) && is_failure(f, 400, "invalid_request"@, "client_id is required"@),
        },
{
    match &request.client_id {
        Some(id) => Ok(id.clone()),
        None => Err(failure(400, "invalid_request", "client_id is required")),
    }
}

/// The grant a token request goes on with, once its client has been looked
/// up: an unknown client, a store failure or a wrong secret is refused; then
/// the grant type decides.
pub fn plan_token_grant(request: &TokenRequest, lookup: ClientLookup, skip_pkce: bool) -> (r: Result<GrantPlan, OAuthFailure>)
    ensures
        match lookup {
            ClientLookup::NotFound => r matches Err(f) && is_failure(f, 401, "invalid_client"@, "Unknown client"@),
            ClientLookup::Failed(msg) => r matches Err(f) && is_failure(f, 500, "server_error"@, msg@),
            ClientLookup::Found { client_secret } => if client_secret matches Some(expected) && !(
            request.client_secret matches Some(given) && given@ == expected@) {
                r matches Err(f) && is_failure(f, 401, "invalid_client"@, "Invalid client credentials"@)
            } else if request.grant_type@ == "authorization_code"@ {
                match request.code {
                    None => r matches Err(f) && is_failure(
                        f,
                        400,
                        "invalid_request"@,
                        "code is required for authorization_code grant"@,
                    ),
                    Some(code) => if !skip_pkce && request.code_verifier is None {
                        r matches Err(f) && is_failure(f, 400, "invalid_request"@, "code_verifier is required"@)
                    } else {
                        r matches Ok(GrantPlan::AuthorizationCode { code: c, code_verifier: v, check_pkce })
                            && c@ == code@ && check_pkce == !skip_pkce
                            && crate::token_config::opt_string_view(v)
                            == crate::token_config::opt_string_view(request.code_verifier)
                    },
                }
            } else if request.grant_type@ == "refresh_token"@ {
                match request.refresh_token {
                    None => r matches Err(f) && is_failure(
                        f,
                        400,
                        "invalid_request"@,
                        "refresh_token is required for refresh_token grant"@,
                    ),
                    Some(t) => r matches Ok(GrantPlan::RefreshToken { refresh_token: rt, scopes })
                        && rt@ == t@ && match request.scope {
                        None => scopes is None,
                        Some(sc) => scopes matches Some(v) && v@.map_values(|w: String| w@) == split_ws(sc@),
                    },
                }
            } else {
                r matches Err(f) && is_failure(
                    f,
                    400,
                    "unsupported_grant_type"@,
                    "Unsupported grant type: "@ + request.grant_type@,
                )
            },
        },
{
    let client_secret = match lookup {
        ClientLookup::NotFound => {
            return Err(failure(401, "invalid_client", "Unknown client"));
        },
        ClientLookup::Failed(msg) => {
            return Err(OAuthFailure { status: 500, error: String::from_str("server_error"), description: msg });
        },
        ClientLookup::Found { client_secret } => client_secret,
    };
    if let Some(expected) = &client_secret {
        let ok = match &request.client_secret {
            Some(given) => *given == *expected,
            None => false,
        };
        if !ok {
            return Err(failure(401, "invalid_client", "Invalid client credentials"));
        }
    }
    if str_eq(request.grant_type.as_str(), "authorization_code") {
        let code = match &request.code {
            Some(c) => c.clone(),
            None => {
                return Err(failure(400, "invalid_request", "code is required for authorization_code grant"));
            },
        };
        if !skip_pkce && request.code_verifier.is_none() {
            return Err(failure(400, "invalid_request", "code_verifier is required"));
        }
        let code_verifier = match &request.code_verifier {
            Some(v) => Some(v.clone()),
            None => None,
        };
        Ok(GrantPlan::AuthorizationCode { code, code_verifier, check_pkce: !skip_pkce })
    } else if str_eq(request.grant_type.as_str(), "refresh_token") {
        let refresh_token = match &request.refresh_token {
            Some(t) => t.clone(),
            None => {
                return Err(
                    failure(400, "invalid_request", "refresh_token is required for refresh_token grant"),
                );
            },
        };
        let scopes = match &request.scope {
            Some(s) => Some(split_whitespace(s.as_str())),
            None => None,
        };
        Ok(GrantPlan::RefreshToken { refresh_token, scopes })
    } else {
        let mut d = String::from_str("Unsupported grant type: ");
        d.append(request.grant_type.as_str());
        Err(OAuthFailure { status: 400, error: String::from_str("unsupported_grant_type"), description: d })
    }
}

/// The PKCE step of an authorization-code grant, given what the provider
/// said the code's challenge is (or its error code and message).
pub fn check_code_challenge(code_verifier: &str, challenge: Result<String, (String, String)>) -> (r: Result<(), OAuthFailure>)
    ensures
        match challenge {
            Err((code, msg)) => r matches Err(f) && f.status == 400 && f.error == code && f.description == msg,
            Ok(c) => if pkce_matches(code_verifier@, c@) {
                r is Ok
            } else {
                r matches Err(f) && is_failure(f, 400, "invalid_grant"@, "Invalid code_verifier"@)
            },
        },
{
    match challenge {
        Err((code, msg)) => Err(OAuthFailure { status: 400, error: code, description: msg }),
        Ok(c) => if verify_pkce_challenge(code_verifier, c.as_str()) {
            Ok(())
        } else {
            Err(failure(400, "invalid_grant", "Invalid code_verifier"))
        },
    }
}

/// Checks the metadata of a client asking to register: it needs at least one
/// redirect URI, and each must be a URL. Gives the first refusal.
pub fn check_client_metadata(redirect_uris: &Vec<String>) -> (r: Result<(), OAuthFailure>)
    ensures
        redirect_uris@.len() == 0 ==> (r matches Err(f) && is_failure(
            f,
            400,
            "invalid_client_metadata"@,
            "redirect_uris is required"@,
        )),
        redirect_uris@.len() > 0 ==> match r {
            Ok(()) => forall|i: int| 0 <= i < redirect_uris@.len() ==> is_valid_url(#[trigger] redirect_uris@[i]@),
            Err(f) => exists|i: int| 0 <= i < redirect_uris@.len() && !is_valid_url(#[trigger] redirect_uris@[i]@)
                && (forall|j: int| 0 <= j < i ==> is_valid_url(#[trigger] redirect_uris@[j]@))
                && is_failure(f, 400, "invalid_client_metadata"@, "Invalid redirect_uri: "@ + redirect_uris@[i]@),
        },
{
    if redirect_uris.len() == 0 {
        return Err(failure(400, "invalid_client_metadata", "redirect_uris is required"));
    }
    let mut i: usize = 0;
    while i < redirect_uris.len()
        invariant
            i <= redirect_uris@.len(),
            forall|j: int| 0 <= j < i ==> is_valid_url(#[trigger] redirect_uris@[j]@),
        decreases redirect_uris.len() - i,
    {
        if parse_url(redirect_uris[i].as_str()).is_err() {
            let mut d = String::from_str("Invalid redirect_uri: ");
            d.append(redirect_uris[i].as_str());
            return Err(OAuthFailure { status: 400, error: String::from_str("invalid_client_metadata"), description: d });
        }
        i = i + 1;
    }
    Ok(())
}

} // verus!
