//! The GitLab API client of the GitLab server: its errors, how it is set
//! up, how a response status is judged, and how API paths are formed.

use vstd::prelude::*;
use vstd::string::StringExecFns;
use crate::text::{decimal, trim_start_char, strip_leading, u64_to_decimal, chars_of, string_of};
use crate::urls::url_parse_outcome;
use crate::bearer_auth::views;
use crate::token_config::opt_string_view;

verus! {

/// Errors of the GitLab client. Transport, serialization and I/O failures
/// carry the text of the underlying error.
#[derive(Debug)]
pub enum GitLabError {
    ApiError(String),
    ApiResponse { status: u16, message: String },
    AuthError(String),
    NotFound(String),
    InvalidParameter(String),
    RateLimitExceeded,
    Network(String),
    Serialization(String),
    Io(String),
    Unknown(String),
}

/// The text shown for an error.
pub open spec fn gitlab_error_text(e: GitLabError) -> Seq<char> {
    match e {
        GitLabError::ApiError(m) => "GitLab API error: "@ + m@,
        GitLabError::ApiResponse { status, message } => "GitLab API returned error: "@ + decimal(status as nat)
            + " - "@ + message@,
        GitLabError::AuthError(m) => "Authentication failed: "@ + m@,
        GitLabError::NotFound(m) => "Not found: "@ + m@,
        GitLabError::InvalidParameter(m) => "Invalid parameter: "@ + m@,
        GitLabError::RateLimitExceeded => "Rate limit exceeded"@,
        GitLabError::Network(m) => "Network error: "@ + m@,
        GitLabError::Serialization(m) => "Serialization error: "@ + m@,
        GitLabError::Io(m) => "IO error: "@ + m@,
        GitLabError::Unknown(m) => "Unknown error: "@ + m@,
    }
}

fn joined(prefix: &str, rest: &str) -> (r: String)
    ensures
        r@ == prefix@ + rest@,
{
    let mut r = String::from_str(prefix);
    r.append(rest);
    r
}

impl GitLabError {
    /// An error response of the API with its status and message.
    pub fn api_response(status: u16, message: String) -> (e: GitLabError)
        ensures
            e == (GitLabError::ApiResponse { status, message }),
    {
        GitLabError::ApiResponse { status, message }
    }

    /// A missing resource.
    pub fn not_found(resource: String) -> (e: GitLabError)
        ensures
            e == GitLabError::NotFound(resource),
    {
        GitLabError::NotFound(resource)
    }

    /// A parameter that is not acceptable.
    pub fn invalid_parameter(param: String) -> (e: GitLabError)
        ensures
            e == GitLabError::InvalidParameter(param),
    {
        GitLabError::InvalidParameter(param)
    }

    /// A failed authentication.
    pub fn auth_error(msg: String) -> (e: GitLabError)
        ensures
            e == GitLabError::AuthError(msg),
    {
        GitLabError::AuthError(msg)
    }

    /// A network failure.
    pub fn network(msg: String) -> (e: GitLabError)
        ensures
            e == GitLabError::Network(msg),
    {
        GitLabError::Network(msg)
    }

    /// The text of the error.
    pub fn message(&self) -> (r: String)
        ensures
            r@ == gitlab_error_text(*self),
    {
        match self {
            GitLabError::ApiError(m) => joined("GitLab API error: ", m.as_str()),
            GitLabError::ApiResponse { status, message } => {
                let mut r = String::from_str("GitLab API returned error: ");
                let code = u64_to_decimal(*status as u64);
                r.append(code.as_str());
                r.append(" - ");
                r.append(message.as_str());
                r
            },
            GitLabError::AuthError(m) => joined("Authentication failed: ", m.as_str()),
            GitLabError::NotFound(m) => joined("Not found: ", m.as_str()),
            GitLabError::InvalidParameter(m) => joined("Invalid parameter: ", m.as_str()),
            GitLabError::RateLimitExceeded => String::from_str("Rate limit exceeded"),
            GitLabError::Network(m) => joined("Network error: ", m.as_str()),
            GitLabError::Serialization(m) => joined("Serialization error: ", m.as_str()),
            GitLabError::Io(m) => joined("IO error: ", m.as_str()),
            GitLabError::Unknown(m) => joined("Unknown error: ", m.as_str()),
        }
    }
}

/// Judges the status of an API response whose body is then decoded: success
/// (200 to 299) passes; 401 is an expired or invalid token, 404 a missing
/// resource, 429 the rate limit; any other status is an API error with the
/// body as message (`Unknown error` when the body could not be read).
pub fn check_response_status(status: u16, body: Option<String>) -> (r: Result<(), GitLabError>)
    ensures
        (200 <= status && status <= 299) ==> r is Ok,
        status == 401 ==> (r matches Err(GitLabError::AuthError(m)) && m@ == "Invalid or expired token"@),
        status == 404 ==> (r matches Err(GitLabError::NotFound(m)) && m@ == "Resource not found"@),
        status == 429 ==> (r matches Err(GitLabError::RateLimitExceeded)),
        !(200 <= status && status <= 299) && status != 401 && status != 404 && status != 429 ==> (r matches Err(
            GitLabError::ApiResponse { status: s, message: m },
        ) && s == status && m@ == body_or_unknown(body)),
{
    if 200 <= status && status <= 299 {
        Ok(())
    } else if status == 401 {
        Err(GitLabError::auth_error(String::from_str("Invalid or expired token")))
    } else if status == 404 {
        Err(GitLabError::not_found(String::from_str("Resource not found")))
    } else if status == 429 {
        Err(GitLabError::RateLimitExceeded)
    } else {
        Err(GitLabError::api_response(status, text_or_unknown(body)))
    }
}

/// Judges the status of a response whose raw bytes are wanted: as
/// [`check_response_status`], except that 429 is an ordinary API error.
pub fn check_bytes_status(status: u16, body: Option<String>) -> (r: Result<(), GitLabError>)
    ensures
        (200 <= status && status <= 299) ==> r is Ok,
        status == 401 ==> (r matches Err(GitLabError::AuthError(m)) && m@ == "Invalid or expired token"@),
        status == 404 ==> (r matches Err(GitLabError::NotFound(m)) && m@ == "Resource not found"@),
        !(200 <= status && status <= 299) && status != 401 && status != 404 ==> (r matches Err(
            GitLabError::ApiResponse { status: s, message: m },
        ) && s == status && m@ == body_or_unknown(body)),
{
    if 200 <= status && status <= 299 {
        Ok(())
    } else if status == 401 {
        Err(GitLabError::auth_error(String::from_str("Invalid or expired token")))
    } else if status == 404 {
        Err(GitLabError::not_found(String::from_str("Resource not found")))
    } else {
        Err(GitLabError::api_response(status, text_or_unknown(body)))
    }
}

/// The body text, or `Unknown error` when it could not be read.
pub open spec fn body_or_unknown(body: Option<String>) -> Seq<char> {
    match body {
        Some(t) => t@,
        None => "Unknown error"@,
    }
}

fn text_or_unknown(body: Option<String>) -> (r: String)
    ensures
        r@ == body_or_unknown(body),
{
    match body {
        Some(t) => t,
        None => String::from_str("Unknown error"),
    }
}

/// `s` cut at every `c` (std's `split` with a char): one piece more than
/// there are separators.
pub open spec fn split_on(s: Seq<char>, c: char) -> Seq<Seq<char>>
    decreases s.len(),
{
    if s.len() == 0 {
        seq![Seq::empty()]
    } else {
        let init = split_on(s.drop_last(), c);
        if s.last() == c {
            init.push(Seq::empty())
        } else {
            init.update(init.len() - 1, init.last().push(s.last()))
        }
    }
}

proof fn lemma_split_on_nonempty(s: Seq<char>, c: char)
    ensures
        split_on(s, c).len() >= 1,
    decreases s.len(),
{
    if s.len() > 0 {
        lemma_split_on_nonempty(s.drop_last(), c);
    }
}

/// The pieces of `s` between the occurrences of `c`.
pub fn split_char(s: &str, c: char) -> (r: Vec<String>)
    ensures
        views(r@) == split_on(s@, c),
{
    let v = chars_of(s);
    let mut parts: Vec<String> = Vec::new();
    let mut cur: Vec<char> = Vec::new();
    let mut i: usize = 0;
    assert(v@.take(0) =~= Seq::<char>::empty());
    assert(views(parts@).push(cur@) =~= split_on(v@.take(0), c));
    while i < v.len()
        invariant
            i <= v@.len(),
            views(parts@).push(cur@) == split_on(v@.take(i as int), c),
        decreases v.len() - i,
    {
        let ch = v[i];
        proof {
            let t = v@.take(i + 1);
            assert(t.drop_last() =~= v@.take(i as int));
            assert(t.last() == ch);
            lemma_split_on_nonempty(v@.take(i as int), c);
        }
        if ch == c {
            let piece = string_of(&cur);
            parts.push(piece);
            cur = Vec::new();
            proof {
                assert(views(parts@) =~= split_on(v@.take(i as int), c));
                assert(views(parts@).push(cur@) =~= split_on(v@.take(i + 1), c));
            }
        } else {
            let ghost old_parts = views(parts@);
            cur.push(ch);
            proof {
                let init = split_on(v@.take(i as int), c);
                assert(init.len() - 1 == old_parts.len());
                assert(views(parts@).push(cur@) =~= init.update(init.len() - 1, init.last().push(ch)));
            }
        }
        i = i + 1;
    }
    assert(v@.take(v@.len() as int) == v@);
    let last = string_of(&cur);
    parts.push(last);
    assert(views(parts@) =~= split_on(s@, c));
    parts
}

/// The path segments of an API call: `api`, `v4`, then the pieces of the
/// path between slashes, leading slashes removed first.
pub open spec fn api_segments(path: Seq<char>) -> Seq<Seq<char>> {
    seq!["api"@, "v4"@] + split_on(trim_start_char(path, '/'), '/')
}

/// The path segments that the client appends to its base URL for `path`.
pub fn api_path_segments(path: &str) -> (r: Vec<String>)
    ensures
        views(r@) == api_segments(path@),
{
    let trimmed = strip_leading(path, '/');
    let pieces = split_char(trimmed.as_str(), '/');
    let mut r: Vec<String> = Vec::new();
    r.push(String::from_str("api"));
    r.push(String::from_str("v4"));
    let mut i: usize = 0;
    while i < pieces.len()
        invariant
            i <= pieces@.len(),
            views(r@) == seq!["api"@, "v4"@] + views(pieces@).take(i as int),
        decreases pieces.len() - i,
    {
        let ghost before = views(r@);
        r.push(pieces[i].clone());
        proof {
            assert(views(pieces@).take(i + 1) =~= views(pieces@).take(i as int).push(pieces@[i as int]@));
            assert(views(r@) =~= before.push(pieces@[i as int]@));
        }
        i = i + 1;
    }
    assert(views(pieces@).take(pieces@.len() as int) == views(pieces@));
    r
}

/// `reqwest::Client`, held opaquely.
#[verifier::external_type_specification]
#[verifier::external_body]
pub struct ExHttpClient(reqwest::Client);

/// Builds the HTTP client with `reqwest::Client::builder()`, the request
/// timeout `timeout_secs` (as a `Duration` of that many seconds) and
/// `build()`. Whether that succeeds depends on the machine (its TLS setup),
/// so nothing is claimed of the result.
#[verifier::external_body]
fn build_http_client(timeout_secs: u64) -> (r: Result<reqwest::Client, String>)
{
    match reqwest::Client::builder().timeout(std::time::Duration::from_secs(timeout_secs)).build() {
        Ok(c) => Ok(c),
        Err(e) => Err(e.to_string()),
    }
}

/// What appending the path segment `segment` to the URL serialized as `url`
/// gives: the serialization after `Url::path_segments_mut` and `push`, or
/// `None` when `url` does not parse or cannot take path segments.
pub uninterp spec fn segment_pushed(url: Seq<char>, segment: Seq<char>) -> Option<Seq<char>>;

/// Appends one path segment to the URL serialized as `url`: parses it with
/// `url::Url::parse`, pushes `segment` with `Url::path_segments_mut` (which
/// percent-encodes it) and gives back `Url::as_str`. Claimed: the result is
/// the named one.
#[verifier::external_body]
fn push_path_segment(url: &str, segment: &str) -> (r: Option<String>)
    ensures
        opt_string_view(r) == segment_pushed(url@, segment@),
{
    let mut u = url::Url::parse(url).ok()?;
    u.path_segments_mut().ok()?.push(segment);
    Some(u.as_str().to_string())
}

/// The URL serialized as `url` with the first `n` of `segments` appended
/// one after the other, or `None` when an append fails.
pub open spec fn pushed_prefix(url: Seq<char>, segments: Seq<Seq<char>>, n: nat) -> Option<Seq<char>>
    decreases n,
{
    if n == 0 {
        Some(url)
    } else {
        match pushed_prefix(url, segments, (n - 1) as nat) {
            Some(v) => segment_pushed(v, segments[n - 1]),
            None => None,
        }
    }
}

/// The full URL of the API call `path` on the instance serialized as `base`.
pub open spec fn api_url_of(base: Seq<char>, path: Seq<char>) -> Option<Seq<char>> {
    pushed_prefix(base, api_segments(path), api_segments(path).len())
}

/// Once an append has failed, appending more fails too.
proof fn lemma_pushed_prefix_stays_none(url: Seq<char>, segments: Seq<Seq<char>>, n: nat, m: nat)
    requires
        n <= m,
        pushed_prefix(url, segments, n) is None,
    ensures
        pushed_prefix(url, segments, m) is None,
    decreases m - n,
{
    if n < m {
        lemma_pushed_prefix_stays_none(url, segments, n + 1, m);
    }
}

/// A client of one GitLab instance with one token.
pub struct GitLabClient {
    http_client: reqwest::Client,
    base_url: String,
    token: String,
    timeout_secs: u64,
}

/// The request timeout of the GitLab client, in seconds.
pub const REQUEST_TIMEOUT_SECS: u64 = 30;

impl GitLabClient {
    /// The token.
    pub closed spec fn spec_token(&self) -> Seq<char> {
        self.token@
    }

    /// The request timeout the HTTP client was built with, in seconds.
    pub closed spec fn spec_timeout_secs(&self) -> u64 {
        self.timeout_secs
    }

    /// The instance URL, as `url` serializes it.
    pub closed spec fn spec_base_url(&self) -> Seq<char> {
        self.base_url@
    }

    /// The HTTP client requests are sent with.
    pub closed spec fn spec_http_client(&self) -> reqwest::Client {
        self.http_client
    }

    /// Sets up a client: the URL must parse and the token must not be empty.
    /// A parse failure is an invalid parameter naming the parser's error; an
    /// empty token is an authentication error; failing to build the HTTP
    /// client is a network error.
    pub fn new(base_url: &str, token: &str) -> (r: Result<GitLabClient, GitLabError>)
        ensures
            url_parse_outcome(base_url@) matches Err(m) ==> (r matches Err(GitLabError::InvalidParameter(e))
                && e@ == "Invalid GitLab URL: "@ + m),
            url_parse_outcome(base_url@) is Ok && token@.len() == 0 ==> (r matches Err(GitLabError::AuthError(e))
                && e@ == "GITLAB_TOKEN is required"@),
            url_parse_outcome(base_url@) is Ok && token@.len() > 0 ==> (
                (r matches Ok(c) && c.spec_token() == token@)
                || (r matches Err(GitLabError::Network(e)) && crate::handler::starts_with(
                    e@,
                    "Failed to create HTTP client: "@,
                ))),
            r matches Ok(c) ==> url_parse_outcome(base_url@) matches Ok(p) && c.spec_base_url() == p.1
                && c.spec_token() == token@ && c.spec_timeout_secs() == REQUEST_TIMEOUT_SECS,
    {
        let url = match crate::urls::parse_url_text(base_url) {
            Ok(u) => u,
            Err(e) => {
                return Err(GitLabError::invalid_parameter(joined("Invalid GitLab URL: ", e.as_str())));
            },
        };
        if chars_of(token).len() == 0 {
            return Err(GitLabError::auth_error(String::from_str("GITLAB_TOKEN is required")));
        }
        match build_http_client(REQUEST_TIMEOUT_SECS) {
            Ok(c) => Ok(GitLabClient {
                http_client: c,
                base_url: url,
                token: String::from_str(token),
                timeout_secs: REQUEST_TIMEOUT_SECS,
            }),
            Err(e) => {
                let m = joined("Failed to create HTTP client: ", e.as_str());
                assert(m@.take("Failed to create HTTP client: "@.len() as int) =~= "Failed to create HTTP client: "@);
                Err(GitLabError::network(m))
            },
        }
    }

    /// Sets up a client from the `GITLAB_URL` and `GITLAB_TOKEN` settings:
    /// without a token this is an authentication error; the URL defaults to
    /// `https://gitlab.com`.
    pub fn from_sources(url_setting: Option<String>, token_setting: Option<String>) -> (r: Result<GitLabClient, GitLabError>)
        ensures
            token_setting is None ==> (r matches Err(GitLabError::AuthError(e))
                && e@ == "GITLAB_TOKEN environment variable not set"@),
            token_setting matches Some(t) ==> {
                let u = match url_setting {
                    Some(s) => s@,
                    None => "https://gitlab.com"@,
                };
                &&& url_parse_outcome(u) matches Err(m) ==> (r matches Err(GitLabError::InvalidParameter(e))
                    && e@ == "Invalid GitLab URL: "@ + m)
                &&& url_parse_outcome(u) is Ok && t@.len() == 0 ==> (r matches Err(GitLabError::AuthError(e))
                    && e@ == "GITLAB_TOKEN is required"@)
                &&& url_parse_outcome(u) is Ok && t@.len() > 0 ==> (
                    (r matches Ok(c) && c.spec_token() == t@)
                    || (r matches Err(GitLabError::Network(e)) && crate::handler::starts_with(
                        e@,
                        "Failed to create HTTP client: "@,
                    )))
                &&& r matches Ok(c) ==> url_parse_outcome(u) matches Ok(p) && c.spec_base_url() == p.1
                    && c.spec_timeout_secs() == REQUEST_TIMEOUT_SECS
            },
    {
        let url = match url_setting {
            Some(s) => s,
            None => String::from_str("https://gitlab.com"),
        };
        match token_setting {
            None => Err(GitLabError::auth_error(String::from_str("GITLAB_TOKEN environment variable not set"))),
            Some(t) => GitLabClient::new(url.as_str(), t.as_str()),
        }
    }

    /// The instance URL, as `url` serializes it.
    pub fn base_url(&self) -> (r: &str)
        ensures
            r@ == self.spec_base_url(),
    {
        self.base_url.as_str()
    }

    /// The request timeout, in seconds.
    pub fn timeout_secs(&self) -> (t: u64)
        ensures
            t == self.spec_timeout_secs(),
    {
        self.timeout_secs
    }

    /// The HTTP client requests are sent with.
    pub fn http_client(&self) -> (r: &reqwest::Client)
        ensures
            *r == self.spec_http_client(),
    {
        &self.http_client
    }

    /// The `Authorization` value sent with every request.
    pub fn auth_value(&self) -> (r: String)
        ensures
            r@ == "Bearer "@ + self.spec_token(),
    {
        joined("Bearer ", self.token.as_str())
    }

    /// The full URL of an API call: the instance URL with the segments of
    /// [`api_segments`] appended, each percent-encoded by `url` as a path
    /// segment. `None` when the instance URL cannot take path segments (a
    /// URL such as `mailto:`).
    pub fn api_url(&self, path: &str) -> (r: Option<String>)
        ensures
            opt_string_view(r) == api_url_of(self.spec_base_url(), path@),
    {
        let segments = api_path_segments(path);
        let ghost segs = api_segments(path@);
        let mut url = String::from_str(self.base_url.as_str());
        let mut i: usize = 0;
        while i < segments.len()
            invariant
                i <= segments@.len(),
                views(segments@) == segs,
                segs == api_segments(path@),
                pushed_prefix(self.spec_base_url(), segs, i as nat) == Some(url@),
            decreases segments.len() - i,
        {
            proof {
                assert(segments@[i as int]@ == segs[i as int]);
            }
            match push_path_segment(url.as_str(), segments[i].as_str()) {
                Some(next) => {
                    url = next;
                },
                None => {
                    assert(pushed_prefix(self.spec_base_url(), segs, (i + 1) as nat) is None);
                    proof {
                        lemma_pushed_prefix_stays_none(self.spec_base_url(), segs, (i + 1) as nat, segs.len());
                    }
                    return None;
                },
            }
            i = i + 1;
        }
        Some(url)
    }

    /// The path segments appended to the instance URL for `path`.
    pub fn api_segments(&self, path: &str) -> (r: Vec<String>)
        ensures
            views(r@) == api_segments(path@),
    {
        api_path_segments(path)
    }
}

} // verus!
