//! The GitHub server's client state: which token is in use, how requests to
//! the GitHub API are addressed and authorised, and how a response is judged.

use vstd::prelude::*;
use std::sync::Arc;
use crate::token_config::{TokenConfig, opt_str_view, opt_string_view, is_default_token};
use crate::server_error::ServerError;
use crate::text::decimal;
use vstd::string::StringExecFns;

verus! {

/// State shared by the GitHub tools: the token in use and, when the token
/// configuration was loaded, all named tokens.
pub struct GithubState {
    /// The token in use.
    pub current_token: Option<String>,
    /// All named tokens, when the configuration was loaded.
    pub tokens: Option<TokenConfig>,
}

impl GithubState {
    /// A state using the token found in `GITHUB_TOKEN` (`env_token`), with no
    /// token configuration.
    pub fn new(env_token: Option<String>) -> (s: GithubState)
        ensures
            s.current_token == env_token,
            s.tokens is None,
    {
        GithubState { current_token: env_token, tokens: None }
    }

    /// Takes in the loaded token configuration (`None` when it could not be
    /// loaded, which leaves the state as it was). With no token in use yet,
    /// the configuration's default token is used.
    pub fn with_config(self, loaded: Option<TokenConfig>) -> (s: GithubState)
        ensures
            match loaded {
                None => s == self,
                Some(c) => {
                    &&& s.tokens == Some(c)
                    &&& self.current_token is Some ==> s.current_token == self.current_token
                    &&& self.current_token is None ==> is_default_token(
                        c.tokens@,
                        opt_string_view(c.default_token),
                        opt_string_view(s.current_token),
                    )
                },
            },
    {
        match loaded {
            None => self,
            Some(config) => {
                let current = match self.current_token {
                    Some(t) => Some(t),
                    None => match config.get_default_token() {
                        Some(t) => Some(String::from_str(t)),
                        None => None,
                    },
                };
                GithubState { current_token: current, tokens: Some(config) }
            },
        }
    }

    /// Asks to switch to the token named `name`. The shared state cannot
    /// change in place, so this always refuses: with a message saying that the
    /// client must be recreated when the token exists, that it does not exist
    /// otherwise, and that no configuration is loaded when there is none.
    pub fn switch_token(&self, name: &str) -> (r: Result<(), String>)
        ensures
            r matches Err(m) && m@ == (match self.tokens {
                None => "未启用 token 配置"@,
                Some(c) => if c.tokens@.dom().contains(name@) {
                    "需要重新创建客户端以切换 token"@
                } else {
                    "Token '"@ + name@ + "' 不存在"@
                },
            }),
    {
        match &self.tokens {
            Some(config) => {
                match config.get_token(name) {
                    Some(_) => Err(String::from_str("需要重新创建客户端以切换 token")),
                    None => {
                        let mut m = String::from_str("Token '");
                        m.append(name);
                        m.append("' 不存在");
                        Err(m)
                    },
                }
            },
            None => Err(String::from_str("未启用 token 配置")),
        }
    }

    /// The `Authorization` value for the token in use.
    pub fn auth_header(&self) -> (r: Option<String>)
        ensures
            opt_string_view(r) == (match self.current_token {
                Some(t) => Some("Bearer "@ + t@),
                None => None,
            }),
    {
        match &self.current_token {
            Some(t) => {
                let mut h = String::from_str("Bearer ");
                h.append(t.as_str());
                Some(h)
            },
            None => None,
        }
    }

    /// A name under which the token in use is stored, if the configuration is
    /// loaded and holds it. Which name comes back when several hold the same
    /// token is not specified.
    pub fn current_token_name(&self) -> (r: Option<String>)
        ensures
            r matches Some(n) ==> self.tokens is Some && self.current_token is Some
                && self.tokens->0.tokens@.dom().contains(n@)
                && self.tokens->0.tokens@[n@] == self.current_token->0@,
            r is None ==> match (self.tokens, self.current_token) {
                (Some(c), Some(t)) => forall|k: Seq<char>| #[trigger] c.tokens@.dom().contains(k) ==> c.tokens@[k] != t@,
                _ => true,
            },
    {
        match &self.tokens {
            None => None,
            Some(config) => {
                match &self.current_token {
                    None => None,
                    Some(current) => {
                        let names = config.list_tokens();
                        let mut i: usize = 0;
                        while i < names.len()
                            invariant
                                self.tokens == Some(*config),
                                self.current_token == Some(*current),
                                i <= names@.len(),
                                names@.len() == config.tokens@.len(),
                                forall|a: int| 0 <= a < names@.len() ==> config.tokens@.dom().contains(#[trigger] names@[a]@),
                                forall|k: Seq<char>| config.tokens@.dom().contains(k) ==> exists|a: int| 0 <= a < names@.len() && #[trigger] names@[a]@ == k,
                                forall|a: int| 0 <= a < i ==> config.tokens@[#[trigger] names@[a]@] != current@,
                            decreases names.len() - i,
                        {
                            let name: &String = names[i];
                            assert(config.tokens@.dom().contains(names@[i as int]@));
                            match config.get_token(name.as_str()) {
                                Some(t) => {
                                    if crate::text::str_eq(t, current.as_str()) {
                                        return Some(String::from_str(name.as_str()));
                                    }
                                },
                                None => {},
                            }
                            i = i + 1;
                        }
                        proof {
                            assert forall|k: Seq<char>| #[trigger] config.tokens@.dom().contains(k) implies config.tokens@[k] != current@ by {
                                let a = choose|a: int| 0 <= a < names@.len() && #[trigger] names@[a]@ == k;
                                assert(config.tokens@[names@[a]@] != current@);
                            }
                        }
                        None
                    },
                }
            },
        }
    }
}

/// A response of the GitHub API: its status code and body.
pub struct GithubResponse {
    /// The HTTP status code.
    pub status: u16,
    /// The body as text.
    pub body: String,
}

impl GithubResponse {
    /// Whether the status is a success (200 to 299).
    pub fn is_success(&self) -> (b: bool)
        ensures
            b == (200 <= self.status && self.status <= 299),
    {
        200 <= self.status && self.status <= 299
    }
}

/// The HTTP methods the GitHub tools use.
#[derive(Debug, Clone, Copy, PartialEq, Eq, Structural)]
pub enum HttpMethod {
    Get,
    Post,
    Put,
    Patch,
    Delete,
}

/// A request to send: method, full URL and headers in order.
pub struct RequestPlan {
    pub method: HttpMethod,
    pub url: String,
    pub headers: Vec<(String, String)>,
}

/// The headers of a request as pairs of character sequences.
pub open spec fn header_views(h: Seq<(String, String)>) -> Seq<(Seq<char>, Seq<char>)> {
    h.map_values(|p: (String, String)| (p.0@, p.1@))
}

/// The headers every GitHub request carries: the authorisation first when a
/// token is in use, then the user agent and the accepted media type.
pub open spec fn github_headers(auth: Option<Seq<char>>) -> Seq<(Seq<char>, Seq<char>)> {
    let common = seq![
        ("User-Agent"@, "github-mcp"@),
        ("Accept"@, "application/vnd.github.v3+json"@),
    ];
    match auth {
        Some(a) => seq![("Authorization"@, a)] + common,
        None => common,
    }
}

/// The reason phrase that the `http` crate gives a status code.
pub uninterp spec fn status_reason_of(code: u16) -> Option<Seq<char>>;

/// The canonical reason phrase of a status code, through
/// `StatusCode::from_u16` and `canonical_reason` of `reqwest` (the `http`
/// crate). Claimed: the result is the named phrase, and there is none for a
/// code outside 100..=999, which `from_u16` refuses.
#[verifier::external_body]
fn canonical_reason(code: u16) -> (r: Option<&'static str>)
    ensures
        opt_str_view(r) == status_reason_of(code),
        (code < 100 || code > 999) ==> r is None,
{
    match reqwest::StatusCode::from_u16(code) {
        Ok(s) => s.canonical_reason(),
        Err(_) => None,
    }
}

/// How a status code is written: the number, a space and the reason phrase.
pub open spec fn status_display(code: u16) -> Seq<char> {
    decimal(code as nat) + " "@ + (match status_reason_of(code) {
        Some(r) => r,
        None => "<unknown status code>"@,
    })
}

/// A client of the GitHub API bound to a shared state.
pub struct GithubClient {
    state: Arc<GithubState>,
    /// The API root, without a trailing slash.
    pub base_url: String,
}

impl GithubClient {
    /// The shared state.
    pub closed spec fn spec_state(&self) -> GithubState {
        *self.state
    }

    /// The API root.
    pub closed spec fn spec_base_url(&self) -> Seq<char> {
        self.base_url@
    }

    /// A client of `https://api.github.com`.
    pub fn new(state: Arc<GithubState>) -> (c: GithubClient)
        ensures
            c.spec_state() == *state,
            c.spec_base_url() == "https://api.github.com"@,
    {
        GithubClient { state, base_url: String::from_str("https://api.github.com") }
    }

    /// A client of another API root.
    pub fn with_base_url(state: Arc<GithubState>, base_url: String) -> (c: GithubClient)
        ensures
            c.spec_state() == *state,
            c.spec_base_url() == base_url@,
    {
        GithubClient { state, base_url }
    }

    /// The request for `method` on `path`: the base URL followed by the
    /// path, with the GitHub headers.
    pub fn request(&self, method: HttpMethod, path: &str) -> (p: RequestPlan)
        ensures
            p.method == method,
            p.url@ == self.spec_base_url() + path@,
            header_views(p.headers@) == github_headers(
                match self.spec_state().current_token {
                    Some(t) => Some("Bearer "@ + t@),
                    None => None,
                },
            ),
    {
        let mut url = self.base_url.clone();
        url.append(path);
        let mut headers: Vec<(String, String)> = Vec::new();
        let auth = self.state.auth_header();
        let ghost a = opt_string_view(auth);
        match auth {
            Some(v) => headers.push((String::from_str("Authorization"), v)),
            None => {},
        }
        headers.push((String::from_str("User-Agent"), String::from_str("github-mcp")));
        headers.push((String::from_str("Accept"), String::from_str("application/vnd.github.v3+json")));
        assert(header_views(headers@) =~= github_headers(a));
        RequestPlan { method, url, headers }
    }

    /// A GET request on `path`.
    pub fn get(&self, path: &str) -> (p: RequestPlan)
        ensures
            p.method == HttpMethod::Get,
            p.url@ == self.spec_base_url() + path@,
            header_views(p.headers@) == github_headers(
                match self.spec_state().current_token {
                    Some(t) => Some("Bearer "@ + t@),
                    None => None,
                },
            ),
    {
        self.request(HttpMethod::Get, path)
    }

    /// A POST request on `path`.
    pub fn post(&self, path: &str) -> (p: RequestPlan)
        ensures
            p.method == HttpMethod::Post,
            p.url@ == self.spec_base_url() + path@,
            header_views(p.headers@) == github_headers(
                match self.spec_state().current_token {
                    Some(t) => Some("Bearer "@ + t@),
                    None => None,
                },
            ),
    {
        self.request(HttpMethod::Post, path)
    }

    /// A PUT request on `path`.
    pub fn put(&self, path: &str) -> (p: RequestPlan)
        ensures
            p.method == HttpMethod::Put,
            p.url@ == self.spec_base_url() + path@,
            header_views(p.headers@) == github_headers(
                match self.spec_state().current_token {
                    Some(t) => Some("Bearer "@ + t@),
                    None => None,
                },
            ),
    {
        self.request(HttpMethod::Put, path)
    }

    /// A PATCH request on `path`.
    pub fn patch(&self, path: &str) -> (p: RequestPlan)
        ensures
            p.method == HttpMethod::Patch,
            p.url@ == self.spec_base_url() + path@,
            header_views(p.headers@) == github_headers(
                match self.spec_state().current_token {
                    Some(t) => Some("Bearer "@ + t@),
                    None => None,
                },
            ),
    {
        self.request(HttpMethod::Patch, path)
    }

    /// A DELETE request on `path`.
    pub fn delete(&self, path: &str) -> (p: RequestPlan)
        ensures
            p.method == HttpMethod::Delete,
            p.url@ == self.spec_base_url() + path@,
            header_views(p.headers@) == github_headers(
                match self.spec_state().current_token {
                    Some(t) => Some("Bearer "@ + t@),
                    None => None,
                },
            ),
    {
        self.request(HttpMethod::Delete, path)
    }

    /// Accepts a successful response and turns any other into a handler
    /// error that gives the status and the body.
    pub fn send_ok(&self, resp: GithubResponse) -> (r: Result<GithubResponse, ServerError>)
        ensures
            (200 <= resp.status && resp.status <= 299) ==> r == Ok::<GithubResponse, ServerError>(resp),
            !(200 <= resp.status && resp.status <= 299) ==> (r matches Err(ServerError::Handler(m))
                && m@ == "GitHub API error ("@ + status_display(resp.status) + "): "@ + resp.body@),
    {
        if resp.is_success() {
            return Ok(resp);
        }
        let mut m = String::from_str("GitHub API error (");
        let code = crate::text::u64_to_decimal(resp.status as u64);
        m.append(code.as_str());
        m.append(" ");
        match canonical_reason(resp.status) {
            Some(reason) => m.append(reason),
            None => m.append("<unknown status code>"),
        }
        m.append("): ");
        m.append(resp.body.as_str());
        Err(ServerError::Handler(m))
    }
}

} // verus!
