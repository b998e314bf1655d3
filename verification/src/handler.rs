//! Decisions of the HTTP transport: which requests are accepted, how sessions
//! are found or made, and what is answered.

use vstd::prelude::*;
use vstd::string::StringExecFns;
use vstd::utf8::{decode_utf8, valid_utf8};
use crate::http_error::{HttpServerError, message_of, status_of};
use crate::session::{SessionConfig, SessionManager, SessionState, has_session, is_expired, touched_in, fresh_session, without_id};
use crate::sse_writer::{SseResponseBuilder, SseSetupEvent, setup_events_ok};
use crate::text::{chars_of, contains_chars, contains_seq, string_of};

verus! {

/// What `std::str::from_utf8` makes of `bytes`: the text, or the error's
/// `Display` text.
pub uninterp spec fn utf8_outcome(bytes: Seq<u8>) -> Result<Seq<char>, Seq<char>>;

/// The characters of a decoding outcome.
pub open spec fn decoded_view(r: Result<String, String>) -> Result<Seq<char>, Seq<char>> {
    match r {
        Ok(s) => Ok(s@),
        Err(e) => Err(e@),
    }
}

/// std's `str::from_utf8`. Claimed, as its documentation says: it succeeds
/// exactly on valid UTF-8, and then the text is the decoding of the bytes.
/// The error text is only named.
#[verifier::external_body]
pub(crate) fn decode_text(bytes: &[u8]) -> (r: Result<String, String>)
    ensures
        decoded_view(r) == utf8_outcome(bytes@),
        r is Ok <==> valid_utf8(bytes@),
        r matches Ok(s) ==> s@ == decode_utf8(bytes@),
{
    match std::str::from_utf8(bytes) {
        Ok(s) => Ok(s.to_string()),
        Err(e) => Err(e.to_string()),
    }
}

/// Configuration of the HTTP handler.
pub struct HttpServerOptions {
    /// Session limits.
    pub session_config: SessionConfig,
    /// Whether SSE streams may be opened.
    pub enable_sse: bool,
    /// Whether single JSON responses are enabled.
    pub enable_single_response: bool,
    /// Base URL of the server, used in endpoint events.
    pub base_url: Option<String>,
    /// Path of the endpoint.
    pub endpoint_path: String,
}

impl Default for HttpServerOptions {
    fn default() -> (o: HttpServerOptions)
        ensures
            o.session_config == SessionConfig::default_spec(),
            o.enable_sse,
            o.enable_single_response,
            o.base_url is None,
            o.endpoint_path@ == "/mcp"@,
    {
        HttpServerOptions {
            session_config: SessionConfig::default(),
            enable_sse: true,
            enable_single_response: true,
            base_url: None,
            endpoint_path: String::from_str("/mcp"),
        }
    }
}

/// Result of handling an HTTP request.
#[allow(inconsistent_fields)]
pub enum HttpResponse {
    /// A JSON body; the session id is announced when the session is new.
    Json { status: u16, body: String, session_id: Option<String> },
    /// An SSE stream for a session.
    Sse { session_id: String },
    /// No body.
    Empty { status: u16 },
    /// An error.
    Error { status: u16, message: String },
}

/// `s` without any `c` at its end (std's `trim_end_matches` with a char).
pub open spec fn trim_end_char(s: Seq<char>, c: char) -> Seq<char>
    decreases s.len(),
{
    if s.len() > 0 && s.last() == c {
        trim_end_char(s.drop_last(), c)
    } else {
        s
    }
}

/// The full endpoint URL: base URL without trailing slashes, then the path;
/// just the path without a base URL.
pub open spec fn endpoint_url_of(base_url: Option<Seq<char>>, path: Seq<char>) -> Seq<char> {
    match base_url {
        Some(b) => trim_end_char(b, '/') + path,
        None => path,
    }
}

/// `s` starts with `prefix`.
pub open spec fn starts_with(s: Seq<char>, prefix: Seq<char>) -> bool {
    prefix.len() <= s.len() && s.take(prefix.len() as int) == prefix
}

/// How a POST body is first judged: a content type that is given must start
/// with `application/json` (else 415), and the body must be UTF-8 (else 400).
pub open spec fn post_precheck(content_type: Option<Seq<char>>, body: Seq<u8>) -> Result<Seq<char>, (u16, Seq<char>)> {
    if content_type matches Some(ct) && !starts_with(ct, "application/json"@) {
        Err((415u16, "Unsupported content type: "@ + content_type->0))
    } else {
        match utf8_outcome(body) {
            Ok(text) => Ok(text),
            Err(e) => Err((400u16, "Invalid UTF-8: "@ + e)),
        }
    }
}

/// What the server made of a posted message.
pub enum PostedMessageOutcome {
    /// A request, answered with this serialized response.
    Response(String),
    /// A request whose response could not be serialized, with the error text.
    SerializationFailed(String),
    /// A request the server failed on, with the error text.
    ServerFailed(String),
    /// A notification, handled.
    NotificationHandled,
    /// A result message, which clients must not send.
    ClientResult,
}

/// `r` is an error response with this status and message.
pub open spec fn is_error_response(r: HttpResponse, status: u16, message: Seq<char>) -> bool {
    r matches HttpResponse::Error { status: s, message: m } && s == status && m@ == message
}

/// Whether an `Accept` header lets an SSE stream through: no header, or
/// one that names `text/event-stream`.
pub open spec fn accepts_event_stream(accept: Option<&str>) -> bool {
    match accept {
        Some(a) => contains_seq(a@, "text/event-stream"@),
        None => true,
    }
}

/// HTTP request handler for MCP, over a server of type `S`.
pub struct HttpServerHandler<S> {
    server: S,
    session_manager: SessionManager,
    options: HttpServerOptions,
}

fn prefixed(prefix: &str, rest: &str) -> (r: String)
    ensures
        r@ == prefix@ + rest@,
{
    let mut r = String::from_str(prefix);
    r.append(rest);
    r
}

fn starts_with_chars(s: &Vec<char>, prefix: &Vec<char>) -> (b: bool)
    ensures
        b == starts_with(s@, prefix@),
{
    if prefix.len() > s.len() {
        return false;
    }
    let mut i: usize = 0;
    while i < prefix.len()
        invariant
            prefix@.len() <= s@.len(),
            i <= prefix@.len(),
            forall|j: int| 0 <= j < i ==> s@[j] == prefix@[j],
        decreases prefix.len() - i,
    {
        if s[i] != prefix[i] {
            assert(s@.take(prefix@.len() as int)[i as int] == s@[i as int]);
            return false;
        }
        i = i + 1;
    }
    assert(s@.take(prefix@.len() as int) =~= prefix@);
    true
}

/// Judges the content type and body of a POST request; gives the body text,
/// or the error response.
pub fn check_post_request(content_type: Option<&str>, body: &[u8]) -> (r: Result<String, HttpResponse>)
    ensures
        match post_precheck(crate::bearer_auth::opt_view(content_type), body@) {
            Ok(text) => r matches Ok(t) && t@ == text,
            Err((status, message)) => r matches Err(e) && is_error_response(e, status, message),
        },
{
    if let Some(ct) = content_type {
        let cv = chars_of(ct);
        let p = chars_of("application/json");
        if !starts_with_chars(&cv, &p) {
            return Err(HttpResponse::Error { status: 415, message: prefixed("Unsupported content type: ", ct) });
        }
    }
    match decode_text(body) {
        Ok(text) => Ok(text),
        Err(e) => Err(HttpResponse::Error { status: 400, message: prefixed("Invalid UTF-8: ", e.as_str()) }),
    }
}

/// The response to a body that is not a JSON-RPC message.
pub fn invalid_message_response(error: &str) -> (r: HttpResponse)
    ensures
        is_error_response(r, 400, "Invalid JSON-RPC message: "@ + error@),
{
    HttpResponse::Error { status: 400, message: prefixed("Invalid JSON-RPC message: ", error) }
}

/// The response to a session error.
pub fn session_error_response(e: &HttpServerError) -> (r: HttpResponse)
    ensures
        is_error_response(r, status_of(*e), message_of(*e)),
{
    HttpResponse::Error { status: e.status_code(), message: e.message() }
}

/// The response to a posted message, from what the server made of it. The
/// session id is announced only for a new session.
pub fn post_response(outcome: PostedMessageOutcome, session_id: String, is_new: bool) -> (r: HttpResponse)
    ensures
        match outcome {
            PostedMessageOutcome::Response(body) => r == (HttpResponse::Json {
                status: 200,
                body,
                session_id: if is_new { Some(session_id) } else { None },
            }),
            PostedMessageOutcome::SerializationFailed(e) => is_error_response(r, 500, "Serialization error: "@ + e@),
            PostedMessageOutcome::ServerFailed(e) => is_error_response(r, 500, "Server error: "@ + e@),
            PostedMessageOutcome::NotificationHandled => r == (HttpResponse::Empty { status: 202 }),
            PostedMessageOutcome::ClientResult => is_error_response(r, 400, "Unexpected result message from client"@),
        },
{
    match outcome {
        PostedMessageOutcome::Response(body) => HttpResponse::Json {
            status: 200,
            body,
            session_id: if is_new { Some(session_id) } else { None },
        },
        PostedMessageOutcome::SerializationFailed(e) => HttpResponse::Error {
            status: 500,
            message: prefixed("Serialization error: ", e.as_str()),
        },
        PostedMessageOutcome::ServerFailed(e) => HttpResponse::Error {
            status: 500,
            message: prefixed("Server error: ", e.as_str()),
        },
        PostedMessageOutcome::NotificationHandled => HttpResponse::Empty { status: 202 },
        PostedMessageOutcome::ClientResult => HttpResponse::Error {
            status: 400,
            message: String::from_str("Unexpected result message from client"),
        },
    }
}

impl<S> HttpServerHandler<S> {
    /// The server behind this handler.
    pub closed spec fn srv(&self) -> S {
        self.server
    }

    /// The server behind this handler.
    pub fn server(&self) -> (s: &S)
        ensures
            *s == self.srv(),
    {
        &self.server
    }

    /// The options of this handler.
    pub closed spec fn opts(&self) -> HttpServerOptions {
        self.options
    }

    /// The sessions of this handler.
    pub closed spec fn manager(&self) -> SessionManager {
        self.session_manager
    }

    /// A handler with no session yet.
    pub fn new(server: S, options: HttpServerOptions) -> (h: HttpServerHandler<S>)
        ensures
            h.srv() == server,
            h.opts() == options,
            h.manager().sessions().len() == 0,
            h.manager().limits() == options.session_config,
    {
        let session_manager = SessionManager::new(options.session_config.duplicate());
        HttpServerHandler { server, session_manager, options }
    }

    /// A handler with default options.
    pub fn with_server(server: S) -> (h: HttpServerHandler<S>)
        ensures
            h.srv() == server,
            h.manager().sessions().len() == 0,
            h.opts().enable_sse,
            h.opts().base_url is None,
            h.opts().endpoint_path@ == "/mcp"@,
            h.manager().limits() == SessionConfig::default_spec(),
    {
        HttpServerHandler::new(server, HttpServerOptions::default())
    }

    /// The session manager.
    pub fn session_manager(&self) -> (m: &SessionManager)
        ensures
            *m == self.manager(),
    {
        &self.session_manager
    }

    /// The full endpoint URL.
    pub fn endpoint_url(&self) -> (u: String)
        ensures
            u@ == endpoint_url_of(
                crate::token_config::opt_string_view(self.opts().base_url),
                self.opts().endpoint_path@,
            ),
    {
        match &self.options.base_url {
            Some(base) => {
                let v = chars_of(base.as_str());
                let mut end: usize = v.len();
                assert(v@.take(end as int) == v@);
                while end > 0 && v[end - 1] == '/'
                    invariant
                        end <= v@.len(),
                        trim_end_char(v@.take(end as int), '/') == trim_end_char(v@, '/'),
                    decreases end,
                {
                    assert(v@.take(end as int).drop_last() == v@.take(end - 1));
                    end = end - 1;
                }
                let mut kept: Vec<char> = Vec::new();
                let mut i: usize = 0;
                while i < end
                    invariant
                        i <= end <= v@.len(),
                        kept@ == v@.take(i as int),
                    decreases end - i,
                {
                    kept.push(v[i]);
                    assert(v@.take(i + 1) == v@.take(i as int).push(v@[i as int]));
                    i = i + 1;
                }
                let mut u = string_of(&kept);
                u.append(self.options.endpoint_path.as_str());
                u
            },
            None => self.options.endpoint_path.clone(),
        }
    }

    /// The session named by the header (its activity refreshed), or a new
    /// session with id `new_id` when there is no header or no such session.
    /// Tells whether the session is new.
    pub fn get_or_create_session(&mut self, session_id_header: Option<&str>, now: u64, new_id: String) -> (r: Result<(SessionState, bool), HttpServerError>)
        ensures
            final(self).opts() == old(self).opts(),
            final(self).srv() == old(self).srv(),
            final(self).manager().limits() == old(self).manager().limits(),
            match session_id_header {
                Some(id) if has_session(old(self).manager().sessions(), id@) => r matches Ok((s, is_new))
                    && !is_new && s.session_id@ == id@ && s.last_activity == now
                    && touched_in(old(self).manager().sessions(), final(self).manager().sessions(), s, id@, now),
                _ => if old(self).manager().sessions().len() < old(self).manager().limits().max_sessions {
                    r matches Ok((s, is_new)) && is_new && fresh_session(s, new_id@, now)
                        && final(self).manager().sessions() == without_id(old(self).manager().sessions(), new_id@).push(s)
                } else {
                    r matches Err(HttpServerError::SessionLimitReached { max })
                        && max == old(self).manager().limits().max_sessions
                        && final(self).manager().sessions() == old(self).manager().sessions()
                },
            },
    {
        if let Some(id) = session_id_header {
            if let Some(s) = self.session_manager.touch_session(id, now) {
                return Ok((s, false));
            }
        }
        let s = self.session_manager.create_session(new_id, now)?;
        Ok((s, true))
    }

    /// The session stage of a POST request, after the body was judged and
    /// parsed: `checked` is what [`check_post_request`] gave, `parsed` what
    /// the JSON-RPC parser made of that text. A request rejected at either
    /// stage is answered with that rejection and no session is made or
    /// touched; otherwise the session is found or made as by
    /// [`Self::get_or_create_session`], a session error being answered with
    /// its response.
    pub fn begin_post(
        &mut self,
        session_id_header: Option<&str>,
        checked: Result<String, HttpResponse>,
        parsed: Result<(), String>,
        now: u64,
        new_id: String,
    ) -> (r: Result<(SessionState, bool), HttpResponse>)
        ensures
            final(self).opts() == old(self).opts(),
            final(self).srv() == old(self).srv(),
            final(self).manager().limits() == old(self).manager().limits(),
            checked is Err ==> (r == Err::<(SessionState, bool), HttpResponse>(checked->Err_0)
                && final(self).manager() == old(self).manager()),
            checked is Ok && parsed is Err ==> (r matches Err(e)
                && is_error_response(e, 400, "Invalid JSON-RPC message: "@ + parsed->Err_0@)
                && final(self).manager() == old(self).manager()),
            checked is Ok && parsed is Ok ==> match session_id_header {
                Some(id) if has_session(old(self).manager().sessions(), id@) => r matches Ok((s, is_new))
                    && !is_new && s.session_id@ == id@
                    && touched_in(old(self).manager().sessions(), final(self).manager().sessions(), s, id@, now),
                _ => if old(self).manager().sessions().len() < old(self).manager().limits().max_sessions {
                    r matches Ok((s, is_new)) && is_new && fresh_session(s, new_id@, now)
                        && final(self).manager().sessions() == without_id(old(self).manager().sessions(), new_id@).push(s)
                } else {
                    &&& r matches Err(e) && is_error_response(
                        e,
                        status_of(HttpServerError::SessionLimitReached { max: old(self).manager().limits().max_sessions }),
                        message_of(HttpServerError::SessionLimitReached { max: old(self).manager().limits().max_sessions }),
                    )
                    &&& final(self).manager().sessions() == old(self).manager().sessions()
                },
            },
    {
        match checked {
            Err(e) => {
                return Err(e);
            },
            Ok(_) => {},
        }
        match parsed {
            Err(m) => {
                return Err(invalid_message_response(m.as_str()));
            },
            Ok(()) => {},
        }
        match self.get_or_create_session(session_id_header, now, new_id) {
            Ok(found) => Ok(found),
            Err(e) => Err(session_error_response(&e)),
        }
    }

    /// Handles a DELETE request: closes the session named by the header.
    pub fn handle_delete(&mut self, session_id_header: Option<&str>) -> (r: HttpResponse)
        ensures
            final(self).opts() == old(self).opts(),
            final(self).srv() == old(self).srv(),
            match session_id_header {
                None => is_error_response(r, 400, "Missing session ID"@) && final(self).manager() == old(self).manager(),
                Some(id) => {
                    &&& final(self).manager().limits() == old(self).manager().limits()
                    &&& final(self).manager().sessions() == without_id(old(self).manager().sessions(), id@)
                    &&& if has_session(old(self).manager().sessions(), id@) {
                        &&& r == (HttpResponse::Empty { status: 204 })
                        &&& !has_session(final(self).manager().sessions(), id@)
                        &&& final(self).manager().sessions().len() == old(self).manager().sessions().len() - 1
                    } else {
                        &&& is_error_response(r, 404, "Session not found: "@ + id@)
                        &&& final(self).manager().sessions() == old(self).manager().sessions()
                    }
                },
            },
    {
        let id = match session_id_header {
            Some(id) => id,
            None => {
                return HttpResponse::Error { status: 400, message: String::from_str("Missing session ID") };
            },
        };
        match self.session_manager.remove_session(id) {
            Some(_) => {
                proof {
                    crate::session::lemma_without_id_lacks(old(self).manager().sessions(), id@);
                }
                HttpResponse::Empty { status: 204 }
            },
            None => HttpResponse::Error { status: 404, message: prefixed("Session not found: ", id) },
        }
    }

    /// Handles a GET request: opens an SSE stream for the session named by
    /// the header (or a new one with id `new_id`). Gives the response and the
    /// events that open the stream: session-ready, then the endpoint URL.
    pub fn handle_get(
        &mut self,
        session_id_header: Option<&str>,
        accept: Option<&str>,
        now: u64,
        new_id: String,
    ) -> (r: (HttpResponse, Vec<SseSetupEvent>))
        ensures
            final(self).opts() == old(self).opts(),
            final(self).srv() == old(self).srv(),
            final(self).manager().limits() == old(self).manager().limits(),
            !old(self).opts().enable_sse ==> is_error_response(r.0, 405, "SSE not enabled"@) && r.1@.len() == 0
                && final(self).manager() == old(self).manager(),
            old(self).opts().enable_sse && (accept matches Some(a) && !contains_seq(a@, "text/event-stream"@))
                ==> is_error_response(r.0, 406, "Must accept text/event-stream"@) && r.1@.len() == 0
                && final(self).manager() == old(self).manager(),
            old(self).opts().enable_sse && accepts_event_stream(accept) ==> match session_id_header {
                Some(id) if has_session(old(self).manager().sessions(), id@) => {
                    &&& r.0 matches HttpResponse::Sse { session_id } && session_id@ == id@
                    &&& exists|s: SessionState| #[trigger] touched_in(
                        old(self).manager().sessions(),
                        final(self).manager().sessions(),
                        s,
                        id@,
                        now,
                    )
                },
                _ => if old(self).manager().sessions().len() < old(self).manager().limits().max_sessions {
                    &&& r.0 matches HttpResponse::Sse { session_id } && session_id@ == new_id@
                    &&& exists|s: SessionState| #[trigger] fresh_session(s, new_id@, now)
                        && final(self).manager().sessions() == without_id(old(self).manager().sessions(), new_id@).push(s)
                } else {
                    &&& is_error_response(
                        r.0,
                        status_of(HttpServerError::SessionLimitReached { max: old(self).manager().limits().max_sessions }),
                        message_of(HttpServerError::SessionLimitReached { max: old(self).manager().limits().max_sessions }),
                    )
                    &&& r.1@.len() == 0
                    &&& final(self).manager().sessions() == old(self).manager().sessions()
                },
            },
            r.0 matches HttpResponse::Sse { session_id } ==> setup_events_ok(
                SseResponseBuilder {
                    send_session_ready: true,
                    send_endpoint: true,
                    endpoint_url: Some(r.1@[r.1@.len() - 1]->Endpoint_endpoint_url),
                    include_session_id: true,
                    keep_alive_interval: Some(30u64),
                },
                session_id@,
                r.1@,
            ) && r.1@.len() == 2 && r.1@[1]->Endpoint_endpoint_url@ == endpoint_url_of(
                crate::token_config::opt_string_view(old(self).opts().base_url),
                old(self).opts().endpoint_path@,
            ),
    {
        if !self.options.enable_sse {
            return (HttpResponse::Error { status: 405, message: String::from_str("SSE not enabled") }, Vec::new());
        }
        if let Some(a) = accept {
            let av = chars_of(a);
            let p = chars_of("text/event-stream");
            if !contains_chars(&av, &p) {
                return (
                    HttpResponse::Error {
                        status: 406,
                        message: String::from_str("Must accept text/event-stream"),
                    },
                    Vec::new(),
                );
            }
        }
        let session = match self.get_or_create_session(session_id_header, now, new_id) {
            Ok((s, _)) => s,
            Err(e) => {
                return (session_error_response(&e), Vec::new());
            },
        };
        let ghost held = session;
        let url = self.endpoint_url();
        let builder = SseResponseBuilder::new().send_session_ready(true).endpoint_url(url);
        let events = builder.initialize(&session);
        proof {
            assert(events@[0] matches SseSetupEvent::SessionReady { .. });
            assert(events@[1] matches SseSetupEvent::Endpoint { .. });
        }
        (HttpResponse::Sse { session_id: session.session_id }, events)
    }

    /// Removes expired sessions; tells how many.
    pub fn cleanup_sessions(&mut self, now: u64) -> (n: usize)
        ensures
            final(self).srv() == old(self).srv(),
            final(self).opts() == old(self).opts(),
            final(self).manager().limits() == old(self).manager().limits(),
            final(self).manager().sessions() == old(self).manager().sessions().filter(
                |x: SessionState| !is_expired(x, now, old(self).manager().limits().session_timeout),
            ),
            n == old(self).manager().sessions().len() - final(self).manager().sessions().len(),
    {
        self.session_manager.cleanup_expired(now)
    }
}

/// Headers of a request, read in a framework-agnostic way.
pub struct RequestHeaders<'a> {
    pub session_id: Option<&'a str>,
    pub content_type: Option<&'a str>,
    pub accept: Option<&'a str>,
    pub last_event_id: Option<&'a str>,
    pub resumption_token: Option<&'a str>,
}

impl<'a> RequestHeaders<'a> {
    /// No headers.
    pub fn empty() -> (h: RequestHeaders<'a>)
        ensures
            h.session_id is None,
            h.content_type is None,
            h.accept is None,
            h.last_event_id is None,
            h.resumption_token is None,
    {
        RequestHeaders {
            session_id: None,
            content_type: None,
            accept: None,
            last_event_id: None,
            resumption_token: None,
        }
    }
}

} // verus!
