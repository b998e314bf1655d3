//! Errors of the HTTP transport and the status codes they map to.

use vstd::prelude::*;
use vstd::string::StringExecFns;
use crate::text::{decimal, u64_to_decimal};

verus! {

/// Errors that can occur during HTTP server operations.
pub enum HttpServerError {
    /// Core transport error, with its message.
    Transport(String),
    /// The session limit has been reached.
    SessionLimitReached { max: usize },
    /// Invalid HTTP request.
    InvalidRequest(String),
    /// Missing required header.
    MissingHeader(String),
    /// Invalid header value.
    InvalidHeader { header: String, message: String },
    /// Server error, with its message.
    Server(String),
    /// JSON serialization error, with its message.
    Serialization(String),
    /// I/O error.
    Io(String),
    /// Session not found.
    SessionNotFound(String),
    /// Session expired.
    SessionExpired(String),
    /// Method not allowed.
    MethodNotAllowed(String),
    /// Unsupported content type.
    UnsupportedContentType(String),
}

/// The HTTP status that goes with an error.
pub open spec fn status_of(e: HttpServerError) -> u16 {
    match e {
        HttpServerError::InvalidRequest(_) => 400,
        HttpServerError::MissingHeader(_) => 400,
        HttpServerError::InvalidHeader { .. } => 400,
        HttpServerError::UnsupportedContentType(_) => 415,
        HttpServerError::MethodNotAllowed(_) => 405,
        HttpServerError::SessionNotFound(_) => 404,
        HttpServerError::SessionExpired(_) => 410,
        HttpServerError::SessionLimitReached { .. } => 503,
        HttpServerError::Server(_) => 500,
        HttpServerError::Transport(_) => 500,
        HttpServerError::Serialization(_) => 500,
        HttpServerError::Io(_) => 500,
    }
}

/// The text of an error.
pub open spec fn message_of(e: HttpServerError) -> Seq<char> {
    match e {
        HttpServerError::Transport(m) => "transport error: "@ + m@,
        HttpServerError::SessionLimitReached { max } => "session limit reached (max: "@ + decimal(
            max as nat,
        ) + ")"@,
        HttpServerError::InvalidRequest(m) => "invalid request: "@ + m@,
        HttpServerError::MissingHeader(m) => "missing header: "@ + m@,
        HttpServerError::InvalidHeader { header, message } => "invalid header value for "@ + header@
            + ": "@ + message@,
        HttpServerError::Server(m) => "server error: "@ + m@,
        HttpServerError::Serialization(m) => "serialization error: "@ + m@,
        HttpServerError::Io(m) => "I/O error: "@ + m@,
        HttpServerError::SessionNotFound(m) => "session not found: "@ + m@,
        HttpServerError::SessionExpired(m) => "session expired: "@ + m@,
        HttpServerError::MethodNotAllowed(m) => "method not allowed: "@ + m@,
        HttpServerError::UnsupportedContentType(m) => "unsupported content type: "@ + m@,
    }
}

fn prefixed(prefix: &str, rest: &str) -> (r: String)
    ensures
        r@ == prefix@ + rest@,
{
    let mut r = String::from_str(prefix);
    r.append(rest);
    r
}

impl HttpServerError {
    /// The HTTP status code for this error.
    pub fn status_code(&self) -> (s: u16)
        ensures
            s == status_of(*self),
    {
        match self {
            HttpServerError::InvalidRequest(_) => 400,
            HttpServerError::MissingHeader(_) => 400,
            HttpServerError::InvalidHeader { .. } => 400,
            HttpServerError::UnsupportedContentType(_) => 415,
            HttpServerError::MethodNotAllowed(_) => 405,
            HttpServerError::SessionNotFound(_) => 404,
            HttpServerError::SessionExpired(_) => 410,
            HttpServerError::SessionLimitReached { .. } => 503,
            HttpServerError::Server(_) => 500,
            HttpServerError::Transport(_) => 500,
            HttpServerError::Serialization(_) => 500,
            HttpServerError::Io(_) => 500,
        }
    }

    /// The text of this error.
    pub fn message(&self) -> (m: String)
        ensures
            m@ == message_of(*self),
    {
        match self {
            HttpServerError::Transport(m) => prefixed("transport error: ", m.as_str()),
            HttpServerError::SessionLimitReached { max } => {
                let mut r = String::from_str("session limit reached (max: ");
                let d = u64_to_decimal(*max as u64);
                r.append(d.as_str());
                r.append(")");
                r
            },
            HttpServerError::InvalidRequest(m) => prefixed("invalid request: ", m.as_str()),
            HttpServerError::MissingHeader(m) => prefixed("missing header: ", m.as_str()),
            HttpServerError::InvalidHeader { header, message } => {
                let mut r = prefixed("invalid header value for ", header.as_str());
                r.append(": ");
                r.append(message.as_str());
                r
            },
            HttpServerError::Server(m) => prefixed("server error: ", m.as_str()),
            HttpServerError::Serialization(m) => prefixed("serialization error: ", m.as_str()),
            HttpServerError::Io(m) => prefixed("I/O error: ", m.as_str()),
            HttpServerError::SessionNotFound(m) => prefixed("session not found: ", m.as_str()),
            HttpServerError::SessionExpired(m) => prefixed("session expired: ", m.as_str()),
            HttpServerError::MethodNotAllowed(m) => prefixed("method not allowed: ", m.as_str()),
            HttpServerError::UnsupportedContentType(m) => prefixed(
                "unsupported content type: ",
                m.as_str(),
            ),
        }
    }
}

} // verus!
