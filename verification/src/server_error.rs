//! Errors of the MCP server wrapper, and the adapters that turn closures
//! into request and notification handlers.

use vstd::prelude::*;

verus! {

/// Errors emitted by the MCP server wrapper. Protocol and serialization
/// failures carry the text of the underlying error.
#[derive(Debug)]
pub enum ServerError {
    CapabilitiesLocked,
    Capability(String),
    Protocol(String),
    Serialization(String),
    Handler(String),
}

/// The text shown for an error.
pub open spec fn server_error_text(e: ServerError) -> Seq<char> {
    match e {
        ServerError::CapabilitiesLocked => "capabilities are locked after initialization"@,
        ServerError::Capability(m) => "capability not available: "@ + m@,
        ServerError::Protocol(m) => "protocol error: "@ + m@,
        ServerError::Serialization(m) => "serialization failed: "@ + m@,
        ServerError::Handler(m) => "handler error: "@ + m@,
    }
}

fn prefixed(prefix: &str, rest: &str) -> (r: String)
    ensures
        r@ == prefix@ + rest@,
{
    let mut r = String::from_str(prefix);
    r.append(rest);
    r
}

impl ServerError {
    /// The text of the error.
    pub fn message(&self) -> (r: String)
        ensures
            r@ == server_error_text(*self),
    {
        match self {
            ServerError::CapabilitiesLocked => String::from_str("capabilities are locked after initialization"),
            ServerError::Capability(m) => prefixed("capability not available: ", m.as_str()),
            ServerError::Protocol(m) => prefixed("protocol error: ", m.as_str()),
            ServerError::Serialization(m) => prefixed("serialization failed: ", m.as_str()),
            ServerError::Handler(m) => prefixed("handler error: ", m.as_str()),
        }
    }
}

/// Adapter that turns a closure into a notification handler.
pub struct NotificationHandlerFn<F> {
    handler: F,
}

impl<F> NotificationHandlerFn<F> {
    /// The closure this adapter calls.
    pub closed spec fn spec_handler(&self) -> F {
        self.handler
    }

    /// Wraps `handler`.
    pub fn new(handler: F) -> (r: NotificationHandlerFn<F>)
        ensures
            r.spec_handler() == handler,
    {
        NotificationHandlerFn { handler }
    }

    /// The wrapped closure, for the code that dispatches notifications.
    pub fn handler(&self) -> (r: &F)
        ensures
            *r == self.spec_handler(),
    {
        &self.handler
    }
}

/// Adapter that turns a closure into a request handler.
pub struct RequestHandlerFn<F> {
    handler: F,
}

impl<F> RequestHandlerFn<F> {
    /// The closure this adapter calls.
    pub closed spec fn spec_handler(&self) -> F {
        self.handler
    }

    /// Wraps `handler`.
    pub fn new(handler: F) -> (r: RequestHandlerFn<F>)
        ensures
            r.spec_handler() == handler,
    {
        RequestHandlerFn { handler }
    }

    /// The wrapped closure, for the code that dispatches requests.
    pub fn handler(&self) -> (r: &F)
        ensures
            *r == self.spec_handler(),
    {
        &self.handler
    }
}

} // verus!
