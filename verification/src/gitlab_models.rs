//! What the GitLab client receives from the GitLab server: projects,
//! issues, merge requests and users, and how a tool reply is read.

use vstd::prelude::*;
use vstd::string::StringExecFns;

verus! {

/// A GitLab project.
#[derive(Debug)]
pub struct Project {
    pub id: u64,
    pub iid: Option<u64>,
    pub name: String,
    pub path: Option<String>,
    pub path_with_namespace: String,
    pub description: Option<String>,
    pub default_branch: Option<String>,
    pub web_url: String,
    pub ssh_url_to_repo: Option<String>,
    pub http_url_to_repo: Option<String>,
    pub created_at: Option<String>,
    pub last_activity_at: Option<String>,
    pub visibility: Option<String>,
    pub star_count: Option<u64>,
    pub forks_count: Option<u64>,
    pub topics: Option<Vec<String>>,
}

/// A GitLab issue.
#[derive(Debug)]
pub struct Issue {
    pub id: u64,
    pub iid: u64,
    pub project_id: u64,
    pub title: String,
    pub description: Option<String>,
    pub state: String,
    pub web_url: String,
    pub author: Option<User>,
    pub assignees: Option<Vec<User>>,
    pub created_at: String,
    pub updated_at: String,
    pub labels: Option<Vec<String>>,
}

/// A GitLab merge request.
#[derive(Debug)]
pub struct MergeRequest {
    pub id: u64,
    pub iid: u64,
    pub project_id: u64,
    pub title: String,
    pub description: Option<String>,
    pub state: String,
    pub web_url: String,
    pub author: Option<User>,
    pub assignees: Option<Vec<User>>,
    pub source_branch: String,
    pub target_branch: String,
    pub created_at: String,
    pub updated_at: String,
    pub labels: Option<Vec<String>>,
}

/// A GitLab user.
#[derive(Debug)]
pub struct User {
    pub id: u64,
    pub username: String,
    pub name: String,
    pub web_url: Option<String>,
}

/// What the client reads of a tool reply: its `isError` flag when that is a
/// boolean, and the `text` of the first content block when the content is
/// a list whose first block has a string `text`.
pub struct ToolReply {
    pub is_error: Option<bool>,
    pub first_text: Option<String>,
}

/// Whether `s` starts with `prefix`.
pub open spec fn has_prefix(s: Seq<char>, prefix: Seq<char>) -> bool {
    prefix.len() <= s.len() && s.take(prefix.len() as int) == prefix
}

fn starts_with_str(s: &str, prefix: &str) -> (b: bool)
    ensures
        b == has_prefix(s@, prefix@),
{
    let v = crate::text::chars_of(s);
    let p = crate::text::chars_of(prefix);
    if p.len() > v.len() {
        return false;
    }
    let mut i: usize = 0;
    while i < p.len()
        invariant
            v@ == s@,
            p@ == prefix@,
            p@.len() <= v@.len(),
            i <= p@.len(),
            forall|j: int| 0 <= j < i ==> v@[j] == p@[j],
        decreases p.len() - i,
    {
        if v[i] != p[i] {
            assert(v@.take(p@.len() as int)[i as int] != p@[i as int]);

            return false;
        }
        i = i + 1;
    }
    assert(v@.take(p@.len() as int) =~= p@);
    true
}

/// Whether a reply is flagged as an error and its text starts with `Error`.
pub open spec fn is_error_reply(reply: ToolReply) -> bool {
    &&& reply.is_error == Some(true)
    &&& reply.first_text is Some
    &&& has_prefix(reply.first_text->0@, "Error"@)
}

/// How a listing reply is read: a reply flagged as an error whose text
/// starts with `Error` fails with that text; otherwise the text to decode,
/// if there is one (no text means an empty listing).
pub fn listing_reply_text(reply: ToolReply) -> (r: Result<Option<String>, String>)
    ensures
        is_error_reply(reply) ==> r == Err::<Option<String>, String>(reply.first_text->0),
        !is_error_reply(reply) ==> r == Ok::<Option<String>, String>(reply.first_text),
{
    let flagged = match reply.is_error {
        Some(b) => b,
        None => false,
    };
    match reply.first_text {
        Some(t) => {
            if flagged && starts_with_str(t.as_str(), "Error") {
                Err(t)
            } else {
                Ok(Some(t))
            }
        },
        None => Ok(None),
    }
}

/// How a reply for one item is read: its text, or a failure saying that
/// the response held no data of the given kind (`project`, `issue`,
/// `merge request`).
pub fn item_reply_text(reply: ToolReply, kind: &str) -> (r: Result<String, String>)
    ensures
        match reply.first_text {
            Some(t) => r == Ok::<String, String>(t),
            None => r matches Err(m) && m@ == "No "@ + kind@ + " data in response"@,
        },
{
    match reply.first_text {
        Some(t) => Ok(t),
        None => {
            let mut m = String::from_str("No ");
            m.append(kind);
            m.append(" data in response");
            Err(m)
        },
    }
}

/// The id of the request that calls the tool `name`.
pub fn tool_request_id(name: &str) -> (r: String)
    ensures
        r@ == "call-tool-"@ + name@,
{
    let mut r = String::from_str("call-tool-");
    r.append(name);
    r
}

/// A message that arrives while the client waits for a reply.
pub enum Incoming {
    /// A result, with its id when the id is a string.
    Result { id: Option<String> },
    /// A request from the server.
    Request { method: String },
    /// A notification.
    Notification,
    /// Anything else.
    Other,
}

/// What the waiting client does with an incoming message.
pub enum WaitAction {
    /// It is the awaited result: hand it back.
    Deliver,
    /// Answer the server's `roots/list` request with an empty list of roots.
    AnswerRoots,
    /// Keep waiting.
    Ignore,
}

/// Decides what to do with a message while waiting for the result with id
/// `expected`.
pub fn on_incoming(message: &Incoming, expected: &str) -> (a: WaitAction)
    ensures
        match *message {
            Incoming::Result { id } => if id matches Some(i) && i@ == expected@ {
                a is Deliver
            } else {
                a is Ignore
            },
            Incoming::Request { method } => if method@ == "roots/list"@ {
                a is AnswerRoots
            } else {
                a is Ignore
            },
            _ => a is Ignore,
        },
{
    match message {
        Incoming::Result { id } => {
            match id {
                Some(i) => {
                    if crate::text::str_eq(i.as_str(), expected) {
                        WaitAction::Deliver
                    } else {
                        WaitAction::Ignore
                    }
                },
                None => WaitAction::Ignore,
            }
        },
        Incoming::Request { method } => {
            if crate::text::str_eq(method.as_str(), "roots/list") {
                WaitAction::AnswerRoots
            } else {
                WaitAction::Ignore
            }
        },
        _ => WaitAction::Ignore,
    }
}

} // verus!
