//! What the GitHub tools decide: required arguments, the token-management
//! tools' effects and messages, and the text of a tool result.

use vstd::prelude::*;
use vstd::string::StringExecFns;
use crate::token_config::{TokenConfig, opt_string_view, lookup, default_after_remove};
use crate::server_error::ServerError;
use crate::text::{chars_of, string_of, str_eq};
use base64::Engine;

verus! {

/// A required string argument: its value, or a handler error naming the
/// missing key.
pub fn get_arg(value: Option<&str>, key: &str) -> (r: Result<String, ServerError>)
    ensures
        match value {
            Some(v) => r matches Ok(s) && s@ == v@,
            None => r matches Err(ServerError::Handler(m)) && m@ == "missing "@ + key@,
        },
{
    match value {
        Some(v) => Ok(String::from_str(v)),
        None => {
            let mut m = String::from_str("missing ");
            m.append(key);
            Err(ServerError::Handler(m))
        },
    }
}

/// `Token '<name>'` followed by `rest`.
pub open spec fn token_message(name: Seq<char>, rest: Seq<char>) -> Seq<char> {
    "Token '"@ + name + "'"@ + rest
}

fn token_message_of(name: &str, rest: &str) -> (r: String)
    ensures
        r@ == token_message(name@, rest@),
{
    let mut r = String::from_str("Token '");
    r.append(name);
    r.append("'");
    r.append(rest);
    r
}

/// One row of the token listing.
pub struct TokenInfo {
    pub name: String,
    pub is_default: bool,
    pub is_current: bool,
    /// The first ten characters of the token followed by `...`.
    pub preview: String,
}

/// The preview of a token: its first ten characters and `...`.
pub open spec fn token_preview_of(t: Seq<char>) -> Seq<char> {
    (if t.len() > 10 { t.take(10) } else { t }) + "..."@
}

fn preview(t: &str) -> (r: String)
    ensures
        r@ == token_preview_of(t@),
{
    let v = chars_of(t);
    let mut head: Vec<char> = Vec::new();
    let mut i: usize = 0;
    while i < v.len() && i < 10
        invariant
            i <= v@.len(),
            i <= 10,
            head@ == v@.take(i as int),
        decreases v.len() - i,
    {
        head.push(v[i]);
        assert(v@.take(i + 1) == v@.take(i as int).push(v@[i as int]));
        i = i + 1;
    }
    assert(v@.len() > 10 ==> i == 10);
    assert(v@.len() <= 10 ==> v@.take(i as int) =~= v@);
    let mut r = string_of(&head);
    r.append("...");
    r
}

/// The token listing: one row per stored name, in the order the names are
/// listed, marking the default name and the name of the token in use.
pub fn token_listing(config: &TokenConfig, current_name: &Option<String>) -> (r: Vec<TokenInfo>)
    ensures
        r@.len() == config.tokens@.len(),
        forall|i: int, j: int| 0 <= i < r@.len() && 0 <= j < r@.len() && i != j ==> r@[i].name@ != r@[j].name@,
        forall|k: Seq<char>| config.tokens@.dom().contains(k) ==> exists|i: int| 0 <= i < r@.len() && #[trigger] r@[i].name@ == k,
        forall|i: int| #![trigger r@[i]] 0 <= i < r@.len() ==> {
            &&& config.tokens@.dom().contains(r@[i].name@)
            &&& r@[i].is_default == (opt_string_view(config.default_token) == Some(r@[i].name@))
            &&& r@[i].is_current == (opt_string_view(*current_name) == Some(r@[i].name@))
            &&& r@[i].preview@ == token_preview_of(config.tokens@[r@[i].name@])
        },
{
    let names = config.list_tokens();
    let mut rows: Vec<TokenInfo> = Vec::new();
    let mut i: usize = 0;
    while i < names.len()
        invariant
            i <= names@.len(),
            names@.len() == config.tokens@.len(),
            forall|a: int| 0 <= a < names@.len() ==> config.tokens@.dom().contains(#[trigger] names@[a]@),
            rows@.len() == i,
            forall|a: int| #![trigger rows@[a]] 0 <= a < i ==> {
                &&& rows@[a].name@ == names@[a]@
                &&& rows@[a].is_default == (opt_string_view(config.default_token) == Some(rows@[a].name@))
                &&& rows@[a].is_current == (opt_string_view(*current_name) == Some(rows@[a].name@))
                &&& rows@[a].preview@ == token_preview_of(config.tokens@[rows@[a].name@])
            },
        decreases names.len() - i,
    {
        let name: &String = names[i];
        assert(config.tokens@.dom().contains(names@[i as int]@));
        let is_default = match &config.default_token {
            Some(d) => str_eq(d.as_str(), name.as_str()),
            None => false,
        };
        let is_current = match current_name {
            Some(c) => str_eq(c.as_str(), name.as_str()),
            None => false,
        };
        let token = match config.get_token(name.as_str()) {
            Some(t) => t,
            None => "",
        };
        let p = preview(token);
        rows.push(TokenInfo { name: String::from_str(name.as_str()), is_default, is_current, preview: p });
        i = i + 1;
    }
    proof {
        assert forall|k: Seq<char>| config.tokens@.dom().contains(k) implies exists|a: int| 0 <= a < rows@.len() && #[trigger] rows@[a].name@ == k by {
            let a = choose|a: int| 0 <= a < names@.len() && #[trigger] names@[a]@ == k;
            assert(rows@[a].name@ == names@[a]@);
        }
        assert forall|a: int, b: int| 0 <= a < rows@.len() && 0 <= b < rows@.len() && a != b implies rows@[a].name@ != rows@[b].name@ by {
            assert(rows@[a].name@ == names@[a]@);
            assert(rows@[b].name@ == names@[b]@);
        }
    }
    rows
}

/// Adds a token and, when asked, makes it the default; returns the message.
/// The message claims the token current when `set_as_current` (the running
/// server keeps the token it started with), else default when asked.
pub fn add_token_to(config: &mut TokenConfig, name: &str, token: &str, set_as_default: bool, set_as_current: bool) -> (m: String)
    ensures
        final(config).tokens@ == old(config).tokens@.insert(name@, token@),
        set_as_default ==> opt_string_view(final(config).default_token) == Some(name@),
        !set_as_default ==> final(config).default_token == old(config).default_token,
        m@ == token_message(name@, if set_as_current {
            " added successfully. Set as current and default."@
        } else if set_as_default {
            " added successfully. Set as default."@
        } else {
            " added successfully."@
        }),
{
    config.add_token(String::from_str(name), String::from_str(token));
    if set_as_default {
        let ok = config.set_default_token(name);
        assert(ok);
    }
    if set_as_current {
        token_message_of(name, " added successfully. Set as current and default.")
    } else if set_as_default {
        token_message_of(name, " added successfully. Set as default.")
    } else {
        token_message_of(name, " added successfully.")
    }
}

/// Removes a token: the success message, and a default that named it is
/// cleared; or the not-found message when there was no such token, and the
/// configuration is then unchanged (there is nothing to save).
pub fn remove_token_from(config: &mut TokenConfig, name: &str) -> (r: Result<String, String>)
    ensures
        old(config).tokens@.dom().contains(name@) ==> {
            &&& final(config).tokens@ == old(config).tokens@.remove(name@)
            &&& opt_string_view(final(config).default_token) == default_after_remove(
                opt_string_view(old(config).default_token),
                name@,
            )
            &&& r matches Ok(m) && m@ == token_message(name@, " removed successfully"@)
        },
        !old(config).tokens@.dom().contains(name@) ==> {
            &&& final(config).tokens@ == old(config).tokens@
            &&& final(config).default_token == old(config).default_token
            &&& r matches Err(m) && m@ == token_message(name@, " not found"@)
        },
{
    if config.get_token(name).is_none() {
        return Err(token_message_of(name, " not found"));
    }
    let removed = config.remove_token(name);
    assert(removed);
    Ok(token_message_of(name, " removed successfully"))
}

/// Makes a token the default: the success message, or the not-found
/// message when there is no such token (the default is then unchanged).
pub fn set_default_in(config: &mut TokenConfig, name: &str) -> (r: Result<String, String>)
    ensures
        final(config).tokens@ == old(config).tokens@,
        old(config).tokens@.dom().contains(name@) ==> (r matches Ok(m) && m@ == token_message(
            name@,
            " set as default"@,
        )) && opt_string_view(final(config).default_token) == Some(name@),
        !old(config).tokens@.dom().contains(name@) ==> (r matches Err(m) && m@ == token_message(
            name@,
            " not found"@,
        )) && final(config).default_token == old(config).default_token,
{
    if config.set_default_token(name) {
        Ok(token_message_of(name, " set as default"))
    } else {
        Err(token_message_of(name, " not found"))
    }
}

/// The answer of the tool that asks to use a token: the token cannot be
/// switched in a running server, so a found token gets instructions and a
/// missing one the not-found message.
pub fn use_token_reply(config: &TokenConfig, name: &str) -> (r: Result<String, String>)
    ensures
        lookup(config.tokens@, name@) is Some ==> (r matches Ok(m) && m@ == token_message(
            name@,
            " found. To switch tokens, restart the server with GITHUB_TOKEN environment variable or set as default."@,
        )),
        lookup(config.tokens@, name@) is None ==> (r matches Err(m) && m@ == token_message(
            name@,
            " not found"@,
        )),
{
    match config.get_token(name) {
        Some(_) => Ok(token_message_of(
            name,
            " found. To switch tokens, restart the server with GITHUB_TOKEN environment variable or set as default.",
        )),
        None => Err(token_message_of(name, " not found")),
    }
}

/// What `base64`'s standard engine decodes `text` to: the bytes, or `None`
/// when the text is not valid standard base64.
pub uninterp spec fn base64_standard_decoded(text: Seq<char>) -> Option<Seq<u8>>;

/// Decodes standard base64 with `base64::engine::general_purpose::STANDARD`.
/// Claimed: the result is the named decoding of the text.
#[verifier::external_body]
fn base64_standard_decode(text: &str) -> (r: Option<Vec<u8>>)
    ensures
        match r {
            Some(v) => base64_standard_decoded(text@) == Some(v@),
            None => base64_standard_decoded(text@) is None,
        },
{
    match base64::engine::general_purpose::STANDARD.decode(text) {
        Ok(v) => Some(v),
        Err(_) => None,
    }
}

/// The text of a file tool result. With a JSON body whose `content` field
/// (`content`) decodes from base64 to UTF-8 text, that text; with JSON
/// otherwise, the pretty-printed JSON (`pretty`, or the raw body when it
/// could not be printed); without JSON (`has_json` false), the raw body.
pub open spec fn file_text_of(has_json: bool, content: Option<Seq<char>>, pretty: Option<Seq<char>>, body: Seq<char>) -> Seq<char> {
    let fallback = match pretty {
        Some(p) => p,
        None => body,
    };
    if !has_json {
        body
    } else {
        match content {
            Some(c) => match base64_standard_decoded(c) {
                Some(bytes) => if vstd::utf8::valid_utf8(bytes) {
                    vstd::utf8::decode_utf8(bytes)
                } else {
                    fallback
                },
                None => fallback,
            },
            None => fallback,
        }
    }
}

/// Computes the text of a file tool result.
pub fn file_result_text(has_json: bool, content: Option<&str>, pretty: Option<String>, body: String) -> (r: String)
    ensures
        r@ == file_text_of(has_json, crate::gitlab_paths::opt_chars(content), opt_string_view(pretty), body@),
{
    let fallback = match pretty {
        Some(p) => p,
        None => body.clone(),
    };
    if !has_json {
        return body;
    }
    match content {
        Some(c) => match base64_standard_decode(c) {
            Some(bytes) => match crate::handler::decode_text(bytes.as_slice()) {
                Ok(t) => t,
                Err(_) => fallback,
            },
            None => fallback,
        },
        None => fallback,
    }
}

/// The text of any other tool result: the pretty-printed JSON when the body
/// is JSON (the raw body when it could not be printed), else the raw body.
pub fn result_text(has_json: bool, pretty: Option<String>, body: String) -> (r: String)
    ensures
        r@ == (if has_json {
            match pretty {
                Some(p) => p@,
                None => body@,
            }
        } else {
            body@
        }),
{
    if has_json {
        match pretty {
            Some(p) => p,
            None => body,
        }
    } else {
        body
    }
}

/// Whether a tool result is flagged as an error: only for a response that
/// is not a success.
pub fn result_error_flag(success: bool) -> (r: Option<bool>)
    ensures
        r == (if success { None } else { Some(true) }),
{
    if success { None } else { Some(true) }
}

} // verus!
