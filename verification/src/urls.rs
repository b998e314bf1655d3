//! URL parsing through the `url` crate.

use vstd::prelude::*;

verus! {

/// What `url::Url::parse` makes of `input`: on success the URL's host text
/// (`Url::host_str`, if it has a host) and its serialization (`Url::as_str`),
/// on failure the text of the parse error.
pub uninterp spec fn url_parse_outcome(input: Seq<char>) -> Result<(Option<Seq<char>>, Seq<char>), Seq<char>>;

/// The host part of a parse outcome.
pub open spec fn parsed_host(o: Result<(Option<Seq<char>>, Seq<char>), Seq<char>>) -> Result<Option<Seq<char>>, Seq<char>> {
    match o {
        Ok(p) => Ok(p.0),
        Err(e) => Err(e),
    }
}

/// The characters of a parse outcome.
pub open spec fn outcome_view(r: Result<Option<String>, String>) -> Result<Option<Seq<char>>, Seq<char>> {
    match r {
        Ok(Some(h)) => Ok(Some(h@)),
        Ok(None) => Ok(None),
        Err(e) => Err(e@),
    }
}

/// Parses `input` with `url::Url::parse`, keeping the host on success
/// (`Url::host_str`) and the error's `Display` text on failure. The contract
/// names the outcome and says nothing more of it.
#[verifier::external_body]
pub(crate) fn parse_url(input: &str) -> (r: Result<Option<String>, String>)
    ensures
        outcome_view(r) == parsed_host(url_parse_outcome(input@)),
{
    match url::Url::parse(input) {
        Ok(u) => Ok(u.host_str().map(|h| h.to_string())),
        Err(e) => Err(e.to_string()),
    }
}

/// Whether `input` parses as a URL.
pub open spec fn is_valid_url(input: Seq<char>) -> bool {
    url_parse_outcome(input) is Ok
}

/// Parses `input` with `url::Url::parse`, keeping the URL's serialization
/// (`Url::as_str`) on success and the error's `Display` text on failure.
/// Claimed: both are the named outcome's.
#[verifier::external_body]
pub(crate) fn parse_url_text(input: &str) -> (r: Result<String, String>)
    ensures
        match r {
            Ok(t) => url_parse_outcome(input@) matches Ok(p) && t@ == p.1,
            Err(e) => url_parse_outcome(input@) == Err::<(Option<Seq<char>>, Seq<char>), Seq<char>>(e@),
        },
{
    match url::Url::parse(input) {
        Ok(u) => Ok(u.as_str().to_string()),
        Err(e) => Err(e.to_string()),
    }
}

} // verus!
