//! The GitHub API paths that the GitHub tools request: everything sits
//! under `/repos/<owner>/<repo>`, and listings take a page size and the
//! filters that were given, in a fixed order, written as given.

use vstd::prelude::*;
use vstd::string::StringExecFns;
use crate::text::{decimal, u64_to_decimal};

verus! {

/// An integer written in decimal, with a minus sign when negative.
pub open spec fn int_text(i: int) -> Seq<char> {
    if i < 0 {
        "-"@ + decimal((-i) as nat)
    } else {
        decimal(i as nat)
    }
}

/// Writes a page size given as a signed number.
pub fn i32_text(i: i32) -> (r: String)
    ensures
        r@ == int_text(i as int),
{
    if i < 0 {
        let mut r = String::from_str("-");
        let m: i64 = -(i as i64);
        let d = u64_to_decimal(m as u64);
        r.append(d.as_str());
        r
    } else {
        u64_to_decimal(i as u64)
    }
}

/// `/repos/<owner>/<repo>` followed by `rest`.
pub open spec fn repo_path_of(owner: Seq<char>, repo: Seq<char>, rest: Seq<char>) -> Seq<char> {
    "/repos/"@ + owner + "/"@ + repo + rest
}

/// The path of a repository resource.
pub fn repo_path(owner: &str, repo: &str, rest: &str) -> (r: String)
    ensures
        r@ == repo_path_of(owner@, repo@, rest@),
{
    let mut r = String::from_str("/repos/");
    r.append(owner);
    r.append("/");
    r.append(repo);
    r.append(rest);
    r
}

/// The filters of a listing: `&<key>=<value>` for each one that is given,
/// in order.
pub open spec fn filter_text(params: Seq<(Seq<char>, Option<Seq<char>>)>) -> Seq<char>
    decreases params.len(),
{
    if params.len() == 0 {
        Seq::empty()
    } else {
        filter_text(params.drop_last()) + (match params.last().1 {
            Some(v) => "&"@ + params.last().0 + "="@ + v,
            None => Seq::empty(),
        })
    }
}

/// The filters as character sequences.
pub open spec fn param_views(p: Seq<(&str, Option<String>)>) -> Seq<(Seq<char>, Option<Seq<char>>)> {
    p.map_values(|x: (&str, Option<String>)| (x.0@, crate::token_config::opt_string_view(x.1)))
}

/// A listing: `/repos/<owner>/<repo><resource>?per_page=<n>` and the given
/// filters.
pub open spec fn listing_path_of(
    owner: Seq<char>,
    repo: Seq<char>,
    resource: Seq<char>,
    per_page: Seq<char>,
    params: Seq<(Seq<char>, Option<Seq<char>>)>,
) -> Seq<char> {
    repo_path_of(owner, repo, resource) + "?per_page="@ + per_page + filter_text(params)
}

/// The path of a listing.
pub fn listing_path(owner: &str, repo: &str, resource: &str, per_page: &str, params: &Vec<(&str, Option<String>)>) -> (r: String)
    ensures
        r@ == listing_path_of(owner@, repo@, resource@, per_page@, param_views(params@)),
{
    let mut r = repo_path(owner, repo, resource);
    r.append("?per_page=");
    r.append(per_page);
    let ghost start = r@;
    let mut i: usize = 0;
    assert(param_views(params@).take(0) =~= Seq::<(Seq<char>, Option<Seq<char>>)>::empty());
    while i < params.len()
        invariant
            i <= params@.len(),
            r@ == start + filter_text(param_views(params@).take(i as int)),
        decreases params.len() - i,
    {
        let ghost t = param_views(params@).take(i + 1);
        assert(t.drop_last() =~= param_views(params@).take(i as int));
        assert(t.last() == param_views(params@)[i as int]);
        match &params[i].1 {
            Some(v) => {
                r.append("&");
                r.append(params[i].0);
                r.append("=");
                r.append(v.as_str());
            },
            None => {},
        }
        i = i + 1;
    }
    assert(param_views(params@).take(params@.len() as int) =~= param_views(params@));
    r
}

/// Issues of a repository: page size, then state, labels and since when
/// given.
pub fn issues_path(owner: &str, repo: &str, limit: i32, state: Option<String>, labels: Option<String>, since: Option<String>) -> (r: String)
    ensures
        r@ == listing_path_of(
            owner@,
            repo@,
            "/issues"@,
            int_text(limit as int),
            seq![
                ("state"@, crate::token_config::opt_string_view(state)),
                ("labels"@, crate::token_config::opt_string_view(labels)),
                ("since"@, crate::token_config::opt_string_view(since)),
            ],
        ),
{
    let n = i32_text(limit);
    let params = vec![("state", state), ("labels", labels), ("since", since)];
    let r = listing_path(owner, repo, "/issues", n.as_str(), &params);
    assert(param_views(params@) =~= seq![
        ("state"@, crate::token_config::opt_string_view(params@[0].1)),
        ("labels"@, crate::token_config::opt_string_view(params@[1].1)),
        ("since"@, crate::token_config::opt_string_view(params@[2].1)),
    ]);
    r
}

/// Pull requests of a repository: page size, then state, head and base when
/// given.
pub fn pulls_path(owner: &str, repo: &str, limit: i32, state: Option<String>, head: Option<String>, base: Option<String>) -> (r: String)
    ensures
        r@ == listing_path_of(
            owner@,
            repo@,
            "/pulls"@,
            int_text(limit as int),
            seq![
                ("state"@, crate::token_config::opt_string_view(state)),
                ("head"@, crate::token_config::opt_string_view(head)),
                ("base"@, crate::token_config::opt_string_view(base)),
            ],
        ),
{
    let n = i32_text(limit);
    let params = vec![("state", state), ("head", head), ("base", base)];
    let r = listing_path(owner, repo, "/pulls", n.as_str(), &params);
    assert(param_views(params@) =~= seq![
        ("state"@, crate::token_config::opt_string_view(params@[0].1)),
        ("head"@, crate::token_config::opt_string_view(params@[1].1)),
        ("base"@, crate::token_config::opt_string_view(params@[2].1)),
    ]);
    r
}

/// Commits of a repository: page size, then sha, path, author, since and
/// until when given.
pub fn commits_path(
    owner: &str,
    repo: &str,
    limit: u64,
    sha: Option<String>,
    path: Option<String>,
    author: Option<String>,
    since: Option<String>,
    until: Option<String>,
) -> (r: String)
    ensures
        r@ == listing_path_of(
            owner@,
            repo@,
            "/commits"@,
            decimal(limit as nat),
            seq![
                ("sha"@, crate::token_config::opt_string_view(sha)),
                ("path"@, crate::token_config::opt_string_view(path)),
                ("author"@, crate::token_config::opt_string_view(author)),
                ("since"@, crate::token_config::opt_string_view(since)),
                ("until"@, crate::token_config::opt_string_view(until)),
            ],
        ),
{
    let n = u64_to_decimal(limit);
    let params = vec![("sha", sha), ("path", path), ("author", author), ("since", since), ("until", until)];
    let r = listing_path(owner, repo, "/commits", n.as_str(), &params);
    assert(param_views(params@) =~= seq![
        ("sha"@, crate::token_config::opt_string_view(params@[0].1)),
        ("path"@, crate::token_config::opt_string_view(params@[1].1)),
        ("author"@, crate::token_config::opt_string_view(params@[2].1)),
        ("since"@, crate::token_config::opt_string_view(params@[3].1)),
        ("until"@, crate::token_config::opt_string_view(params@[4].1)),
    ]);
    r
}

/// Branches of a repository: page size, and `&protected=true` only when
/// protected branches are asked for.
pub fn branches_path(owner: &str, repo: &str, limit: u64, protected: Option<bool>) -> (r: String)
    ensures
        r@ == repo_path_of(owner@, repo@, "/branches"@) + "?per_page="@ + decimal(limit as nat) + (if protected
            == Some(true) {
            "&protected=true"@
        } else {
            Seq::empty()
        }),
{
    let mut r = repo_path(owner, repo, "/branches");
    r.append("?per_page=");
    let n = u64_to_decimal(limit);
    r.append(n.as_str());
    if protected == Some(true) {
        r.append("&protected=true");
    }
    r
}

/// A file or directory at a branch (`main` when none is given).
pub fn contents_path(owner: &str, repo: &str, path: &str, branch: Option<String>) -> (r: String)
    ensures
        r@ == repo_path_of(owner@, repo@, "/contents/"@ + path@) + "?ref="@ + (match branch {
            Some(b) => b@,
            None => "main"@,
        }),
{
    let mut rest = String::from_str("/contents/");
    rest.append(path);
    let mut r = repo_path(owner, repo, rest.as_str());
    r.append("?ref=");
    match branch {
        Some(b) => r.append(b.as_str()),
        None => r.append("main"),
    }
    r
}

/// The README, at a branch when one is given.
pub fn readme_path(owner: &str, repo: &str, branch: Option<String>) -> (r: String)
    ensures
        r@ == repo_path_of(owner@, repo@, "/readme"@) + (match branch {
            Some(b) => "?ref="@ + b@,
            None => Seq::empty(),
        }),
{
    let mut r = repo_path(owner, repo, "/readme");
    match branch {
        Some(b) => {
            r.append("?ref=");
            r.append(b.as_str());
        },
        None => {},
    }
    r
}

/// The comparison of two refs.
pub fn compare_path(owner: &str, repo: &str, base: &str, head: &str) -> (r: String)
    ensures
        r@ == repo_path_of(owner@, repo@, "/compare/"@ + base@ + "..."@ + head@),
{
    let mut rest = String::from_str("/compare/");
    rest.append(base);
    rest.append("...");
    rest.append(head);
    repo_path(owner, repo, rest.as_str())
}

/// A numbered sub-listing, such as the comments of an issue:
/// `/repos/<owner>/<repo><resource>/<number><sub>?per_page=<n>`.
pub fn numbered_listing_path(owner: &str, repo: &str, resource: &str, number: &str, sub: &str, limit: i32) -> (r: String)
    ensures
        r@ == repo_path_of(owner@, repo@, resource@ + "/"@ + number@ + sub@) + "?per_page="@ + int_text(limit as int),
{
    let mut rest = String::from_str(resource);
    rest.append("/");
    rest.append(number);
    rest.append(sub);
    let mut r = repo_path(owner, repo, rest.as_str());
    r.append("?per_page=");
    let n = i32_text(limit);
    r.append(n.as_str());
    r
}

} // verus!
