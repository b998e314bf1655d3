//! The API paths and query parameters that the GitLab tools request, with
//! project ids, file paths and filters percent-encoded by `urlencoding`.

use vstd::prelude::*;
use vstd::string::StringExecFns;
use crate::text::{decimal, u64_to_decimal};
use crate::server_error::ServerError;

verus! {

/// Whether a byte is left as it is by percent-encoding: ASCII letters,
/// digits, `-`, `.`, `_` and `~`.
pub open spec fn is_unreserved(b: u8) -> bool {
    (0x30 <= b && b <= 0x39) || (0x41 <= b && b <= 0x5a) || (0x61 <= b && b <= 0x7a)
        || b == 0x2d || b == 0x2e || b == 0x5f || b == 0x7e
}

/// The upper-case hexadecimal digit for `d` (below 16).
pub open spec fn hex_digit(d: u8) -> char {
    if d < 10 {
        ((0x30 + d) as u8) as char
    } else {
        ((0x41 + d - 10) as u8) as char
    }
}

/// Percent-encoding of bytes: an unreserved byte stands for itself, any
/// other becomes `%` and its two upper-case hexadecimal digits.
pub open spec fn percent_encoded(bytes: Seq<u8>) -> Seq<char>
    decreases bytes.len(),
{
    if bytes.len() == 0 {
        Seq::empty()
    } else {
        let b = bytes[0];
        let head = if is_unreserved(b) {
            seq![b as char]
        } else {
            seq!['%', hex_digit(b / 16), hex_digit(b % 16)]
        };
        head + percent_encoded(bytes.drop_first())
    }
}

/// The percent-encoding of the UTF-8 bytes of a string.
pub open spec fn encoded(s: Seq<char>) -> Seq<char> {
    percent_encoded(vstd::utf8::encode_utf8(s))
}

/// Percent-encodes `data` with `urlencoding::encode`. Claimed: the result is
/// the percent-encoding of the UTF-8 bytes of `data`, every byte but the
/// unreserved ones written as `%` and two upper-case hexadecimal digits.
#[verifier::external_body]
pub(crate) fn url_encode(data: &str) -> (r: String)
    ensures
        r@ == encoded(data@),
{
    urlencoding::encode(data).into_owned()
}

fn append_encoded(s: &mut String, data: &str)
    ensures
        final(s)@ == old(s)@ + encoded(data@),
{
    let e = url_encode(data);
    s.append(e.as_str());
}

fn append_decimal(s: &mut String, n: u64)
    ensures
        final(s)@ == old(s)@ + decimal(n as nat),
{
    let d = u64_to_decimal(n);
    s.append(d.as_str());
}

fn append_opt(s: &mut String, key: &str, value: Option<&str>, encode: bool)
    ensures
        final(s)@ == old(s)@ + opt_param(key@, opt_chars(value), encode),
{
    match value {
        Some(v) => {
            s.append(key);
            if encode {
                append_encoded(s, v);
            } else {
                s.append(v);
            }
        },
        None => {},
    }
}

/// The characters of an optional string slice.
pub open spec fn opt_chars(o: Option<&str>) -> Option<Seq<char>> {
    match o {
        Some(s) => Some(s@),
        None => None,
    }
}

/// `key` followed by the value, encoded or not, when there is a value;
/// nothing otherwise.
pub open spec fn opt_param(key: Seq<char>, value: Option<Seq<char>>, encode: bool) -> Seq<char> {
    match value {
        Some(v) => key + (if encode { encoded(v) } else { v }),
        None => Seq::empty(),
    }
}

/// `projects/` and the encoded project id.
pub open spec fn project_path_of(project_id: Seq<char>) -> Seq<char> {
    "projects/"@ + encoded(project_id)
}

/// The path of a project.
pub fn project_path(project_id: &str) -> (r: String)
    ensures
        r@ == project_path_of(project_id@),
{
    let mut r = String::from_str("projects/");
    append_encoded(&mut r, project_id);
    r
}

/// The issues of a project, one page of them in a state, optionally with
/// labels.
pub open spec fn issues_path_of(project_id: Seq<char>, per_page: u64, page: u64, state: Seq<char>, labels: Option<Seq<char>>) -> Seq<char> {
    project_path_of(project_id) + "/issues?per_page="@ + decimal(per_page as nat) + "&page="@ + decimal(page as nat)
        + "&state="@ + state + opt_param("&labels="@, labels, true)
}

/// The path listing issues.
pub fn issues_path(project_id: &str, per_page: u64, page: u64, state: &str, labels: Option<&str>) -> (r: String)
    ensures
        r@ == issues_path_of(project_id@, per_page, page, state@, opt_chars(labels)),
{
    let mut r = project_path(project_id);
    r.append("/issues?per_page=");
    append_decimal(&mut r, per_page);
    r.append("&page=");
    append_decimal(&mut r, page);
    r.append("&state=");
    r.append(state);
    append_opt(&mut r, "&labels=", labels, true);
    r
}

/// One issue of a project.
pub open spec fn issue_path_of(project_id: Seq<char>, issue_iid: u64) -> Seq<char> {
    project_path_of(project_id) + "/issues/"@ + decimal(issue_iid as nat)
}

/// The path of an issue.
pub fn issue_path(project_id: &str, issue_iid: u64) -> (r: String)
    ensures
        r@ == issue_path_of(project_id@, issue_iid),
{
    let mut r = project_path(project_id);
    r.append("/issues/");
    append_decimal(&mut r, issue_iid);
    r
}

/// The merge requests of a project, one page of them in a state.
pub open spec fn merge_requests_path_of(project_id: Seq<char>, per_page: u64, page: u64, state: Seq<char>) -> Seq<char> {
    project_path_of(project_id) + "/merge_requests?per_page="@ + decimal(per_page as nat) + "&page="@
        + decimal(page as nat) + "&state="@ + state
}

/// The path listing merge requests.
pub fn merge_requests_path(project_id: &str, per_page: u64, page: u64, state: &str) -> (r: String)
    ensures
        r@ == merge_requests_path_of(project_id@, per_page, page, state@),
{
    let mut r = project_path(project_id);
    r.append("/merge_requests?per_page=");
    append_decimal(&mut r, per_page);
    r.append("&page=");
    append_decimal(&mut r, page);
    r.append("&state=");
    r.append(state);
    r
}

/// One merge request of a project.
pub open spec fn merge_request_path_of(project_id: Seq<char>, mr_iid: u64) -> Seq<char> {
    project_path_of(project_id) + "/merge_requests/"@ + decimal(mr_iid as nat)
}

/// The path of a merge request.
pub fn merge_request_path(project_id: &str, mr_iid: u64) -> (r: String)
    ensures
        r@ == merge_request_path_of(project_id@, mr_iid),
{
    let mut r = project_path(project_id);
    r.append("/merge_requests/");
    append_decimal(&mut r, mr_iid);
    r
}

/// The branches of a project, optionally filtered by a search string.
pub open spec fn branches_path_of(project_id: Seq<char>, search: Option<Seq<char>>) -> Seq<char> {
    project_path_of(project_id) + "/repository/branches"@ + opt_param("?search="@, search, true)
}

/// The path listing branches.
pub fn branches_path(project_id: &str, search: Option<&str>) -> (r: String)
    ensures
        r@ == branches_path_of(project_id@, opt_chars(search)),
{
    let mut r = project_path(project_id);
    r.append("/repository/branches");
    append_opt(&mut r, "?search=", search, true);
    r
}

/// The commits of a project, optionally on one ref.
pub open spec fn commits_path_of(project_id: Seq<char>, per_page: u64, ref_name: Option<Seq<char>>) -> Seq<char> {
    project_path_of(project_id) + "/repository/commits?per_page="@ + decimal(per_page as nat)
        + opt_param("&ref_name="@, ref_name, true)
}

/// The path listing commits.
pub fn commits_path(project_id: &str, per_page: u64, ref_name: Option<&str>) -> (r: String)
    ensures
        r@ == commits_path_of(project_id@, per_page, opt_chars(ref_name)),
{
    let mut r = project_path(project_id);
    r.append("/repository/commits?per_page=");
    append_decimal(&mut r, per_page);
    append_opt(&mut r, "&ref_name=", ref_name, true);
    r
}

/// The pipelines of a project, optionally by status (passed as given) and
/// ref (encoded).
pub open spec fn pipelines_path_of(project_id: Seq<char>, per_page: u64, status: Option<Seq<char>>, git_ref: Option<Seq<char>>) -> Seq<char> {
    project_path_of(project_id) + "/pipelines?per_page="@ + decimal(per_page as nat)
        + opt_param("&status="@, status, false) + opt_param("&ref="@, git_ref, true)
}

/// The path listing pipelines.
pub fn pipelines_path(project_id: &str, per_page: u64, status: Option<&str>, git_ref: Option<&str>) -> (r: String)
    ensures
        r@ == pipelines_path_of(project_id@, per_page, opt_chars(status), opt_chars(git_ref)),
{
    let mut r = project_path(project_id);
    r.append("/pipelines?per_page=");
    append_decimal(&mut r, per_page);
    append_opt(&mut r, "&status=", status, false);
    append_opt(&mut r, "&ref=", git_ref, true);
    r
}

/// The repository tree at a path, optionally on one ref.
pub open spec fn tree_path_of(project_id: Seq<char>, path: Seq<char>, git_ref: Option<Seq<char>>) -> Seq<char> {
    project_path_of(project_id) + "/repository/tree/"@ + encoded(path) + "?path="@ + encoded(path)
        + opt_param("&ref="@, git_ref, true)
}

/// The path listing files.
pub fn tree_path(project_id: &str, path: &str, git_ref: Option<&str>) -> (r: String)
    ensures
        r@ == tree_path_of(project_id@, path@, opt_chars(git_ref)),
{
    let mut r = project_path(project_id);
    r.append("/repository/tree/");
    append_encoded(&mut r, path);
    r.append("?path=");
    append_encoded(&mut r, path);
    append_opt(&mut r, "&ref=", git_ref, true);
    r
}

/// The raw content of a file at a ref (`HEAD` when none is given).
pub open spec fn file_raw_path_of(project_id: Seq<char>, file_path: Seq<char>, git_ref: Option<Seq<char>>) -> Seq<char> {
    project_path_of(project_id) + "/repository/files/"@ + encoded(file_path) + "/raw?ref="@ + (match git_ref {
        Some(r) => r,
        None => "HEAD"@,
    })
}

/// The path of a raw file.
pub fn file_raw_path(project_id: &str, file_path: &str, git_ref: Option<&str>) -> (r: String)
    ensures
        r@ == file_raw_path_of(project_id@, file_path@, opt_chars(git_ref)),
{
    let mut r = project_path(project_id);
    r.append("/repository/files/");
    append_encoded(&mut r, file_path);
    r.append("/raw?ref=");
    match git_ref {
        Some(g) => r.append(g),
        None => r.append("HEAD"),
    }
    r
}

/// The query of the project listing: page size, page and membership, and
/// with a search string also the search, ordered by last activity, newest
/// first.
pub open spec fn project_query_of(search: Option<Seq<char>>, per_page: u64, page: u64, membership: bool) -> Seq<(Seq<char>, Seq<char>)> {
    let base = seq![
        ("per_page"@, decimal(per_page as nat)),
        ("page"@, decimal(page as nat)),
        ("membership"@, if membership { "true"@ } else { "false"@ }),
    ];
    match search {
        Some(s) => base + seq![("search"@, s), ("order_by"@, "last_activity_at"@), ("sort"@, "desc"@)],
        None => base,
    }
}

/// The query parameters of the project listing.
pub fn project_query(search: Option<&str>, per_page: u64, page: u64, membership: bool) -> (r: Vec<(String, String)>)
    ensures
        crate::github::header_views(r@) == project_query_of(opt_chars(search), per_page, page, membership),
{
    let mut r: Vec<(String, String)> = Vec::new();
    r.push((String::from_str("per_page"), u64_to_decimal(per_page)));
    r.push((String::from_str("page"), u64_to_decimal(page)));
    let m = if membership { String::from_str("true") } else { String::from_str("false") };
    r.push((String::from_str("membership"), m));
    match search {
        Some(s) => {
            r.push((String::from_str("search"), String::from_str(s)));
            r.push((String::from_str("order_by"), String::from_str("last_activity_at")));
            r.push((String::from_str("sort"), String::from_str("desc")));
        },
        None => {},
    }
    assert(crate::github::header_views(r@) =~= project_query_of(opt_chars(search), per_page, page, membership));
    r
}

/// The query of the project tool: membership and page size, then the
/// search (ordered by last activity, newest first) and the page when given.
pub open spec fn tool_project_query_of(search: Option<Seq<char>>, per_page: u64, page: Option<u64>) -> Seq<(Seq<char>, Seq<char>)> {
    let base = seq![("membership"@, "true"@), ("per_page"@, decimal(per_page as nat))];
    let with_search = match search {
        Some(s) => base + seq![("search"@, s), ("order_by"@, "last_activity_at"@), ("sort"@, "desc"@)],
        None => base,
    };
    match page {
        Some(p) => with_search.push(("page"@, decimal(p as nat))),
        None => with_search,
    }
}

/// The query parameters of the project tool.
pub fn tool_project_query(search: Option<&str>, per_page: u64, page: Option<u64>) -> (r: Vec<(String, String)>)
    ensures
        crate::github::header_views(r@) == tool_project_query_of(opt_chars(search), per_page, page),
{
    let mut r: Vec<(String, String)> = Vec::new();
    r.push((String::from_str("membership"), String::from_str("true")));
    r.push((String::from_str("per_page"), u64_to_decimal(per_page)));
    match search {
        Some(s) => {
            r.push((String::from_str("search"), String::from_str(s)));
            r.push((String::from_str("order_by"), String::from_str("last_activity_at")));
            r.push((String::from_str("sort"), String::from_str("desc")));
        },
        None => {},
    }
    match page {
        Some(p) => r.push((String::from_str("page"), u64_to_decimal(p))),
        None => {},
    }
    assert(crate::github::header_views(r@) =~= tool_project_query_of(opt_chars(search), per_page, page));
    r
}

/// The page size a listing tool uses: the one given, else 20.
pub fn per_page_arg(given: Option<u64>) -> (r: u64)
    ensures
        r == match given {
            Some(n) => n,
            None => 20u64,
        },
{
    match given {
        Some(n) => n,
        None => 20,
    }
}

/// The page a listing tool asks for: the one given, else the first.
pub fn page_arg(given: Option<u64>) -> (r: u64)
    ensures
        r == match given {
            Some(n) => n,
            None => 1u64,
        },
{
    match given {
        Some(n) => n,
        None => 1,
    }
}

/// The state filter of the issue and merge-request listings: the one
/// given, else `opened`.
pub fn state_arg(given: Option<&str>) -> (r: String)
    ensures
        r@ == match given {
            Some(s) => s@,
            None => "opened"@,
        },
{
    match given {
        Some(s) => String::from_str(s),
        None => String::from_str("opened"),
    }
}

/// Whether the project listing keeps to the user's projects: as given,
/// else yes.
pub fn membership_arg(given: Option<bool>) -> (r: bool)
    ensures
        r == match given {
            Some(b) => b,
            None => true,
        },
{
    match given {
        Some(b) => b,
        None => true,
    }
}

/// The directory that the file-listing tool lists: the one given, else the
/// repository root (the empty path).
pub fn tree_path_arg(given: Option<&str>) -> (r: String)
    ensures
        r@ == match given {
            Some(s) => s@,
            None => Seq::<char>::empty(),
        },
{
    match given {
        Some(s) => String::from_str(s),
        None => String::new(),
    }
}

/// The arguments of a GitLab tool must form an object; otherwise the call
/// fails with a handler error.
pub fn object_args(is_object: bool) -> (r: Result<(), ServerError>)
    ensures
        is_object ==> r is Ok,
        !is_object ==> (r matches Err(ServerError::Handler(m)) && m@ == "Expected object arguments"@),
{
    if is_object {
        Ok(())
    } else {
        Err(ServerError::Handler(String::from_str("Expected object arguments")))
    }
}

/// A required argument of a GitLab tool: its value, or the handler error
/// `<key> is required`.
pub fn required_arg<T>(value: Option<T>, key: &str) -> (r: Result<T, ServerError>)
    ensures
        match value {
            Some(v) => r == Ok::<T, ServerError>(v),
            None => r matches Err(ServerError::Handler(m)) && m@ == key@ + " is required"@,
        },
{
    match value {
        Some(v) => Ok(v),
        None => {
            let mut m = String::from_str(key);
            m.append(" is required");
            Err(ServerError::Handler(m))
        },
    }
}

/// What the project-creating tool decides from its arguments before any
/// request: the call fails without an object or without a `name`; with a
/// visibility other than `private`, `public` or `internal` the tool answers
/// that error; otherwise the project named `name` is to be created.
pub fn create_project_precheck(is_object: bool, name: Option<&str>, visibility: Option<&str>) -> (r: Result<Result<String, String>, ServerError>)
    ensures
        !is_object ==> (r matches Err(ServerError::Handler(m)) && m@ == "Expected object arguments"@),
        is_object && name is None ==> (r matches Err(ServerError::Handler(m)) && m@ == "name is required"@),
        is_object && name is Some ==> match visibility {
            Some(v) if !(v@ == "private"@ || v@ == "public"@ || v@ == "internal"@) => r matches Ok(Err(m))
                && m@ == "visibility must be one of: private, public, internal"@,
            _ => r matches Ok(Ok(n)) && n@ == name->0@,
        },
{
    match object_args(is_object) {
        Ok(()) => {},
        Err(e) => {
            return Err(e);
        },
    }
    let n = match required_arg(name, "name") {
        Ok(n) => n,
        Err(e) => {
            proof {
                reveal_strlit("name");
                reveal_strlit(" is required");
                reveal_strlit("name is required");
                assert("name"@ + " is required"@ =~= "name is required"@);
            }
            return Err(e);
        },
    };
    match check_visibility(visibility) {
        Ok(()) => Ok(Ok(String::from_str(n))),
        Err(m) => Ok(Err(m)),
    }
}

/// Checks the visibility asked for a new project: it must be `private`,
/// `public` or `internal` when given.
pub fn check_visibility(visibility: Option<&str>) -> (r: Result<(), String>)
    ensures
        match visibility {
            Some(v) => if v@ == "private"@ || v@ == "public"@ || v@ == "internal"@ {
                r is Ok
            } else {
                r matches Err(m) && m@ == "visibility must be one of: private, public, internal"@
            },
            None => r is Ok,
        },
{
    match visibility {
        Some(v) => {
            if crate::text::str_eq(v, "private") || crate::text::str_eq(v, "public") || crate::text::str_eq(v, "internal") {
                Ok(())
            } else {
                Err(String::from_str("visibility must be one of: private, public, internal"))
            }
        },
        None => Ok(()),
    }
}

/// The text of a failed tool call.
pub fn tool_error_text(message: &str) -> (r: String)
    ensures
        r@ == "Error: "@ + message@,
{
    let mut r = String::from_str("Error: ");
    r.append(message);
    r
}

/// `lines` joined with newlines.
pub open spec fn join_lines(lines: Seq<Seq<char>>) -> Seq<char>
    decreases lines.len(),
{
    if lines.len() == 0 {
        Seq::empty()
    } else if lines.len() == 1 {
        lines[0]
    } else {
        join_lines(lines.drop_last()) + "\n"@ + lines.last()
    }
}

/// Joins lines with newlines.
pub fn join_with_newlines(lines: &Vec<String>) -> (r: String)
    ensures
        r@ == join_lines(crate::bearer_auth::views(lines@)),
{
    let mut r = String::new();
    let mut i: usize = 0;
    while i < lines.len()
        invariant
            i <= lines@.len(),
            r@ == join_lines(crate::bearer_auth::views(lines@).take(i as int)),
        decreases lines.len() - i,
    {
        let ghost t = crate::bearer_auth::views(lines@).take(i + 1);
        proof {
            assert(t.drop_last() =~= crate::bearer_auth::views(lines@).take(i as int));
            assert(t.last() == lines@[i as int]@);
        }
        if i > 0 {
            r.append("\n");
        } else {
            assert(crate::bearer_auth::views(lines@).take(0) =~= Seq::<Seq<char>>::empty());
        }
        r.append(lines[i].as_str());
        i = i + 1;
    }
    assert(crate::bearer_auth::views(lines@).take(lines@.len() as int) =~= crate::bearer_auth::views(lines@));
    r
}

/// A project as the API reports it after creation.
pub struct CreatedProject {
    pub id: u64,
    pub name: String,
    pub path_with_namespace: String,
    pub web_url: String,
    pub description: Option<String>,
    pub visibility: String,
    pub created_at: String,
    pub default_branch: Option<String>,
}

/// The lines of the report on a created project.
pub open spec fn created_report_lines(p: CreatedProject) -> Seq<Seq<char>> {
    let base = seq![
        "## Project Created Successfully\n"@,
        "**Name:** "@ + p.name@,
        "**Path:** "@ + p.path_with_namespace@,
        "**ID:** "@ + decimal(p.id as nat),
        "**URL:** "@ + p.web_url@,
        "**Visibility:** "@ + p.visibility@,
    ];
    let with_desc = match p.description {
        Some(d) => base.push("**Description:** "@ + d@),
        None => base,
    };
    let with_branch = match p.default_branch {
        Some(b) => with_desc.push("**Default Branch:** "@ + b@),
        None => with_desc,
    };
    with_branch.push("**Created at:** "@ + p.created_at@)
}

fn line(label: &str, value: &str) -> (r: String)
    ensures
        r@ == label@ + value@,
{
    let mut r = String::from_str(label);
    r.append(value);
    r
}

/// The report on a created project, one fact per line.
pub fn created_project_report(p: &CreatedProject) -> (r: String)
    ensures
        r@ == join_lines(created_report_lines(*p)),
{
    let mut lines: Vec<String> = Vec::new();
    lines.push(String::from_str("## Project Created Successfully\n"));
    lines.push(line("**Name:** ", p.name.as_str()));
    lines.push(line("**Path:** ", p.path_with_namespace.as_str()));
    let id = u64_to_decimal(p.id);
    lines.push(line("**ID:** ", id.as_str()));
    lines.push(line("**URL:** ", p.web_url.as_str()));
    lines.push(line("**Visibility:** ", p.visibility.as_str()));
    match &p.description {
        Some(d) => lines.push(line("**Description:** ", d.as_str())),
        None => {},
    }
    match &p.default_branch {
        Some(b) => lines.push(line("**Default Branch:** ", b.as_str())),
        None => {},
    }
    lines.push(line("**Created at:** ", p.created_at.as_str()));
    assert(crate::bearer_auth::views(lines@) =~= created_report_lines(*p));
    join_with_newlines(&lines)
}

} // verus!
