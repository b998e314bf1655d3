//! The markdown reports that the GitLab tools send back: lists of issues,
//! merge requests, branches, commits, pipelines and files, single issues and
//! merge requests, and file contents. Each report is a list of lines joined
//! with line breaks.

use vstd::prelude::*;
use vstd::string::StringExecFns;
use crate::text::{decimal, u64_to_decimal};
use crate::bearer_auth::views;
use crate::gitlab_paths::{join_lines, join_with_newlines};

verus! {

/// `parts` joined with `, `.
pub open spec fn comma_joined(parts: Seq<Seq<char>>) -> Seq<char>
    decreases parts.len(),
{
    if parts.len() == 0 {
        Seq::empty()
    } else if parts.len() == 1 {
        parts[0]
    } else {
        comma_joined(parts.drop_last()) + ", "@ + parts.last()
    }
}

/// Joins strings with `, `.
pub fn join_commas(parts: &Vec<String>) -> (r: String)
    ensures
        r@ == comma_joined(views(parts@)),
{
    let mut r = String::new();
    let mut i: usize = 0;
    while i < parts.len()
        invariant
            i <= parts@.len(),
            r@ == comma_joined(views(parts@).take(i as int)),
        decreases parts.len() - i,
    {
        let ghost t = views(parts@).take(i + 1);
        assert(t.drop_last() =~= views(parts@).take(i as int));
        assert(t.last() == parts@[i as int]@);
        if i > 0 {
            r.append(", ");
        } else {
            assert(views(parts@).take(0) =~= Seq::<Seq<char>>::empty());
        }
        r.append(parts[i].as_str());
        i = i + 1;
    }
    assert(views(parts@).take(parts@.len() as int) =~= views(parts@));
    r
}

fn line(label: &str, value: &str) -> (r: String)
    ensures
        r@ == label@ + value@,
{
    let mut r = String::from_str(label);
    r.append(value);
    r
}

fn line3(a: &str, b: &str, c: &str) -> (r: String)
    ensures
        r@ == a@ + b@ + c@,
{
    let mut r = String::from_str(a);
    r.append(b);
    r.append(c);
    r
}

fn number_line(label: &str, n: u64) -> (r: String)
    ensures
        r@ == label@ + decimal(n as nat),
{
    let d = u64_to_decimal(n);
    line(label, d.as_str())
}

/// An optional name, or `Unknown`.
pub open spec fn name_or_unknown(n: Option<String>) -> Seq<char> {
    match n {
        Some(s) => s@,
        None => "Unknown"@,
    }
}

fn name_or_unknown_of(n: &Option<String>) -> (r: &str)
    ensures
        r@ == name_or_unknown(*n),
{
    match n {
        Some(s) => s.as_str(),
        None => "Unknown",
    }
}

/// The heading of a listing: `## <what> (<n> found)` and a line break.
pub open spec fn count_heading(what: Seq<char>, n: nat) -> Seq<char> {
    "## "@ + what + " ("@ + decimal(n) + " found)\n"@
}

fn count_heading_of(what: &str, n: usize) -> (r: String)
    ensures
        r@ == count_heading(what@, n as nat),
{
    let mut r = String::from_str("## ");
    r.append(what);
    r.append(" (");
    let d = u64_to_decimal(n as u64);
    r.append(d.as_str());
    r.append(" found)\n");
    r
}

/// An issue as the listing shows it. Author and assignees are the names
/// found in the API's user objects.
pub struct IssueSummary {
    pub iid: u64,
    pub title: String,
    pub state: String,
    pub web_url: String,
    pub created_at: String,
    pub author: Option<String>,
    pub assignees: Vec<String>,
    pub labels: Vec<String>,
}

/// The lines of one issue in the listing.
pub open spec fn issue_lines(i: IssueSummary) -> Seq<Seq<char>> {
    let head = seq![
        "### !"@ + decimal(i.iid as nat) + " - "@ + i.title@,
        "**State:** "@ + i.state@,
        "**Author:** "@ + name_or_unknown(i.author),
    ];
    let with_assignees = if i.assignees@.len() > 0 {
        head.push("**Assignees:** "@ + comma_joined(views(i.assignees@)))
    } else {
        head
    };
    let with_labels = if i.labels@.len() > 0 {
        with_assignees.push("**Labels: "@ + comma_joined(views(i.labels@)) + "**"@)
    } else {
        with_assignees
    };
    with_labels + seq!["**Created:** "@ + i.created_at@, "**URL:** "@ + i.web_url@, Seq::empty()]
}

/// The lines of all issues, in order.
pub open spec fn issues_lines(items: Seq<IssueSummary>) -> Seq<Seq<char>>
    decreases items.len(),
{
    if items.len() == 0 {
        Seq::empty()
    } else {
        issues_lines(items.drop_last()) + issue_lines(items.last())
    }
}

proof fn lemma_issues_prefix(items: Seq<IssueSummary>, m: int, n: int)
    requires
        0 <= m <= n <= items.len(),
    ensures
        issues_lines(items.take(m)).len() <= issues_lines(items.take(n)).len(),
        issues_lines(items.take(n)).subrange(0, issues_lines(items.take(m)).len() as int) == issues_lines(items.take(m)),
    decreases n - m,
{
    if m < n {
        lemma_issues_prefix(items, m, n - 1);
        assert(items.take(n).drop_last() =~= items.take(n - 1));
        let a = issues_lines(items.take(n - 1));
        let b = issues_lines(items.take(n));
        assert(b == a + issue_lines(items.take(n).last()));
        let l = issues_lines(items.take(m)).len() as int;
        assert(b.subrange(0, l) =~= a.subrange(0, l));
    } else {
        let b = issues_lines(items.take(n));
        assert(b.subrange(0, b.len() as int) =~= b);
    }
}

/// The issue listing holds one section per issue given, in the order
/// given: the section of issue `k` comes right after those of the issues
/// before it and starts with the heading `### !<iid> - <title>`.
pub proof fn law_issue_sections_in_order(items: Seq<IssueSummary>, k: int)
    requires
        0 <= k < items.len(),
    ensures
        issues_lines(items.take(k)).len() + issue_lines(items[k]).len() <= issues_lines(items).len(),
        issues_lines(items).subrange(
            issues_lines(items.take(k)).len() as int,
            issues_lines(items.take(k)).len() + issue_lines(items[k]).len() as int,
        ) == issue_lines(items[k]),
        issues_lines(items)[issues_lines(items.take(k)).len() as int] == "### !"@ + decimal(items[k].iid as nat) + " - "@
            + items[k].title@,
{
    lemma_issues_prefix(items, k + 1, items.len() as int);
    assert(items.take(items.len() as int) =~= items);
    assert(items.take(k + 1).drop_last() =~= items.take(k));
    assert(items.take(k + 1).last() == items[k]);
    let p = issues_lines(items.take(k)).len() as int;
    let e = issue_lines(items[k]);
    let b = issues_lines(items.take(k + 1));
    assert(b == issues_lines(items.take(k)) + e);
    assert(issues_lines(items).subrange(p, p + e.len()) =~= b.subrange(p, p + e.len()));
    assert(b.subrange(p, p + e.len()) =~= e);
    assert(issues_lines(items)[p] == b[p]);
}

/// Adding a issue at the end of the list adds its section at the end of
/// the listing, after all the others.
pub proof fn law_issue_appended(items: Seq<IssueSummary>, x: IssueSummary)
    ensures
        issues_lines(items.push(x)) == issues_lines(items) + issue_lines(x),
{
    assert(items.push(x).drop_last() =~= items);
}

fn push_issue(out: &mut Vec<String>, i: &IssueSummary)
    ensures
        views(final(out)@) == views(old(out)@) + issue_lines(*i),
{
    let ghost start = views(out@);
    let iid = u64_to_decimal(i.iid);
    let mut head = String::from_str("### !");
    head.append(iid.as_str());
    head.append(" - ");
    head.append(i.title.as_str());
    out.push(head);
    out.push(line("**State:** ", i.state.as_str()));
    out.push(line("**Author:** ", name_or_unknown_of(&i.author)));
    if i.assignees.len() > 0 {
        let names = join_commas(&i.assignees);
        out.push(line("**Assignees:** ", names.as_str()));
    }
    if i.labels.len() > 0 {
        let labels = join_commas(&i.labels);
        out.push(line3("**Labels: ", labels.as_str(), "**"));
    }
    out.push(line("**Created:** ", i.created_at.as_str()));
    out.push(line("**URL:** ", i.web_url.as_str()));
    out.push(String::new());
    assert(views(out@) =~= start + issue_lines(*i));
}

/// The issue listing: a heading with the count, then each issue.
pub open spec fn issues_report_of(items: Seq<IssueSummary>) -> Seq<char> {
    join_lines(seq![count_heading("Issues"@, items.len())] + issues_lines(items))
}

/// Writes the issue listing.
pub fn issues_report(items: &Vec<IssueSummary>) -> (r: String)
    ensures
        r@ == issues_report_of(items@),
{
    let mut out: Vec<String> = Vec::new();
    out.push(count_heading_of("Issues", items.len()));
    let ghost start = views(out@);
    let mut k: usize = 0;
    assert(items@.take(0) =~= Seq::<IssueSummary>::empty());
    while k < items.len()
        invariant
            k <= items@.len(),
            views(out@) == start + issues_lines(items@.take(k as int)),
        decreases items.len() - k,
    {
        assert(items@.take(k + 1).drop_last() =~= items@.take(k as int));
        assert(items@.take(k + 1).last() == items@[k as int]);
        push_issue(&mut out, &items[k]);
        k = k + 1;
    }
    assert(items@.take(items@.len() as int) =~= items@);
    assert(views(out@) =~= seq![count_heading("Issues"@, items@.len())] + issues_lines(items@));
    join_with_newlines(&out)
}

/// A merge request as the listing shows it.
pub struct MergeRequestSummary {
    pub iid: u64,
    pub title: String,
    pub state: String,
    pub web_url: String,
    pub created_at: String,
    pub author: Option<String>,
    pub source_branch: String,
    pub target_branch: String,
    pub merge_status: Option<String>,
}

/// The lines of one merge request in the listing.
pub open spec fn merge_request_lines(m: MergeRequestSummary) -> Seq<Seq<char>> {
    seq![
        "### !"@ + decimal(m.iid as nat) + " - "@ + m.title@,
        "**State:** "@ + m.state@,
        "**Author:** "@ + name_or_unknown(m.author),
        "**Branch:** "@ + m.source_branch@ + " → "@ + m.target_branch@,
        "**Merge Status:** "@ + (match m.merge_status {
            Some(s) => s@,
            None => "unknown"@,
        }),
        "**Created:** "@ + m.created_at@,
        "**URL:** "@ + m.web_url@,
        Seq::empty(),
    ]
}

/// The lines of all merge requests, in order.
pub open spec fn merge_requests_lines(items: Seq<MergeRequestSummary>) -> Seq<Seq<char>>
    decreases items.len(),
{
    if items.len() == 0 {
        Seq::empty()
    } else {
        merge_requests_lines(items.drop_last()) + merge_request_lines(items.last())
    }
}

proof fn lemma_merge_requests_prefix(items: Seq<MergeRequestSummary>, m: int, n: int)
    requires
        0 <= m <= n <= items.len(),
    ensures
        merge_requests_lines(items.take(m)).len() <= merge_requests_lines(items.take(n)).len(),
        merge_requests_lines(items.take(n)).subrange(0, merge_requests_lines(items.take(m)).len() as int) == merge_requests_lines(items.take(m)),
    decreases n - m,
{
    if m < n {
        lemma_merge_requests_prefix(items, m, n - 1);
        assert(items.take(n).drop_last() =~= items.take(n - 1));
        let a = merge_requests_lines(items.take(n - 1));
        let b = merge_requests_lines(items.take(n));
        assert(b == a + merge_request_lines(items.take(n).last()));
        let l = merge_requests_lines(items.take(m)).len() as int;
        assert(b.subrange(0, l) =~= a.subrange(0, l));
    } else {
        let b = merge_requests_lines(items.take(n));
        assert(b.subrange(0, b.len() as int) =~= b);
    }
}

/// The merge request listing holds one section per merge request given, in the order
/// given: the section of merge request `k` comes right after those of the merge requests
/// before it and starts with the heading `### !<iid> - <title>`.
pub proof fn law_merge_request_sections_in_order(items: Seq<MergeRequestSummary>, k: int)
    requires
        0 <= k < items.len(),
    ensures
        merge_requests_lines(items.take(k)).len() + merge_request_lines(items[k]).len() <= merge_requests_lines(items).len(),
        merge_requests_lines(items).subrange(
            merge_requests_lines(items.take(k)).len() as int,
            merge_requests_lines(items.take(k)).len() + merge_request_lines(items[k]).len() as int,
        ) == merge_request_lines(items[k]),
        merge_requests_lines(items)[merge_requests_lines(items.take(k)).len() as int] == "### !"@ + decimal(items[k].iid as nat) + " - "@
            + items[k].title@,
{
    lemma_merge_requests_prefix(items, k + 1, items.len() as int);
    assert(items.take(items.len() as int) =~= items);
    assert(items.take(k + 1).drop_last() =~= items.take(k));
    assert(items.take(k + 1).last() == items[k]);
    let p = merge_requests_lines(items.take(k)).len() as int;
    let e = merge_request_lines(items[k]);
    let b = merge_requests_lines(items.take(k + 1));
    assert(b == merge_requests_lines(items.take(k)) + e);
    assert(merge_requests_lines(items).subrange(p, p + e.len()) =~= b.subrange(p, p + e.len()));
    assert(b.subrange(p, p + e.len()) =~= e);
    assert(merge_requests_lines(items)[p] == b[p]);
}

/// Adding a merge request at the end of the list adds its section at the end of
/// the listing, after all the others.
pub proof fn law_merge_request_appended(items: Seq<MergeRequestSummary>, x: MergeRequestSummary)
    ensures
        merge_requests_lines(items.push(x)) == merge_requests_lines(items) + merge_request_lines(x),
{
    assert(items.push(x).drop_last() =~= items);
}

fn push_merge_request(out: &mut Vec<String>, m: &MergeRequestSummary)
    ensures
        views(final(out)@) == views(old(out)@) + merge_request_lines(*m),
{
    let ghost start = views(out@);
    let iid = u64_to_decimal(m.iid);
    let mut head = String::from_str("### !");
    head.append(iid.as_str());
    head.append(" - ");
    head.append(m.title.as_str());
    out.push(head);
    out.push(line("**State:** ", m.state.as_str()));
    out.push(line("**Author:** ", name_or_unknown_of(&m.author)));
    let mut branch = String::from_str("**Branch:** ");
    branch.append(m.source_branch.as_str());
    branch.append(" → ");
    branch.append(m.target_branch.as_str());
    out.push(branch);
    match &m.merge_status {
        Some(s) => out.push(line("**Merge Status:** ", s.as_str())),
        None => out.push(line("**Merge Status:** ", "unknown")),
    }
    out.push(line("**Created:** ", m.created_at.as_str()));
    out.push(line("**URL:** ", m.web_url.as_str()));
    out.push(String::new());
    assert(views(out@) =~= start + merge_request_lines(*m));
}

/// The merge request listing: a heading with the count, then each one.
pub open spec fn merge_requests_report_of(items: Seq<MergeRequestSummary>) -> Seq<char> {
    join_lines(seq![count_heading("Merge Requests"@, items.len())] + merge_requests_lines(items))
}

/// Writes the merge request listing.
pub fn merge_requests_report(items: &Vec<MergeRequestSummary>) -> (r: String)
    ensures
        r@ == merge_requests_report_of(items@),
{
    let mut out: Vec<String> = Vec::new();
    out.push(count_heading_of("Merge Requests", items.len()));
    let ghost start = views(out@);
    let mut k: usize = 0;
    assert(items@.take(0) =~= Seq::<MergeRequestSummary>::empty());
    while k < items.len()
        invariant
            k <= items@.len(),
            views(out@) == start + merge_requests_lines(items@.take(k as int)),
        decreases items.len() - k,
    {
        assert(items@.take(k + 1).drop_last() =~= items@.take(k as int));
        assert(items@.take(k + 1).last() == items@[k as int]);
        push_merge_request(&mut out, &items[k]);
        k = k + 1;
    }
    assert(items@.take(items@.len() as int) =~= items@);
    assert(views(out@) =~= seq![count_heading("Merge Requests"@, items@.len())] + merge_requests_lines(items@));
    join_with_newlines(&out)
}

/// A branch as the listing shows it; the commit fields are those found in
/// the API's commit object.
pub struct BranchSummary {
    pub name: String,
    pub short_id: Option<String>,
    pub commit_title: Option<String>,
    pub commit_author: Option<String>,
    pub protected: bool,
    pub default: bool,
    pub web_url: String,
}

/// The lines of one branch in the listing.
pub open spec fn branch_lines(b: BranchSummary) -> Seq<Seq<char>> {
    seq![
        "### "@ + b.name@ + " "@ + (if b.default { "(default)"@ } else { Seq::empty() }),
        "**Commit:** "@ + (match b.short_id {
            Some(s) => s@,
            None => "unknown"@,
        }) + " - "@ + (match b.commit_title {
            Some(t) => t@,
            None => Seq::empty(),
        }),
        "**Author:** "@ + name_or_unknown(b.commit_author),
        "**Protected:** "@ + (if b.protected { "Yes"@ } else { "No"@ }),
        "**URL:** "@ + b.web_url@,
        Seq::empty(),
    ]
}

/// The lines of all branches, in order.
pub open spec fn branches_lines(items: Seq<BranchSummary>) -> Seq<Seq<char>>
    decreases items.len(),
{
    if items.len() == 0 {
        Seq::empty()
    } else {
        branches_lines(items.drop_last()) + branch_lines(items.last())
    }
}

fn push_branch(out: &mut Vec<String>, b: &BranchSummary)
    ensures
        views(final(out)@) == views(old(out)@) + branch_lines(*b),
{
    let ghost start = views(out@);
    let mut head = String::from_str("### ");
    head.append(b.name.as_str());
    head.append(" ");
    if b.default {
        head.append("(default)");
    }
    out.push(head);
    let mut commit = String::from_str("**Commit:** ");
    match &b.short_id {
        Some(s) => commit.append(s.as_str()),
        None => commit.append("unknown"),
    }
    commit.append(" - ");
    match &b.commit_title {
        Some(t) => commit.append(t.as_str()),
        None => {},
    }
    out.push(commit);
    out.push(line("**Author:** ", name_or_unknown_of(&b.commit_author)));
    out.push(line("**Protected:** ", if b.protected { "Yes" } else { "No" }));
    out.push(line("**URL:** ", b.web_url.as_str()));
    out.push(String::new());
    assert(views(out@) =~= start + branch_lines(*b));
}

/// The branch listing: a heading with the count, then each branch.
pub open spec fn branches_report_of(items: Seq<BranchSummary>) -> Seq<char> {
    join_lines(seq![count_heading("Branches"@, items.len())] + branches_lines(items))
}

/// Writes the branch listing.
pub fn branches_report(items: &Vec<BranchSummary>) -> (r: String)
    ensures
        r@ == branches_report_of(items@),
{
    let mut out: Vec<String> = Vec::new();
    out.push(count_heading_of("Branches", items.len()));
    let ghost start = views(out@);
    let mut k: usize = 0;
    assert(items@.take(0) =~= Seq::<BranchSummary>::empty());
    while k < items.len()
        invariant
            k <= items@.len(),
            views(out@) == start + branches_lines(items@.take(k as int)),
        decreases items.len() - k,
    {
        assert(items@.take(k + 1).drop_last() =~= items@.take(k as int));
        assert(items@.take(k + 1).last() == items@[k as int]);
        push_branch(&mut out, &items[k]);
        k = k + 1;
    }
    assert(items@.take(items@.len() as int) =~= items@);
    assert(views(out@) =~= seq![count_heading("Branches"@, items@.len())] + branches_lines(items@));
    join_with_newlines(&out)
}

/// The first line of a text (std's `lines().next()`): the text up to its
/// first line break, without a carriage return before it; none for an empty
/// text.
pub open spec fn first_line(s: Seq<char>) -> Option<Seq<char>> {
    if s.len() == 0 {
        None
    } else {
        let cut = if exists|i: int| 0 <= i < s.len() && s[i] == '\n' {
            s.take(choose|i: int| 0 <= i < s.len() && s[i] == '\n' && forall|j: int| 0 <= j < i ==> s[j] != '\n')
        } else {
            s
        };
        if cut.len() > 0 && cut.last() == '\r' {
            Some(cut.drop_last())
        } else {
            Some(cut)
        }
    }
}

proof fn lemma_first_break(s: Seq<char>, i: int)
    requires
        0 <= i < s.len(),
        s[i] == '\n',
        forall|j: int| 0 <= j < i ==> s[j] != '\n',
    ensures
        (choose|k: int| 0 <= k < s.len() && s[k] == '\n' && forall|j: int| 0 <= j < k ==> s[j] != '\n') == i,
{
    let k = choose|k: int| 0 <= k < s.len() && s[k] == '\n' && forall|j: int| 0 <= j < k ==> s[j] != '\n';
    if k < i {
        assert(s[k] != '\n');
    }
    if i < k {
        assert(s[i] != '\n');
    }
}

/// The first line of a text.
pub fn first_line_of(s: &str) -> (r: Option<String>)
    ensures
        crate::token_config::opt_string_view(r) == first_line(s@),
{
    let v = crate::text::chars_of(s);
    if v.len() == 0 {
        return None;
    }
    let mut i: usize = 0;
    while i < v.len() && v[i] != '\n'
        invariant
            i <= v@.len(),
            v@ == s@,
            forall|j: int| 0 <= j < i ==> v@[j] != '\n',
        decreases v.len() - i,
    {
        i = i + 1;
    }
    proof {
        if i < v.len() {
            lemma_first_break(s@, i as int);
        } else {
            assert(!exists|j: int| 0 <= j < s@.len() && s@[j] == '\n');
            assert(s@.take(i as int) == s@);
        }
    }
    let end: usize = if i > 0 && v[i - 1] == '\r' { i - 1 } else { i };
    let mut kept: Vec<char> = Vec::new();
    let mut k: usize = 0;
    while k < end
        invariant
            end <= i <= v@.len(),
            k <= end,
            kept@ == v@.take(k as int),
        decreases end - k,
    {
        kept.push(v[k]);
        assert(v@.take(k + 1) == v@.take(k as int).push(v@[k as int]));
        k = k + 1;
    }
    if i > 0 {
        assert(v@.take(i as int).drop_last() =~= v@.take(i - 1));
    }
    Some(crate::text::string_of(&kept))
}

/// A commit as the listing shows it.
pub struct CommitSummary {
    pub short_id: String,
    pub title: String,
    pub message: String,
    pub author_name: String,
    pub authored_date: String,
    pub web_url: String,
}

/// The lines of one commit in the listing; the message line shows the
/// first line of the message, or the title when the message is empty.
pub open spec fn commit_lines(c: CommitSummary) -> Seq<Seq<char>> {
    seq![
        "### "@ + c.short_id@ + " - "@ + c.title@,
        "**Author:** "@ + c.author_name@,
        "**Date:** "@ + c.authored_date@,
        "**Message:** "@ + (match first_line(c.message@) {
            Some(l) => l,
            None => c.title@,
        }),
        "**URL:** "@ + c.web_url@,
        Seq::empty(),
    ]
}

/// The lines of all commits, in order.
pub open spec fn commits_lines(items: Seq<CommitSummary>) -> Seq<Seq<char>>
    decreases items.len(),
{
    if items.len() == 0 {
        Seq::empty()
    } else {
        commits_lines(items.drop_last()) + commit_lines(items.last())
    }
}

fn push_commit(out: &mut Vec<String>, c: &CommitSummary)
    ensures
        views(final(out)@) == views(old(out)@) + commit_lines(*c),
{
    let ghost start = views(out@);
    let mut head = String::from_str("### ");
    head.append(c.short_id.as_str());
    head.append(" - ");
    head.append(c.title.as_str());
    out.push(head);
    out.push(line("**Author:** ", c.author_name.as_str()));
    out.push(line("**Date:** ", c.authored_date.as_str()));
    match first_line_of(c.message.as_str()) {
        Some(l) => out.push(line("**Message:** ", l.as_str())),
        None => out.push(line("**Message:** ", c.title.as_str())),
    }
    out.push(line("**URL:** ", c.web_url.as_str()));
    out.push(String::new());
    assert(views(out@) =~= start + commit_lines(*c));
}

/// The commit listing: a heading with the count, then each commit.
pub open spec fn commits_report_of(items: Seq<CommitSummary>) -> Seq<char> {
    join_lines(seq![count_heading("Commits"@, items.len())] + commits_lines(items))
}

/// Writes the commit listing.
pub fn commits_report(items: &Vec<CommitSummary>) -> (r: String)
    ensures
        r@ == commits_report_of(items@),
{
    let mut out: Vec<String> = Vec::new();
    out.push(count_heading_of("Commits", items.len()));
    let ghost start = views(out@);
    let mut k: usize = 0;
    assert(items@.take(0) =~= Seq::<CommitSummary>::empty());
    while k < items.len()
        invariant
            k <= items@.len(),
            views(out@) == start + commits_lines(items@.take(k as int)),
        decreases items.len() - k,
    {
        assert(items@.take(k + 1).drop_last() =~= items@.take(k as int));
        assert(items@.take(k + 1).last() == items@[k as int]);
        push_commit(&mut out, &items[k]);
        k = k + 1;
    }
    assert(items@.take(items@.len() as int) =~= items@);
    assert(views(out@) =~= seq![count_heading("Commits"@, items@.len())] + commits_lines(items@));
    join_with_newlines(&out)
}

/// A file or directory of a repository tree; `kind` is the API's `type`.
pub struct TreeEntry {
    pub name: String,
    pub kind: String,
    pub path: String,
}

/// The line of one tree entry: a folder for a tree, a page otherwise.
pub open spec fn entry_line(e: TreeEntry) -> Seq<char> {
    (if e.kind@ == "tree"@ { "📁"@ } else { "📄"@ }) + " **"@ + e.name@ + "** `"@ + e.path@ + "`"@
}

/// The file listing of a directory (`/` when the path is empty).
pub open spec fn files_report_of(path: Seq<char>, items: Seq<TreeEntry>) -> Seq<char> {
    join_lines(
        seq![
            "## Files in `"@ + (if path.len() == 0 { "/"@ } else { path }) + "`\n"@,
            "Found "@ + decimal(items.len()) + " items\n"@,
        ] + items.map_values(|e: TreeEntry| entry_line(e)),
    )
}

/// Writes the file listing.
pub fn files_report(path: &str, items: &Vec<TreeEntry>) -> (r: String)
    ensures
        r@ == files_report_of(path@, items@),
{
    let mut out: Vec<String> = Vec::new();
    let shown = if crate::text::chars_of(path).len() == 0 { "/" } else { path };
    out.push(line3("## Files in `", shown, "`\n"));
    let n = u64_to_decimal(items.len() as u64);
    out.push(line3("Found ", n.as_str(), " items\n"));
    let ghost start = views(out@);
    let mut k: usize = 0;
    while k < items.len()
        invariant
            k <= items@.len(),
            views(out@) == start + items@.take(k as int).map_values(|e: TreeEntry| entry_line(e)),
        decreases items.len() - k,
    {
        let e = &items[k];
        let icon = if crate::text::str_eq(e.kind.as_str(), "tree") { "📁" } else { "📄" };
        let mut l = String::from_str(icon);
        l.append(" **");
        l.append(e.name.as_str());
        l.append("** `");
        l.append(e.path.as_str());
        l.append("`");
        let ghost before = views(out@);
        out.push(l);
        proof {
            assert(items@.take(k + 1).map_values(|e: TreeEntry| entry_line(e)) =~= items@.take(k as int).map_values(
                |e: TreeEntry| entry_line(e),
            ).push(entry_line(items@[k as int])));
            assert(views(out@) =~= before.push(entry_line(items@[k as int])));
        }
        k = k + 1;
    }
    assert(items@.take(items@.len() as int) =~= items@);
    assert(views(out@) =~= seq![
        "## Files in `"@ + (if path@.len() == 0 { "/"@ } else { path@ }) + "`\n"@,
        "Found "@ + decimal(items@.len()) + " items\n"@,
    ] + items@.map_values(|e: TreeEntry| entry_line(e)));
    join_with_newlines(&out)
}

/// The lines of the report of a file's content: its path, the ref (`HEAD`
/// when none was given), its size in bytes and the content in a code block.
pub open spec fn file_content_lines(file_path: Seq<char>, git_ref: Option<Seq<char>>, size: nat, content: Seq<char>) -> Seq<Seq<char>> {
    seq![
        "## File: `"@ + file_path + "`"@,
        "**Ref:** "@ + (match git_ref {
            Some(r) => r,
            None => "HEAD"@,
        }),
        "**Size:** "@ + decimal(size) + " bytes"@,
        Seq::empty(),
        "```"@,
        content,
        "```"@,
    ]
}

/// The report of a file's content, its lines joined.
pub open spec fn file_content_report_of(file_path: Seq<char>, git_ref: Option<Seq<char>>, size: nat, content: Seq<char>) -> Seq<char> {
    join_lines(file_content_lines(file_path, git_ref, size, content))
}

/// Writes the report of a file's content; `content` is the file's bytes
/// decoded as UTF-8, invalid sequences replaced.
pub fn file_content_report(file_path: &str, git_ref: Option<&str>, size: usize, content: &str) -> (r: String)
    ensures
        r@ == file_content_report_of(file_path@, crate::gitlab_paths::opt_chars(git_ref), size as nat, content@),
{
    let mut out: Vec<String> = Vec::new();
    out.push(line3("## File: `", file_path, "`"));
    match git_ref {
        Some(g) => out.push(line("**Ref:** ", g)),
        None => out.push(line("**Ref:** ", "HEAD")),
    }
    let n = u64_to_decimal(size as u64);
    out.push(line3("**Size:** ", n.as_str(), " bytes"));
    out.push(String::new());
    out.push(String::from_str("```"));
    out.push(String::from_str(content));
    out.push(String::from_str("```"));
    assert(views(out@) =~= file_content_lines(file_path@, crate::gitlab_paths::opt_chars(git_ref), size as nat, content@));
    join_with_newlines(&out)
}

/// A pipeline as the listing shows it.
pub struct PipelineSummary {
    pub id: u64,
    pub iid: u64,
    pub status: String,
    pub ref_name: String,
    pub sha: String,
    pub created_at: String,
    pub web_url: String,
    pub user: Option<String>,
}

/// A commit hash cut to its first eight bytes when it is longer.
pub open spec fn short_sha(sha: Seq<char>) -> Seq<char> {
    let b = vstd::utf8::encode_utf8(sha);
    if b.len() > 8 { vstd::utf8::decode_utf8(b.take(8)) } else { sha }
}

/// The lines of one pipeline in the listing.
pub open spec fn pipeline_lines(p: PipelineSummary) -> Seq<Seq<char>> {
    seq![
        "### Pipeline #"@ + decimal(p.iid as nat) + " - "@ + p.status@,
        "**ID:** "@ + decimal(p.id as nat),
        "**User:** "@ + name_or_unknown(p.user),
        "**Branch:** "@ + p.ref_name@,
        "**SHA:** "@ + short_sha(p.sha@),
        "**Created:** "@ + p.created_at@,
        "**URL:** "@ + p.web_url@,
        Seq::empty(),
    ]
}

/// The lines of all pipelines, in order.
pub open spec fn pipelines_lines(items: Seq<PipelineSummary>) -> Seq<Seq<char>>
    decreases items.len(),
{
    if items.len() == 0 {
        Seq::empty()
    } else {
        pipelines_lines(items.drop_last()) + pipeline_lines(items.last())
    }
}

/// Whether each hash can be cut at its eighth byte, as the listing does.
pub open spec fn sha_cuts_ok(items: Seq<PipelineSummary>) -> bool {
    forall|i: int| 0 <= i < items.len() ==> (vstd::utf8::encode_utf8((#[trigger] items[i]).sha@).len() > 8
        ==> vstd::utf8::is_char_boundary(vstd::utf8::encode_utf8(items[i].sha@), 8))
}

fn push_pipeline(out: &mut Vec<String>, p: &PipelineSummary)
    requires
        vstd::utf8::encode_utf8(p.sha@).len() > 8 ==> vstd::utf8::is_char_boundary(vstd::utf8::encode_utf8(p.sha@), 8),
    ensures
        views(final(out)@) == views(old(out)@) + pipeline_lines(*p),
{
    let ghost start = views(out@);
    let iid = u64_to_decimal(p.iid);
    let mut head = String::from_str("### Pipeline #");
    head.append(iid.as_str());
    head.append(" - ");
    head.append(p.status.as_str());
    out.push(head);
    out.push(number_line("**ID:** ", p.id));
    out.push(line("**User:** ", name_or_unknown_of(&p.user)));
    out.push(line("**Branch:** ", p.ref_name.as_str()));
    let n = p.sha.as_str().as_bytes().len();
    if n > 8 {
        out.push(line("**SHA:** ", crate::display::prefix_bytes(p.sha.as_str(), 8)));
    } else {
        out.push(line("**SHA:** ", p.sha.as_str()));
    }
    out.push(line("**Created:** ", p.created_at.as_str()));
    out.push(line("**URL:** ", p.web_url.as_str()));
    out.push(String::new());
    assert(views(out@) =~= start + pipeline_lines(*p));
}

/// The pipeline listing: a heading with the count, then each pipeline.
pub open spec fn pipelines_report_of(items: Seq<PipelineSummary>) -> Seq<char> {
    join_lines(seq![count_heading("Pipelines"@, items.len())] + pipelines_lines(items))
}

/// Writes the pipeline listing. Each hash must be cut between characters.
pub fn pipelines_report(items: &Vec<PipelineSummary>) -> (r: String)
    requires
        sha_cuts_ok(items@),
    ensures
        r@ == pipelines_report_of(items@),
{
    let mut out: Vec<String> = Vec::new();
    out.push(count_heading_of("Pipelines", items.len()));
    let ghost start = views(out@);
    let mut k: usize = 0;
    assert(items@.take(0) =~= Seq::<PipelineSummary>::empty());
    while k < items.len()
        invariant
            k <= items@.len(),
            sha_cuts_ok(items@),
            views(out@) == start + pipelines_lines(items@.take(k as int)),
        decreases items.len() - k,
    {
        assert(items@.take(k + 1).drop_last() =~= items@.take(k as int));
        assert(items@.take(k + 1).last() == items@[k as int]);
        push_pipeline(&mut out, &items[k]);
        k = k + 1;
    }
    assert(items@.take(items@.len() as int) =~= items@);
    assert(views(out@) =~= seq![count_heading("Pipelines"@, items@.len())] + pipelines_lines(items@));
    join_with_newlines(&out)
}

/// One issue in full.
pub struct IssueDetail {
    pub iid: u64,
    pub title: String,
    pub description: Option<String>,
    pub state: String,
    pub web_url: String,
    pub created_at: String,
    pub updated_at: String,
    pub author: Option<String>,
    pub assignees: Vec<String>,
    pub labels: Vec<String>,
    /// The milestone's title, when it has one.
    pub milestone: Option<String>,
}

/// The lines of the report on one issue.
pub open spec fn issue_detail_lines(i: IssueDetail) -> Seq<Seq<char>> {
    let head = seq![
        "# !"@ + decimal(i.iid as nat) + " - "@ + i.title@,
        "**State:** "@ + i.state@,
        "**Author:** "@ + name_or_unknown(i.author),
    ];
    let a = if i.assignees@.len() > 0 {
        head.push("**Assignees:** "@ + comma_joined(views(i.assignees@)))
    } else {
        head
    };
    let l = if i.labels@.len() > 0 { a.push("**Labels:** "@ + comma_joined(views(i.labels@))) } else { a };
    let m = match i.milestone {
        Some(t) => l.push("**Milestone:** "@ + t@),
        None => l,
    };
    let body = m + seq!["**Created:** "@ + i.created_at@, "**Updated:** "@ + i.updated_at@, "**URL:** "@ + i.web_url@];
    match i.description {
        Some(d) => body.push("\n## Description\n"@ + d@),
        None => body,
    }
}

/// Writes the report on one issue.
pub fn issue_report(i: &IssueDetail) -> (r: String)
    ensures
        r@ == join_lines(issue_detail_lines(*i)),
{
    let mut out: Vec<String> = Vec::new();
    let iid = u64_to_decimal(i.iid);
    let mut head = String::from_str("# !");
    head.append(iid.as_str());
    head.append(" - ");
    head.append(i.title.as_str());
    out.push(head);
    out.push(line("**State:** ", i.state.as_str()));
    out.push(line("**Author:** ", name_or_unknown_of(&i.author)));
    if i.assignees.len() > 0 {
        let names = join_commas(&i.assignees);
        out.push(line("**Assignees:** ", names.as_str()));
    }
    if i.labels.len() > 0 {
        let labels = join_commas(&i.labels);
        out.push(line("**Labels:** ", labels.as_str()));
    }
    match &i.milestone {
        Some(t) => out.push(line("**Milestone:** ", t.as_str())),
        None => {},
    }
    out.push(line("**Created:** ", i.created_at.as_str()));
    out.push(line("**Updated:** ", i.updated_at.as_str()));
    out.push(line("**URL:** ", i.web_url.as_str()));
    match &i.description {
        Some(d) => out.push(line("\n## Description\n", d.as_str())),
        None => {},
    }
    assert(views(out@) =~= issue_detail_lines(*i));
    join_with_newlines(&out)
}

/// One merge request in full.
pub struct MergeRequestDetail {
    pub iid: u64,
    pub title: String,
    pub description: Option<String>,
    pub state: String,
    pub web_url: String,
    pub created_at: String,
    pub updated_at: String,
    pub author: Option<String>,
    pub assignees: Vec<String>,
    pub source_branch: String,
    pub target_branch: String,
    pub merge_status: Option<String>,
    pub has_conflicts: bool,
    pub draft: bool,
    pub work_in_progress: bool,
}

/// The lines of the report on one merge request.
pub open spec fn merge_request_detail_lines(m: MergeRequestDetail) -> Seq<Seq<char>> {
    let head = seq![
        "# !"@ + decimal(m.iid as nat) + " - "@ + m.title@,
        "**State:** "@ + m.state@,
        "**Author:** "@ + name_or_unknown(m.author),
        "**Branch:** "@ + m.source_branch@ + " → "@ + m.target_branch@,
    ];
    let s = match m.merge_status {
        Some(st) => head.push("**Merge Status:** "@ + st@),
        None => head,
    };
    let c = if m.has_conflicts { s.push("**Has Conflicts:** Yes"@) } else { s };
    let d = if m.draft || m.work_in_progress { c.push("**Status:** Draft / WIP"@) } else { c };
    let a = if m.assignees@.len() > 0 {
        d.push("**Assignees:** "@ + comma_joined(views(m.assignees@)))
    } else {
        d
    };
    let body = a + seq!["**Created:** "@ + m.created_at@, "**Updated:** "@ + m.updated_at@, "**URL:** "@ + m.web_url@];
    match m.description {
        Some(desc) => body.push("\n## Description\n"@ + desc@),
        None => body,
    }
}

/// Writes the report on one merge request.
pub fn merge_request_report(m: &MergeRequestDetail) -> (r: String)
    ensures
        r@ == join_lines(merge_request_detail_lines(*m)),
{
    let mut out: Vec<String> = Vec::new();
    let iid = u64_to_decimal(m.iid);
    let mut head = String::from_str("# !");
    head.append(iid.as_str());
    head.append(" - ");
    head.append(m.title.as_str());
    out.push(head);
    out.push(line("**State:** ", m.state.as_str()));
    out.push(line("**Author:** ", name_or_unknown_of(&m.author)));
    let mut branch = String::from_str("**Branch:** ");
    branch.append(m.source_branch.as_str());
    branch.append(" → ");
    branch.append(m.target_branch.as_str());
    out.push(branch);
    match &m.merge_status {
        Some(st) => out.push(line("**Merge Status:** ", st.as_str())),
        None => {},
    }
    if m.has_conflicts {
        out.push(String::from_str("**Has Conflicts:** Yes"));
    }
    if m.draft || m.work_in_progress {
        out.push(String::from_str("**Status:** Draft / WIP"));
    }
    if m.assignees.len() > 0 {
        let names = join_commas(&m.assignees);
        out.push(line("**Assignees:** ", names.as_str()));
    }
    out.push(line("**Created:** ", m.created_at.as_str()));
    out.push(line("**Updated:** ", m.updated_at.as_str()));
    out.push(line("**URL:** ", m.web_url.as_str()));
    match &m.description {
        Some(d) => out.push(line("\n## Description\n", d.as_str())),
        None => {},
    }
    assert(views(out@) =~= merge_request_detail_lines(*m));
    join_with_newlines(&out)
}

} // verus!
