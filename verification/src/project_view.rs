//! The text that the GitLab client prints for its project commands, line by
//! line (each entry is what one `println!` prints, without its newline).

use vstd::prelude::*;
use vstd::string::StringExecFns;
use vstd::string::StringSliceAdditionalSpecFns;
use vstd::utf8::is_char_boundary;
use crate::gitlab_models::Project;
use crate::display::{truncate, truncated};
use crate::text::{decimal, u64_to_decimal, push_char};
use crate::bearer_auth::views;

verus! {

/// `n` spaces.
pub open spec fn spaces(n: nat) -> Seq<char> {
    Seq::new(n, |i: int| ' ')
}

/// `s` padded with spaces on the right to `w` characters (`{:<w}`).
pub open spec fn pad_right(s: Seq<char>, w: nat) -> Seq<char> {
    if s.len() < w {
        s + spaces((w - s.len()) as nat)
    } else {
        s
    }
}

/// `n` equal signs.
pub open spec fn rule(n: nat) -> Seq<char> {
    Seq::new(n, |i: int| '=')
}

fn pad_to(s: &mut String, w: usize)
    ensures
        final(s)@ == pad_right(old(s)@, w as nat),
{
    let n = crate::text::chars_of(s.as_str()).len();
    if n < w {
        let mut k: usize = n;
        let ghost start = s@;
        while k < w
            invariant
                n <= k <= w,
                start.len() == n,
                s@ == start + spaces((k - n) as nat),
            decreases w - k,
        {
            push_char(s, ' ');
            assert(spaces((k + 1 - n) as nat) =~= spaces((k - n) as nat).push(' '));
            k = k + 1;
        }
    } else {
    }
}

/// Whether the names and descriptions of the projects can be cut where the
/// listing shortens them (at byte 27 of a name over 30 bytes and byte 67 of
/// a description over 70 bytes), as the cut must fall between characters.
pub open spec fn listing_cuts_ok(projects: Seq<Project>) -> bool {
    forall|i: int| 0 <= i < projects.len() ==> {
        &&& vstd::utf8::encode_utf8((#[trigger] projects[i]).name@).len() > 30 ==> is_char_boundary(
            vstd::utf8::encode_utf8(projects[i].name@),
            27,
        )
        &&& projects[i].description matches Some(d) ==> (vstd::utf8::encode_utf8(d@).len() > 70
            ==> is_char_boundary(vstd::utf8::encode_utf8(d@), 67))
    }
}

/// The lines printed for one project of the table listing: id, name and
/// path, then the description when there is a non-empty one, then a blank
/// line.
pub open spec fn table_entry(p: Project) -> Seq<Seq<char>> {
    let head = pad_right(decimal(p.id as nat), 8) + " | "@ + pad_right(truncated(p.name@, 30), 30)
        + " | "@ + p.path_with_namespace@;
    let desc = match p.description {
        Some(d) => d@,
        None => Seq::empty(),
    };
    let with_desc = if desc.len() > 0 {
        seq![head, "         └─ "@ + truncated(p.description->0@, 70)]
    } else {
        seq![head]
    };
    with_desc.push(Seq::empty())
}

/// The lines printed for one project of the plain listing.
pub open spec fn plain_entry(p: Project) -> Seq<Seq<char>> {
    let head = seq!["# "@ + p.path_with_namespace@ + " ("@ + decimal(p.id as nat) + ")"@];
    let with_desc = match p.description {
        Some(d) => head.push("  "@ + d@),
        None => head,
    };
    with_desc.push("  "@ + p.web_url@).push(Seq::empty())
}

/// All lines of a listing, entry after entry.
pub open spec fn listing_lines(projects: Seq<Project>, table: bool) -> Seq<Seq<char>>
    decreases projects.len(),
{
    if projects.len() == 0 {
        if table { seq!["\nProjects:"@] } else { Seq::empty() }
    } else {
        listing_lines(projects.drop_last(), table) + (if table {
            table_entry(projects.last())
        } else {
            plain_entry(projects.last())
        })
    }
}

/// The lines of one project's entry, as a table row or as plain text.
pub open spec fn entry_lines(p: Project, table: bool) -> Seq<Seq<char>> {
    if table {
        table_entry(p)
    } else {
        plain_entry(p)
    }
}

proof fn lemma_listing_prefix(ps: Seq<Project>, table: bool, m: int, n: int)
    requires
        0 <= m <= n <= ps.len(),
    ensures
        listing_lines(ps.take(m), table).len() <= listing_lines(ps.take(n), table).len(),
        listing_lines(ps.take(n), table).subrange(0, listing_lines(ps.take(m), table).len() as int)
            == listing_lines(ps.take(m), table),
    decreases n - m,
{
    if m < n {
        lemma_listing_prefix(ps, table, m, n - 1);
        assert(ps.take(n).drop_last() =~= ps.take(n - 1));
        let a = listing_lines(ps.take(n - 1), table);
        let b = listing_lines(ps.take(n), table);
        assert(b == a + entry_lines(ps.take(n).last(), table));
        let l = listing_lines(ps.take(m), table).len() as int;
        assert(b.subrange(0, l) =~= a.subrange(0, l));
    } else {
        let b = listing_lines(ps.take(n), table);
        assert(b.subrange(0, b.len() as int) =~= b);
    }
}

/// The listing prints an entry for every project given, in order, in
/// either mode: the entry of project `k` comes right after those of the
/// projects before it; as plain text it starts with `# <path> (<id>)`, as a
/// table with the id, name and path row.
pub proof fn law_listing_has_every_project(ps: Seq<Project>, table: bool, k: int)
    requires
        0 <= k < ps.len(),
    ensures
        listing_lines(ps.take(k), table).len() + entry_lines(ps[k], table).len() <= listing_lines(ps, table).len(),
        listing_lines(ps, table).subrange(
            listing_lines(ps.take(k), table).len() as int,
            listing_lines(ps.take(k), table).len() + entry_lines(ps[k], table).len() as int,
        ) == entry_lines(ps[k], table),
        !table ==> listing_lines(ps, table)[listing_lines(ps.take(k), table).len() as int] == "# "@
            + ps[k].path_with_namespace@ + " ("@ + decimal(ps[k].id as nat) + ")"@,
        table ==> listing_lines(ps, table)[listing_lines(ps.take(k), table).len() as int] == pad_right(
            decimal(ps[k].id as nat),
            8,
        ) + " | "@ + pad_right(truncated(ps[k].name@, 30), 30) + " | "@ + ps[k].path_with_namespace@,
{
    lemma_listing_prefix(ps, table, k + 1, ps.len() as int);
    assert(ps.take(ps.len() as int) =~= ps);
    assert(ps.take(k + 1).drop_last() =~= ps.take(k));
    assert(ps.take(k + 1).last() == ps[k]);
    let p = listing_lines(ps.take(k), table).len() as int;
    let e = entry_lines(ps[k], table);
    let b = listing_lines(ps.take(k + 1), table);
    assert(b == listing_lines(ps.take(k), table) + e);
    assert(listing_lines(ps, table).subrange(p, p + e.len()) =~= b.subrange(p, p + e.len()));
    assert(b.subrange(p, p + e.len()) =~= e);
    assert(listing_lines(ps, table)[p] == b[p]);
}

/// Adding a project at the end adds its entry at the end of the listing.
pub proof fn law_listing_appended(ps: Seq<Project>, table: bool, x: Project)
    ensures
        listing_lines(ps.push(x), table) == listing_lines(ps, table) + entry_lines(x, table),
{
    assert(ps.push(x).drop_last() =~= ps);
}

fn table_entry_lines(p: &Project, out: &mut Vec<String>)
    requires
        vstd::utf8::encode_utf8(p.name@).len() > 30 ==> is_char_boundary(vstd::utf8::encode_utf8(p.name@), 27),
        p.description matches Some(d) ==> (vstd::utf8::encode_utf8(d@).len() > 70 ==> is_char_boundary(
            vstd::utf8::encode_utf8(d@),
            67,
        )),
    ensures
        views(final(out)@) == views(old(out)@) + table_entry(*p),
{
    let mut head = u64_to_decimal(p.id);
    pad_to(&mut head, 8);
    head.append(" | ");
    let mut name = truncate(p.name.as_str(), 30);
    pad_to(&mut name, 30);
    head.append(name.as_str());
    head.append(" | ");
    head.append(p.path_with_namespace.as_str());
    let ghost before = views(out@);
    out.push(head);
    match &p.description {
        Some(d) => {
            if crate::text::chars_of(d.as_str()).len() > 0 {
                let mut line = String::from_str("         └─ ");
                let t = truncate(d.as_str(), 70);
                line.append(t.as_str());
                out.push(line);
            }
        },
        None => {},
    }
    out.push(String::new());
    assert(views(out@) =~= before + table_entry(*p));
}

fn plain_entry_lines(p: &Project, out: &mut Vec<String>)
    ensures
        views(final(out)@) == views(old(out)@) + plain_entry(*p),
{
    let ghost before = views(out@);
    let mut head = String::from_str("# ");
    head.append(p.path_with_namespace.as_str());
    head.append(" (");
    let id = u64_to_decimal(p.id);
    head.append(id.as_str());
    head.append(")");
    out.push(head);
    match &p.description {
        Some(d) => {
            let mut line = String::from_str("  ");
            line.append(d.as_str());
            out.push(line);
        },
        None => {},
    }
    let mut web = String::from_str("  ");
    web.append(p.web_url.as_str());
    out.push(web);
    out.push(String::new());
    assert(views(out@) =~= before + plain_entry(*p));
}

/// The lines printed by the project listing, as a table or as plain text.
pub fn project_listing(projects: &Vec<Project>, table: bool) -> (r: Vec<String>)
    requires
        table ==> listing_cuts_ok(projects@),
    ensures
        views(r@) == listing_lines(projects@, table),
{
    let mut out: Vec<String> = Vec::new();
    if table {
        out.push(String::from_str("\nProjects:"));
    }
    let mut i: usize = 0;
    assert(projects@.take(0) =~= Seq::<Project>::empty());
    assert(views(out@) =~= listing_lines(projects@.take(0), table));
    while i < projects.len()
        invariant
            i <= projects@.len(),
            table ==> listing_cuts_ok(projects@),
            views(out@) == listing_lines(projects@.take(i as int), table),
        decreases projects.len() - i,
    {
        assert(projects@.take(i + 1).drop_last() =~= projects@.take(i as int));
        assert(projects@.take(i + 1).last() == projects@[i as int]);
        if table {
            assert(listing_cuts_ok(projects@));
            table_entry_lines(&projects[i], &mut out);
        } else {
            plain_entry_lines(&projects[i], &mut out);
        }
        i = i + 1;
    }
    assert(projects@.take(projects@.len() as int) =~= projects@);
    out
}

/// The closing message of the listing.
pub fn listing_summary(count: usize) -> (r: String)
    ensures
        r@ == "Found "@ + decimal(count as nat) + " project(s)"@,
{
    let mut r = String::from_str("Found ");
    let n = u64_to_decimal(count as u64);
    r.append(n.as_str());
    r.append(" project(s)");
    r
}

/// The message for the members command, which is not implemented yet.
pub fn members_message(project_id: &str) -> (r: String)
    ensures
        r@ == "Members command not implemented yet for project: "@ + project_id@,
{
    let mut r = String::from_str("Members command not implemented yet for project: ");
    r.append(project_id);
    r
}

/// An optional text, or a fallback.
pub open spec fn or_text(o: Option<String>, fallback: Seq<char>) -> Seq<char> {
    match o {
        Some(s) => s@,
        None => fallback,
    }
}

/// An optional count, 0 when absent.
pub open spec fn or_zero(o: Option<u64>) -> Seq<char> {
    match o {
        Some(n) => decimal(n as nat),
        None => "0"@,
    }
}

/// The topic lines: a heading and one line per topic, nothing when there are none.
pub open spec fn topic_lines(topics: Option<Vec<String>>) -> Seq<Seq<char>> {
    match topics {
        Some(t) => if t@.len() > 0 {
            seq!["\nTopics:"@] + views(t@).map_values(|x: Seq<char>| "  - "@ + x)
        } else {
            Seq::empty()
        },
        None => Seq::empty(),
    }
}

/// The lines printed for one project.
pub open spec fn detail_lines(p: Project) -> Seq<Seq<char>> {
    let head = seq!["\n"@ + p.name@, rule(vstd::utf8::encode_utf8(p.name@).len()), "ID:               "@ + decimal(p.id as nat)];
    let with_iid = match p.iid {
        Some(i) => head.push("IID:              "@ + decimal(i as nat)),
        None => head,
    };
    let body = with_iid + seq![
        "Path:             "@ + p.path_with_namespace@,
        "Visibility:       "@ + or_text(p.visibility, "Unknown"@),
        "Default Branch:   "@ + or_text(p.default_branch, "None"@),
        "Stars:            "@ + or_zero(p.star_count),
        "Forks:            "@ + or_zero(p.forks_count),
        "Web URL:          "@ + p.web_url@,
        "SSH URL:          "@ + or_text(p.ssh_url_to_repo, "None"@),
        "HTTP URL:         "@ + or_text(p.http_url_to_repo, "None"@),
    ];
    let with_desc = match p.description {
        Some(d) => body + seq!["\nDescription:"@, "  "@ + d@],
        None => body,
    };
    let with_topics = with_desc + topic_lines(p.topics);
    let with_created = match p.created_at {
        Some(c) => with_topics.push("\nCreated:         "@ + c@),
        None => with_topics,
    };
    match p.last_activity_at {
        Some(a) => with_created.push("Last Activity:   "@ + a@),
        None => with_created,
    }
}

fn labelled(label: &str, value: &str) -> (r: String)
    ensures
        r@ == label@ + value@,
{
    let mut r = String::from_str(label);
    r.append(value);
    r
}

fn labelled_or(label: &str, value: &Option<String>, fallback: &str) -> (r: String)
    ensures
        r@ == label@ + or_text(*value, fallback@),
{
    match value {
        Some(v) => labelled(label, v.as_str()),
        None => labelled(label, fallback),
    }
}

fn labelled_count(label: &str, value: Option<u64>) -> (r: String)
    ensures
        r@ == label@ + or_zero(value),
{
    match value {
        Some(n) => {
            let d = u64_to_decimal(n);
            labelled(label, d.as_str())
        },
        None => labelled(label, "0"),
    }
}

fn rule_of(n: usize) -> (r: String)
    ensures
        r@ == rule(n as nat),
{
    let mut r = String::new();
    let mut k: usize = 0;
    while k < n
        invariant
            k <= n,
            r@ == rule(k as nat),
        decreases n - k,
    {
        push_char(&mut r, '=');
        assert(rule((k + 1) as nat) =~= rule(k as nat).push('='));
        k = k + 1;
    }
    r
}

/// The lines printed for one project by the `get` command.
pub fn project_details(p: &Project) -> (r: Vec<String>)
    ensures
        views(r@) == detail_lines(*p),
{
    let mut out: Vec<String> = Vec::new();
    out.push(labelled("\n", p.name.as_str()));
    let n = p.name.as_str().as_bytes().len();
    assert(n == vstd::utf8::encode_utf8(p.name@).len());
    out.push(rule_of(n));
    let id = u64_to_decimal(p.id);
    out.push(labelled("ID:               ", id.as_str()));
    match p.iid {
        Some(i) => {
            let d = u64_to_decimal(i);
            out.push(labelled("IID:              ", d.as_str()));
        },
        None => {},
    }
    out.push(labelled("Path:             ", p.path_with_namespace.as_str()));
    out.push(labelled_or("Visibility:       ", &p.visibility, "Unknown"));
    out.push(labelled_or("Default Branch:   ", &p.default_branch, "None"));
    out.push(labelled_count("Stars:            ", p.star_count));
    out.push(labelled_count("Forks:            ", p.forks_count));
    out.push(labelled("Web URL:          ", p.web_url.as_str()));
    out.push(labelled_or("SSH URL:          ", &p.ssh_url_to_repo, "None"));
    out.push(labelled_or("HTTP URL:         ", &p.http_url_to_repo, "None"));
    match &p.description {
        Some(d) => {
            out.push(String::from_str("\nDescription:"));
            out.push(labelled("  ", d.as_str()));
        },
        None => {},
    }
    let ghost before_topics = views(out@);
    proof {
        let head = seq!["\n"@ + p.name@, rule(vstd::utf8::encode_utf8(p.name@).len()), "ID:               "@ + decimal(p.id as nat)];
        let with_iid = match p.iid {
            Some(i) => head.push("IID:              "@ + decimal(i as nat)),
            None => head,
        };
        let body = with_iid + seq![
            "Path:             "@ + p.path_with_namespace@,
            "Visibility:       "@ + or_text(p.visibility, "Unknown"@),
            "Default Branch:   "@ + or_text(p.default_branch, "None"@),
            "Stars:            "@ + or_zero(p.star_count),
            "Forks:            "@ + or_zero(p.forks_count),
            "Web URL:          "@ + p.web_url@,
            "SSH URL:          "@ + or_text(p.ssh_url_to_repo, "None"@),
            "HTTP URL:         "@ + or_text(p.http_url_to_repo, "None"@),
        ];
        let with_desc = if p.description is Some {
            body + seq!["\nDescription:"@, "  "@ + p.description->0@]
        } else {
            body
        };
        assert(before_topics =~= with_desc);
    }
    match &p.topics {
        Some(t) => {
            if t.len() > 0 {
                out.push(String::from_str("\nTopics:"));
                let mut j: usize = 0;
                while j < t.len()
                    invariant
                        j <= t@.len(),
                        views(out@) == before_topics + seq!["\nTopics:"@] + views(t@).take(j as int).map_values(
                            |x: Seq<char>| "  - "@ + x,
                        ),
                    decreases t.len() - j,
                {
                    let ghost prev = views(out@);
                    out.push(labelled("  - ", t[j].as_str()));
                    proof {
                        assert(views(t@).take(j + 1) =~= views(t@).take(j as int).push(t@[j as int]@));
                        assert(views(t@).take(j + 1).map_values(|x: Seq<char>| "  - "@ + x) =~= views(t@).take(
                            j as int,
                        ).map_values(|x: Seq<char>| "  - "@ + x).push("  - "@ + t@[j as int]@));
                        assert(views(out@) =~= prev.push("  - "@ + t@[j as int]@));
                    }
                    j = j + 1;
                }
                assert(views(t@).take(t@.len() as int) =~= views(t@));
            }
        },
        None => {},
    }
    assert(views(out@) =~= before_topics + topic_lines(p.topics));
    match &p.created_at {
        Some(c) => out.push(labelled("\nCreated:         ", c.as_str())),
        None => {},
    }
    match &p.last_activity_at {
        Some(a) => out.push(labelled("Last Activity:   ", a.as_str())),
        None => {},
    }
    assert(views(out@) =~= detail_lines(*p));
    out
}

} // verus!
