//! The text the documentation scraper writes and prints: each page's
//! markdown file, the index of all pages, the dry-run listing and the
//! closing summary.

use vstd::prelude::*;
use vstd::string::StringExecFns;
use crate::resources::{ApiResource, ResourceCategory, category_display, category_at};
use crate::text::{decimal, u64_to_decimal, push_char, chars_of, string_of};
use crate::bearer_auth::views;
use crate::project_view::rule;

verus! {

/// The markdown file of a page: its title, a line naming the source page,
/// and the converted content.
pub open spec fn page_document_of(title: Seq<char>, url: Seq<char>, markdown: Seq<char>) -> Seq<char> {
    "# "@ + title + "\n\n> Source: [GitLab Documentation](https://docs.gitlab.com/"@ + url + ".html)\n\n"@ + markdown
        + "\n"@
}

/// Writes the markdown file content of a page.
pub fn page_document(title: &str, url: &str, markdown: &str) -> (r: String)
    ensures
        r@ == page_document_of(title@, url@, markdown@),
{
    let mut r = String::from_str("# ");
    r.append(title);
    r.append("\n\n> Source: [GitLab Documentation](https://docs.gitlab.com/");
    r.append(url);
    r.append(".html)\n\n");
    r.append(markdown);
    r.append("\n");
    r
}

/// `p` with backslashes turned into slashes.
pub open spec fn slashed(p: Seq<char>) -> Seq<char> {
    p.map_values(|c: char| if c == '\\' { '/' } else { c })
}

/// Whether some resource is in category `c`.
pub open spec fn has_category(rs: Seq<ApiResource>, c: ResourceCategory) -> bool {
    exists|i: int| 0 <= i < rs.len() && (#[trigger] rs[i]).category == c
}

/// The index entries of the resources of category `c`, in order.
pub open spec fn index_entries(rs: Seq<ApiResource>, c: ResourceCategory) -> Seq<char>
    decreases rs.len(),
{
    if rs.len() == 0 {
        Seq::empty()
    } else {
        index_entries(rs.drop_last(), c) + (if rs.last().category == c {
            "- ["@ + rs.last().name@ + "]("@ + slashed(rs.last().output_path@) + ")\n"@
        } else {
            Seq::empty()
        })
    }
}

proof fn lemma_index_prefix(rs: Seq<ApiResource>, c: ResourceCategory, m: int, n: int)
    requires
        0 <= m <= n <= rs.len(),
    ensures
        index_entries(rs.take(m), c).len() <= index_entries(rs.take(n), c).len(),
        index_entries(rs.take(n), c).subrange(0, index_entries(rs.take(m), c).len() as int)
            == index_entries(rs.take(m), c),
    decreases n - m,
{
    if m < n {
        lemma_index_prefix(rs, c, m, n - 1);
        assert(rs.take(n).drop_last() =~= rs.take(n - 1));
        let a = index_entries(rs.take(n - 1), c);
        let b = index_entries(rs.take(n), c);
        let l = index_entries(rs.take(m), c).len() as int;
        assert(b.subrange(0, a.len() as int) =~= a);
        assert(b.subrange(0, l) =~= a.subrange(0, l));
    } else {
        let b = index_entries(rs.take(n), c);
        assert(b.subrange(0, b.len() as int) =~= b);
    }
}

/// Every resource of category `c` gets its own `- [<name>](<path>)` line in
/// the index entries of `c`, in the order given: the line of resource `k`
/// comes right after the lines of the resources of `c` before it. A
/// resource of another category adds nothing there.
pub proof fn law_index_lists_every_resource(rs: Seq<ApiResource>, c: ResourceCategory, k: int)
    requires
        0 <= k < rs.len(),
    ensures
        rs[k].category == c ==> {
            let p = index_entries(rs.take(k), c).len() as int;
            let e = "- ["@ + rs[k].name@ + "]("@ + slashed(rs[k].output_path@) + ")\n"@;
            &&& p + e.len() <= index_entries(rs, c).len()
            &&& index_entries(rs, c).subrange(p, p + e.len()) == e
        },
        rs[k].category != c ==> index_entries(rs.take(k + 1), c) == index_entries(rs.take(k), c),
{
    lemma_index_prefix(rs, c, k + 1, rs.len() as int);
    assert(rs.take(rs.len() as int) =~= rs);
    assert(rs.take(k + 1).drop_last() =~= rs.take(k));
    assert(rs.take(k + 1).last() == rs[k]);
    let b = index_entries(rs.take(k + 1), c);
    if rs[k].category == c {
        let p = index_entries(rs.take(k), c).len() as int;
        let e = "- ["@ + rs[k].name@ + "]("@ + slashed(rs[k].output_path@) + ")\n"@;
        assert(b == index_entries(rs.take(k), c) + e);
        assert(index_entries(rs, c).subrange(p, p + e.len()) =~= b.subrange(p, p + e.len()));
        assert(b.subrange(p, p + e.len()) =~= e);
    } else {
        assert(b =~= index_entries(rs.take(k), c));
    }
}

/// Adding a resource of category `c` at the end adds its line at the end of
/// the entries of `c`.
pub proof fn law_index_entry_appended(rs: Seq<ApiResource>, c: ResourceCategory, x: ApiResource)
    requires
        x.category == c,
    ensures
        index_entries(rs.push(x), c) == index_entries(rs, c) + ("- ["@ + x.name@ + "]("@ + slashed(x.output_path@)
            + ")\n"@),
{
    assert(rs.push(x).drop_last() =~= rs);
}

/// The index section of a category: nothing when it has no resource.
pub open spec fn index_section(rs: Seq<ApiResource>, c: ResourceCategory) -> Seq<char> {
    if has_category(rs, c) {
        "## "@ + category_display(c) + "\n\n"@ + index_entries(rs, c) + "\n"@
    } else {
        Seq::empty()
    }
}

/// The index of the scraped pages: a heading, the source, the count, then
/// one section per category in table order.
pub open spec fn index_of(rs: Seq<ApiResource>) -> Seq<char> {
    "# GitLab REST API Documentation\n\n"@ + "> Scraped from [GitLab API Documentation](https://docs.gitlab.com/ee/api/)\n\n"@
        + "Total resources: "@ + decimal(rs.len()) + "\n\n"@ + index_section(rs, category_at(0)) + index_section(
        rs,
        category_at(1),
    ) + index_section(rs, category_at(2)) + index_section(rs, category_at(3))
}

fn replace_backslashes(s: &str) -> (r: String)
    ensures
        r@ == slashed(s@),
{
    let v = chars_of(s);
    let mut out: Vec<char> = Vec::new();
    let mut i: usize = 0;
    while i < v.len()
        invariant
            i <= v@.len(),
            out@ == slashed(v@.take(i as int)),
        decreases v.len() - i,
    {
        let c = if v[i] == '\\' { '/' } else { v[i] };
        out.push(c);
        assert(slashed(v@.take(i + 1)) =~= slashed(v@.take(i as int)).push(c));
        i = i + 1;
    }
    assert(v@.take(v@.len() as int) == v@);
    string_of(&out)
}

fn category_present(rs: &Vec<ApiResource>, c: ResourceCategory) -> (b: bool)
    ensures
        b == has_category(rs@, c),
{
    let mut i: usize = 0;
    while i < rs.len()
        invariant
            i <= rs@.len(),
            forall|j: int| 0 <= j < i ==> (#[trigger] rs@[j]).category != c,
        decreases rs.len() - i,
    {
        if rs[i].category == c {
            return true;
        }
        i = i + 1;
    }
    false
}

fn append_index_entries(out: &mut String, rs: &Vec<ApiResource>, c: ResourceCategory)
    ensures
        final(out)@ == old(out)@ + index_entries(rs@, c),
{
    let ghost start = out@;
    let mut i: usize = 0;
    assert(rs@.take(0) =~= Seq::<ApiResource>::empty());
    while i < rs.len()
        invariant
            i <= rs@.len(),
            out@ == start + index_entries(rs@.take(i as int), c),
        decreases rs.len() - i,
    {
        let ghost t = rs@.take(i + 1);
        assert(t.drop_last() =~= rs@.take(i as int));
        assert(t.last() == rs@[i as int]);
        if rs[i].category == c {
            out.append("- [");
            out.append(rs[i].name.as_str());
            out.append("](");
            let p = replace_backslashes(rs[i].output_path.as_str());
            out.append(p.as_str());
            out.append(")\n");
        }
        i = i + 1;
    }
    assert(rs@.take(rs@.len() as int) =~= rs@);
}

fn append_index_section(out: &mut String, rs: &Vec<ApiResource>, c: ResourceCategory)
    ensures
        final(out)@ == old(out)@ + index_section(rs@, c),
{
    if category_present(rs, c) {
        out.append("## ");
        out.append(c.display_name());
        out.append("\n\n");
        append_index_entries(out, rs, c);
        out.append("\n");
    }
}

/// Writes the index of the scraped pages.
pub fn index_content(resources: &Vec<ApiResource>) -> (r: String)
    ensures
        r@ == index_of(resources@),
{
    let mut r = String::from_str("# GitLab REST API Documentation\n\n");
    r.append("> Scraped from [GitLab API Documentation](https://docs.gitlab.com/ee/api/)\n\n");
    r.append("Total resources: ");
    let n = u64_to_decimal(resources.len() as u64);
    r.append(n.as_str());
    r.append("\n\n");
    append_index_section(&mut r, resources, ResourceCategory::Project);
    append_index_section(&mut r, resources, ResourceCategory::Group);
    append_index_section(&mut r, resources, ResourceCategory::Standalone);
    append_index_section(&mut r, resources, ResourceCategory::Templates);
    r
}

/// The dry-run lines of the resources of category `c`, in order.
pub open spec fn dry_run_entries(rs: Seq<ApiResource>, c: ResourceCategory) -> Seq<Seq<char>>
    decreases rs.len(),
{
    if rs.len() == 0 {
        Seq::empty()
    } else {
        dry_run_entries(rs.drop_last(), c) + (if rs.last().category == c {
            seq!["  - "@ + rs.last().name@ + " -> "@ + rs.last().output_path@]
        } else {
            Seq::empty()
        })
    }
}

/// The dry-run block of a category: heading, underline and entries, or
/// nothing when it has no resource.
pub open spec fn dry_run_section(rs: Seq<ApiResource>, c: ResourceCategory) -> Seq<Seq<char>> {
    if has_category(rs, c) {
        seq!["\n"@ + category_display(c), rule(vstd::utf8::encode_utf8(category_display(c)).len())]
            + dry_run_entries(rs, c)
    } else {
        Seq::empty()
    }
}

/// The lines printed by a dry run.
pub open spec fn dry_run_of(rs: Seq<ApiResource>) -> Seq<Seq<char>> {
    dry_run_section(rs, category_at(0)) + dry_run_section(rs, category_at(1)) + dry_run_section(rs, category_at(2))
        + dry_run_section(rs, category_at(3)) + seq!["\nTotal: "@ + decimal(rs.len()) + " resources"@]
}

fn rule_line(n: usize) -> (r: String)
    ensures
        r@ == rule(n as nat),
{
    let mut r = String::new();
    let mut k: usize = 0;
    while k < n
        invariant
            k <= n,
            r@ == rule(k as nat),
        decreases n - k,
    {
        push_char(&mut r, '=');
        assert(rule((k + 1) as nat) =~= rule(k as nat).push('='));
        k = k + 1;
    }
    r
}

fn push_dry_run_section(out: &mut Vec<String>, rs: &Vec<ApiResource>, c: ResourceCategory)
    ensures
        views(final(out)@) == views(old(out)@) + dry_run_section(rs@, c),
{
    if category_present(rs, c) {
        let ghost start = views(out@);
        let heading = c.display_name();
        let mut h = String::from_str("\n");
        h.append(heading);
        out.push(h);
        out.push(rule_line(heading.as_bytes().len()));
        let ghost with_head = views(out@);
        let mut i: usize = 0;
        assert(rs@.take(0) =~= Seq::<ApiResource>::empty());
        assert(with_head =~= start + seq!["\n"@ + category_display(c), rule(vstd::utf8::encode_utf8(category_display(c)).len())] + dry_run_entries(rs@.take(0), c));
        while i < rs.len()
            invariant
                i <= rs@.len(),
                views(out@) == with_head + dry_run_entries(rs@.take(i as int), c),
            decreases rs.len() - i,
        {
            let ghost t = rs@.take(i + 1);
            assert(t.drop_last() =~= rs@.take(i as int));
            assert(t.last() == rs@[i as int]);
            let ghost before = views(out@);
            if rs[i].category == c {
                let mut line = String::from_str("  - ");
                line.append(rs[i].name.as_str());
                line.append(" -> ");
                line.append(rs[i].output_path.as_str());
                out.push(line);
                assert(views(out@) =~= before + seq!["  - "@ + rs@[i as int].name@ + " -> "@ + rs@[i as int].output_path@]);
            } else {
                assert(views(out@) =~= before + Seq::<Seq<char>>::empty());
            }
            i = i + 1;
        }
        assert(rs@.take(rs@.len() as int) =~= rs@);
        assert(views(out@) =~= start + dry_run_section(rs@, c));
    }
}

/// The lines printed by a dry run: per category, its heading, an
/// underline and its resources with their output paths; then the total.
pub fn dry_run_lines(resources: &Vec<ApiResource>) -> (r: Vec<String>)
    ensures
        views(r@) == dry_run_of(resources@),
{
    let mut out: Vec<String> = Vec::new();
    push_dry_run_section(&mut out, resources, ResourceCategory::Project);
    push_dry_run_section(&mut out, resources, ResourceCategory::Group);
    push_dry_run_section(&mut out, resources, ResourceCategory::Standalone);
    push_dry_run_section(&mut out, resources, ResourceCategory::Templates);
    let ghost before = views(out@);
    let mut last = String::from_str("\nTotal: ");
    let n = u64_to_decimal(resources.len() as u64);
    last.append(n.as_str());
    last.append(" resources");
    out.push(last);
    assert(views(out@) =~= before.push("\nTotal: "@ + decimal(resources@.len()) + " resources"@));
    assert(views(out@) =~= dry_run_of(resources@));
    out
}

/// The tally of a scraping run.
pub struct ScrapeSummary {
    pub total: usize,
    pub successful: usize,
    pub failed: usize,
    pub skipped: usize,
    /// Name and error text of each resource that failed, in order.
    pub failed_resources: Vec<(String, String)>,
}

impl ScrapeSummary {
    /// A tally of `total` resources with nothing done yet.
    pub fn new(total: usize) -> (s: ScrapeSummary)
        ensures
            s.total == total,
            s.successful == 0,
            s.failed == 0,
            s.skipped == 0,
            s.failed_resources@.len() == 0,
    {
        ScrapeSummary { total, successful: 0, failed: 0, skipped: 0, failed_resources: Vec::new() }
    }

    /// Counts a resource that was scraped.
    pub fn record_success(&mut self)
        requires
            old(self).successful < usize::MAX,
        ensures
            final(self).successful == old(self).successful + 1,
            final(self).failed == old(self).failed,
            final(self).total == old(self).total,
            final(self).skipped == old(self).skipped,
            final(self).failed_resources@ == old(self).failed_resources@,
    {
        self.successful = self.successful + 1;
    }

    /// Counts a resource that failed, keeping its name and error.
    pub fn record_failure(&mut self, name: String, error: String)
        requires
            old(self).failed < usize::MAX,
        ensures
            final(self).failed == old(self).failed + 1,
            final(self).successful == old(self).successful,
            final(self).total == old(self).total,
            final(self).skipped == old(self).skipped,
            final(self).failed_resources@ == old(self).failed_resources@.push((name, error)),
    {
        self.failed = self.failed + 1;
        self.failed_resources.push((name, error));
    }
}

/// The failure lines of a summary: a heading and one line per failure, or
/// nothing when nothing failed.
pub open spec fn failure_lines(f: Seq<(String, String)>) -> Seq<Seq<char>> {
    if f.len() > 0 {
        seq!["\nFailed resources:"@] + f.map_values(|p: (String, String)| "  - "@ + p.0@ + ": "@ + p.1@)
    } else {
        Seq::empty()
    }
}

/// The lines of the closing summary; `duration` is the elapsed time as text.
pub open spec fn summary_of(s: ScrapeSummary, duration: Seq<char>) -> Seq<Seq<char>> {
    seq![
        "\n"@ + rule(60),
        "Scrape Summary"@,
        rule(60),
        "Total resources:  "@ + decimal(s.total as nat),
        "Successful:      "@ + decimal(s.successful as nat),
        "Failed:          "@ + decimal(s.failed as nat),
        "Duration:        "@ + duration,
    ] + failure_lines(s.failed_resources@) + seq![rule(60)]
}

fn labelled_count(label: &str, n: usize) -> (r: String)
    ensures
        r@ == label@ + decimal(n as nat),
{
    let mut r = String::from_str(label);
    let d = u64_to_decimal(n as u64);
    r.append(d.as_str());
    r
}

/// The lines printed at the end of a run.
pub fn summary_lines(s: &ScrapeSummary, duration: &str) -> (r: Vec<String>)
    ensures
        views(r@) == summary_of(*s, duration@),
{
    let mut out: Vec<String> = Vec::new();
    let mut first = String::from_str("\n");
    let bar = rule_line(60);
    first.append(bar.as_str());
    out.push(first);
    out.push(String::from_str("Scrape Summary"));
    out.push(rule_line(60));
    out.push(labelled_count("Total resources:  ", s.total));
    out.push(labelled_count("Successful:      ", s.successful));
    out.push(labelled_count("Failed:          ", s.failed));
    let mut d = String::from_str("Duration:        ");
    d.append(duration);
    out.push(d);
    let ghost head = views(out@);
    assert(head =~= seq![
        "\n"@ + rule(60),
        "Scrape Summary"@,
        rule(60),
        "Total resources:  "@ + decimal(s.total as nat),
        "Successful:      "@ + decimal(s.successful as nat),
        "Failed:          "@ + decimal(s.failed as nat),
        "Duration:        "@ + duration@,
    ]);
    if s.failed_resources.len() > 0 {
        out.push(String::from_str("\nFailed resources:"));
        let f = &s.failed_resources;
        let mut i: usize = 0;
        while i < f.len()
            invariant
                i <= f@.len(),
                views(out@) == head + seq!["\nFailed resources:"@] + f@.take(i as int).map_values(
                    |p: (String, String)| "  - "@ + p.0@ + ": "@ + p.1@,
                ),
            decreases f.len() - i,
        {
            let ghost before = views(out@);
            let mut line = String::from_str("  - ");
            line.append(f[i].0.as_str());
            line.append(": ");
            line.append(f[i].1.as_str());
            out.push(line);
            proof {
                assert(f@.take(i + 1) =~= f@.take(i as int).push(f@[i as int]));
                assert(f@.take(i + 1).map_values(|p: (String, String)| "  - "@ + p.0@ + ": "@ + p.1@) =~= f@.take(
                    i as int,
                ).map_values(|p: (String, String)| "  - "@ + p.0@ + ": "@ + p.1@).push(
                    "  - "@ + f@[i as int].0@ + ": "@ + f@[i as int].1@,
                ));
                assert(views(out@) =~= before.push("  - "@ + f@[i as int].0@ + ": "@ + f@[i as int].1@));
            }
            i = i + 1;
        }
        assert(f@.take(f@.len() as int) =~= f@);
    }
    assert(views(out@) =~= head + failure_lines(s.failed_resources@));
    let ghost before_last = views(out@);
    out.push(rule_line(60));
    assert(views(out@) =~= before_last.push(rule(60)));
    assert(views(out@) =~= summary_of(*s, duration@));
    out
}

} // verus!
