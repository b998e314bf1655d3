//! The GitLab REST API documentation pages to scrape.

use vstd::prelude::*;
use vstd::string::StringExecFns;
use crate::text::{chars_of, contains_chars, contains_seq, lowercase_of, to_lowercase, str_eq};

verus! {

/// Project resources: display name and URL slug.
pub const PROJECT_RESOURCES: [(&'static str, &'static str); 113] = [
    ("Access Requests", "access_requests"),
    ("Access Tokens", "access_tokens"),
    ("Agents", "cluster_agents"),
    ("Application Settings", "application_settings"),
    ("Approvals", "merge_request_approvals"),
    ("Audit Events", "audit_events"),
    ("Award Emoji", "award_emoji"),
    ("Badges", "badges"),
    ("Board", "boards"),
    ("Branches", "branches"),
    ("Cherry Pick Commits", "cherry_pick_commits"),
    ("Clusters", "clusters"),
    ("Commits", "commits"),
    ("Composer Packages", "composer"),
    ("Container Repository Protection Rules", "container_repository_protection_rules"),
    ("Container Registry", "container_registry"),
    ("Custom Attributes", "custom_attributes"),
    ("Cycle Analytics", "cycle_analytics"),
    ("Deploy Keys", "deploy_keys"),
    ("Deploy Tokens", "deploy_tokens"),
    ("Deployments", "deployments"),
    ("Discussions", "discussions"),
    ("Draft Notes", "draft_notes"),
    ("Environments", "environments"),
    ("Epics", "epics"),
    ("Error Tracking", "error_tracking"),
    ("Events", "events"),
    ("External Status Checks", "external_status_checks"),
    ("Feature Flags", "feature_flags"),
    ("Feature Flags User Lists", "feature_flags_user_lists"),
    ("Freeze Periods", "freeze_periods"),
    ("Go Packages", "go"),
    ("GitLab CI YAML Templates", "gitlab_ci_yml_templates"),
    ("Group Import", "group_import"),
    ("Helm Packages", "helm_repository"),
    ("Import GitHub", "import_github"),
    ("Integrations", "integrations"),
    ("Invitations", "invitations"),
    ("Issue Boards", "boards"),
    ("Issue Links", "issue_links"),
    ("Issues", "issues"),
    ("Issues Statistics", "issues_statistics"),
    ("Iterations", "iterations"),
    ("Job Artifacts", "job_artifacts"),
    ("Jobs", "jobs"),
    ("Job Token Scope", "job_token_scope"),
    ("Keys", "keys"),
    ("Labels", "labels"),
    ("License Templates", "license_templates"),
    ("Lint", "lint"),
    ("Markdown", "markdown"),
    ("Maven Packages", "maven"),
    ("Members", "members"),
    ("Merge Request Approvals", "merge_request_approvals"),
    ("Merge Requests", "merge_requests"),
    ("Merge Trains", "merge_trains"),
    ("Metadata", "metadata"),
    ("Milestones", "milestones"),
    ("Model Registry", "ml_models"),
    ("Namespaces", "namespaces"),
    ("Notes", "notes"),
    ("Notification Settings", "notification_settings"),
    ("NPM Packages", "npm"),
    ("NuGet Packages", "nuget"),
    ("Packages", "packages"),
    ("Pages Domains", "pages_domains"),
    ("Pages", "pages"),
    ("Pipeline Schedules", "pipeline_schedules"),
    ("Pipeline Triggers", "pipeline_triggers"),
    ("Pipelines", "pipelines"),
    ("Project Access Tokens", "project_access_tokens"),
    ("Project Import", "project_import"),
    ("Project Snippets", "snippets"),
    ("Project Templates", "project_templates"),
    ("Projects", "projects"),
    ("Protected Branches", "protected_branches"),
    ("Protected Environments", "protected_environments"),
    ("Protected Packages", "protected_packages"),
    ("Protected Tags", "protected_tags"),
    ("PyPI Packages", "pypi"),
    ("Push Rules", "push_rules"),
    ("Python Packages", "pypi"),
    ("Releases", "releases"),
    ("Release Links", "release_links"),
    ("Remote Mirrors", "remote_mirrors"),
    ("Repositories", "repositories"),
    ("Repository Files", "repository_files"),
    ("Repository Submodules", "repository_submodules"),
    ("Resource Label Events", "resource_label_events"),
    ("Resource Milestone Events", "resource_milestone_events"),
    ("Resource State Events", "resource_state_events"),
    ("Resource Weight Events", "resource_weight_events"),
    ("Revert Commits", "revert_commits"),
    ("Ruby Gems Packages", "rubygems"),
    ("Runners", "runners"),
    ("Search", "search"),
    ("Secure Files", "secure_files"),
    ("Service Accounts", "service_accounts"),
    ("Settings", "settings"),
    ("Snippets", "snippets"),
    ("Suggestions", "suggestions"),
    ("Tags", "tags"),
    ("Terraform Modules", "terraform_modules"),
    ("Todos", "todos"),
    ("Topics", "topics"),
    ("Users", "users"),
    ("Validate CI YAML", "ci_lint"),
    ("Vulnerability Findings", "vulnerability_findings"),
    ("Vulnerability Exports", "vulnerability_exports"),
    ("Vulnerabilities", "vulnerabilities"),
    ("Web commits", "web_commits"),
    ("Wikis", "wikis"),
    ("Variables", "ci_variables"),
];

/// Group resources: display name and URL slug.
pub const GROUP_RESOURCES: [(&'static str, &'static str); 35] = [
    ("Access Requests", "access_requests"),
    ("Access Tokens", "group_access_tokens"),
    ("Badges", "group_badges"),
    ("Boards", "group_boards"),
    ("Custom Attributes", "custom_attributes"),
    ("Debian Packages", "debian_group_packages"),
    ("Deploy Tokens", "deploy_tokens"),
    ("Discussion", "group_discussions"),
    ("Epics", "epics"),
    ("Epic Issues", "epic_issues"),
    ("Epic Links", "epic_links"),
    ("Groups", "groups"),
    ("Invitations", "invitations"),
    ("Issues", "issues"),
    ("Issues Statistics", "issues_statistics"),
    ("Iterations", "iterations"),
    ("Labels", "group_labels"),
    ("LDAP Group Links", "ldap_group_links"),
    ("Member Roles", "member_roles"),
    ("Members", "members"),
    ("Merge Requests", "merge_requests"),
    ("Milestones", "milestones"),
    ("Notification Settings", "notification_settings"),
    ("Packages", "group_packages"),
    ("Projects", "group_projects"),
    ("Related Epics", "related_epics"),
    ("Releases", "group_releases"),
    ("Resource Label Events", "resource_label_events"),
    ("Runners", "group_runners"),
    ("SAML Group Links", "saml_group_links"),
    ("SCIM", "scim"),
    ("Search", "group_search"),
    ("SSH Certificates", "group_ssh_certificates"),
    ("Variables", "group_variables"),
    ("Wikis", "group_wikis"),
];

/// Standalone resources: display name and URL slug.
pub const STANDALONE_RESOURCES: [(&'static str, &'static str); 54] = [
    ("Appearance", "appearance"),
    ("Applications", "applications"),
    ("Audit Events", "audit_events"),
    ("Avatar", "avatar"),
    ("Broadcast Messages", "broadcast_messages"),
    ("Code Snippets", "snippets"),
    ("Code Suggestions", "code_suggestions"),
    ("Custom Attributes", "custom_attributes"),
    ("Deploy Keys", "deploy_keys"),
    ("Deploy Tokens", "deploy_tokens"),
    ("Dependency List Exports", "dependency_list_exports"),
    ("Dockerfile Templates", "dockerfile_templates"),
    ("Events", "events"),
    ("Features", "features"),
    ("Geo Nodes", "geo_nodes"),
    ("Gitignore Templates", "gitignore_templates"),
    ("Group Activity Analytics", "group_activity_analytics"),
    ("Group Repository Storage Moves", "group_repository_storage_moves"),
    ("Import Bitbucket Server", "import_bitbucket_server"),
    ("Import GitHub", "import_github"),
    ("Instance Clusters", "instance_clusters"),
    ("Instance Variables", "instance_variables"),
    ("Issues", "issues"),
    ("Issues Statistics", "issues_statistics"),
    ("Jobs", "jobs"),
    ("Keys", "keys"),
    ("License", "license"),
    ("License Templates", "license_templates"),
    ("Markdown", "markdown"),
    ("Merge Requests", "merge_requests"),
    ("Namespaces", "namespaces"),
    ("Notification Settings", "notification_settings"),
    ("Pages Domains", "pages_domains"),
    ("Personal Access Tokens", "personal_access_tokens"),
    ("Plan Limits", "plan_limits"),
    ("Project Repository Storage Moves", "project_repository_storage_moves"),
    ("Projects", "projects"),
    ("Protected Branches", "protected_branches"),
    ("Runners", "runners"),
    ("Search", "search"),
    ("Service Data", "service_data"),
    ("Settings", "settings"),
    ("Sidekiq Metrics", "sidekiq_metrics"),
    ("Sidekiq Queues", "sidekiq_queues"),
    ("Snippet Repository Storage Moves", "snippet_repository_storage_moves"),
    ("Statistics", "statistics"),
    ("Suggestions", "suggestions"),
    ("System Hooks", "hooks"),
    ("Todos", "todos"),
    ("Token Information", "token_information"),
    ("Topics", "topics"),
    ("Users", "users"),
    ("Version", "version"),
    ("Web commits", "web_commits"),
];

/// Template resources: display name and URL slug.
pub const TEMPLATE_RESOURCES: [(&'static str, &'static str); 4] = [
    ("Dockerfiles", "dockerfile_templates"),
    (".gitignore", "gitignore_templates"),
    ("GitLab CI/CD", "gitlab_ci_yml_templates"),
    ("Licenses", "license_templates"),
];

/// Category of an API resource.
#[derive(Debug, Clone, Copy, PartialEq, Eq, Hash, Structural)]
pub enum ResourceCategory {
    Project,
    Group,
    Standalone,
    Templates,
}

/// Directory name of a category.
pub open spec fn category_str(c: ResourceCategory) -> Seq<char> {
    match c {
        ResourceCategory::Project => "project"@,
        ResourceCategory::Group => "group"@,
        ResourceCategory::Standalone => "standalone"@,
        ResourceCategory::Templates => "templates"@,
    }
}

/// Heading of a category.
pub open spec fn category_display(c: ResourceCategory) -> Seq<char> {
    match c {
        ResourceCategory::Project => "Project Resources"@,
        ResourceCategory::Group => "Group Resources"@,
        ResourceCategory::Standalone => "Standalone Resources"@,
        ResourceCategory::Templates => "Template Resources"@,
    }
}

impl ResourceCategory {
    /// Directory name of the category.
    pub fn as_str(&self) -> (s: &'static str)
        ensures
            s@ == category_str(*self),
    {
        match self {
            ResourceCategory::Project => "project",
            ResourceCategory::Group => "group",
            ResourceCategory::Standalone => "standalone",
            ResourceCategory::Templates => "templates",
        }
    }

    /// Heading of the category.
    pub fn display_name(&self) -> (s: &'static str)
        ensures
            s@ == category_display(*self),
    {
        match self {
            ResourceCategory::Project => "Project Resources",
            ResourceCategory::Group => "Group Resources",
            ResourceCategory::Standalone => "Standalone Resources",
            ResourceCategory::Templates => "Template Resources",
        }
    }
}

/// `s` with each space replaced by an underscore.
pub open spec fn underscored(s: Seq<char>) -> Seq<char> {
    s.map_values(|c: char| if c == ' ' { '_' } else { c })
}

/// The file name of a resource's markdown: its lower-case name, spaces as
/// underscores, with `.md` appended.
pub open spec fn output_file_of(name: Seq<char>) -> Seq<char> {
    underscored(lowercase_of(name)) + ".md"@
}

/// Where the markdown of a resource is written, relative to the output
/// directory: `<category>/<file name>`, joined as a path is joined, so that
/// a file name that starts with `/` stands alone.
pub open spec fn output_path_of(name: Seq<char>, category: ResourceCategory) -> Seq<char> {
    let f = output_file_of(name);
    if f.len() > 0 && f[0] == '/' {
        f
    } else {
        category_str(category) + "/"@ + f
    }
}

/// Page of a resource, relative to the documentation site.
pub open spec fn url_of(slug: Seq<char>) -> Seq<char> {
    "ee/api/"@ + slug + ".html"@
}

/// An API documentation resource.
#[derive(Debug)]
pub struct ApiResource {
    pub name: String,
    pub url_slug: String,
    pub category: ResourceCategory,
    /// Relative path of the markdown file, `/`-separated.
    pub output_path: String,
}

/// `r` is the resource with this name, slug and category.
pub open spec fn built_from(r: ApiResource, name: Seq<char>, slug: Seq<char>, category: ResourceCategory) -> bool {
    &&& r.name@ == name
    &&& r.url_slug@ == slug
    &&& r.category == category
    &&& r.output_path@ == output_path_of(name, category)
}

impl ApiResource {
    /// A resource with its output path derived from name and category.
    pub fn new(name: String, url_slug: String, category: ResourceCategory) -> (r: ApiResource)
        ensures
            built_from(r, name@, url_slug@, category),
    {
        let output_path = Self::build_output_path(name.as_str(), category);
        ApiResource { name, url_slug, category, output_path }
    }

    fn build_output_path(name: &str, category: ResourceCategory) -> (p: String)
        ensures
            p@ == output_path_of(name@, category),
    {
        let lower = to_lowercase(name);
        let lv = chars_of(lower.as_str());
        let mut file: Vec<char> = Vec::new();
        let mut i: usize = 0;
        while i < lv.len()
            invariant
                i <= lv@.len(),
                file@ == underscored(lv@.take(i as int)),
            decreases lv.len() - i,
        {
            let c = lv[i];
            file.push(if c == ' ' { '_' } else { c });
            assert(lv@.take(i + 1) == lv@.take(i as int).push(c));
            assert(underscored(lv@.take(i + 1)) =~= underscored(lv@.take(i as int)).push(
                if c == ' ' { '_' } else { c },
            ));
            i = i + 1;
        }
        assert(lv@.take(lv@.len() as int) == lv@);
        let mut f = crate::text::string_of(&file);
        f.append(".md");
        let starts_at_root = file.len() > 0 && file[0] == '/';
        assert(f@ == output_file_of(name@));
        assert(starts_at_root == (f@.len() > 0 && f@[0] == '/')) by {
            if file@.len() == 0 {
                reveal_strlit(".md");
                assert(f@[0] == '.');
            } else {
                assert(f@[0] == file@[0]);
            }
        }
        if starts_at_root {
            f
        } else {
            let mut p = String::from_str(category.as_str());
            p.append("/");
            p.append(f.as_str());
            p
        }
    }

    /// The documentation page of the resource, e.g. `ee/api/issues.html`.
    pub fn url(&self) -> (u: String)
        ensures
            u@ == url_of(self.url_slug@),
    {
        let mut u = String::from_str("ee/api/");
        u.append(self.url_slug.as_str());
        u.append(".html");
        u
    }
}

/// Appends the resources of `table`, all in `category`.
fn push_table(out: &mut Vec<ApiResource>, table: &[(&'static str, &'static str)], category: ResourceCategory)
    ensures
        final(out)@.len() == old(out)@.len() + table@.len(),
        forall|k: int| 0 <= k < old(out)@.len() ==> final(out)@[k] == old(out)@[k],
        forall|j: int| 0 <= j < table@.len() ==> built_from(
            #[trigger] final(out)@[old(out)@.len() + j],
            table@[j].0@,
            table@[j].1@,
            category,
        ),
{
    let ghost start = out@.len();
    let mut i: usize = 0;
    while i < table.len()
        invariant
            i <= table@.len(),
            out@.len() == old(out)@.len() + i,
            start == old(out)@.len(),
            forall|k: int| 0 <= k < old(out)@.len() ==> out@[k] == old(out)@[k],
            forall|j: int| 0 <= j < i ==> built_from(#[trigger] out@[start + j], table@[j].0@, table@[j].1@, category),
        decreases table.len() - i,
    {
        let (name, slug) = table[i];
        out.push(ApiResource::new(String::from_str(name), String::from_str(slug), category));
        i = i + 1;
    }
}

/// Number of resources in all tables.
pub open spec fn total_resources() -> nat {
    (PROJECT_RESOURCES@.len() + GROUP_RESOURCES@.len() + STANDALONE_RESOURCES@.len()
        + TEMPLATE_RESOURCES@.len()) as nat
}

/// The list of all resources: the project, group, standalone and template
/// tables, in that order.
pub open spec fn all_resources_spec(r: Seq<ApiResource>) -> bool {
    let a = PROJECT_RESOURCES@.len() as int;
    let b = a + GROUP_RESOURCES@.len();
    let c = b + STANDALONE_RESOURCES@.len();
    &&& r.len() == total_resources()
    &&& forall|j: int| 0 <= j < a ==> built_from(#[trigger] r[j], PROJECT_RESOURCES@[j].0@, PROJECT_RESOURCES@[j].1@, ResourceCategory::Project)
    &&& forall|j: int| a <= j < b ==> built_from(#[trigger] r[j], GROUP_RESOURCES@[j - a].0@, GROUP_RESOURCES@[j - a].1@, ResourceCategory::Group)
    &&& forall|j: int| b <= j < c ==> built_from(#[trigger] r[j], STANDALONE_RESOURCES@[j - b].0@, STANDALONE_RESOURCES@[j - b].1@, ResourceCategory::Standalone)
    &&& forall|j: int| c <= j < r.len() ==> built_from(#[trigger] r[j], TEMPLATE_RESOURCES@[j - c].0@, TEMPLATE_RESOURCES@[j - c].1@, ResourceCategory::Templates)
}

/// All GitLab API resources to scrape.
pub fn get_all_resources() -> (r: Vec<ApiResource>)
    ensures
        all_resources_spec(r@),
{
    let mut r: Vec<ApiResource> = Vec::new();
    push_table(&mut r, &PROJECT_RESOURCES, ResourceCategory::Project);
    let ghost r1 = r@;
    push_table(&mut r, &GROUP_RESOURCES, ResourceCategory::Group);
    let ghost r2 = r@;
    push_table(&mut r, &STANDALONE_RESOURCES, ResourceCategory::Standalone);
    let ghost r3 = r@;
    push_table(&mut r, &TEMPLATE_RESOURCES, ResourceCategory::Templates);
    proof {
        let a = PROJECT_RESOURCES@.len() as int;
        let b = a + GROUP_RESOURCES@.len();
        let c = b + STANDALONE_RESOURCES@.len();
        assert forall|j: int| 0 <= j < a implies built_from(#[trigger] r@[j], PROJECT_RESOURCES@[j].0@, PROJECT_RESOURCES@[j].1@, ResourceCategory::Project) by {
            assert(r1[0 + j] == r1[j]);
            assert(r@[j] == r1[j]);
        }
        assert forall|j: int| a <= j < b implies built_from(#[trigger] r@[j], GROUP_RESOURCES@[j - a].0@, GROUP_RESOURCES@[j - a].1@, ResourceCategory::Group) by {
            assert(r2[a + (j - a)] == r2[j]);
            assert(r@[j] == r2[j]);
        }
        assert forall|j: int| b <= j < c implies built_from(#[trigger] r@[j], STANDALONE_RESOURCES@[j - b].0@, STANDALONE_RESOURCES@[j - b].1@, ResourceCategory::Standalone) by {
            assert(r3[b + (j - b)] == r3[j]);
            assert(r@[j] == r3[j]);
        }
        assert forall|j: int| c <= j < r@.len() implies built_from(#[trigger] r@[j], TEMPLATE_RESOURCES@[j - c].0@, TEMPLATE_RESOURCES@[j - c].1@, ResourceCategory::Templates) by {
            assert(r@[c + (j - c)] == r@[j]);
        }
    }
    r
}

/// Resources of category `c`.
pub open spec fn in_category(c: ResourceCategory) -> spec_fn(ApiResource) -> bool {
    |r: ApiResource| r.category == c
}

/// The four categories, in the order of the tables.
pub open spec fn category_at(k: int) -> ResourceCategory {
    if k == 0 {
        ResourceCategory::Project
    } else if k == 1 {
        ResourceCategory::Group
    } else if k == 2 {
        ResourceCategory::Standalone
    } else {
        ResourceCategory::Templates
    }
}

fn push_to_group(
    groups: &mut Vec<(ResourceCategory, Vec<ApiResource>)>,
    k: usize,
    item: ApiResource,
)
    requires
        k < old(groups)@.len(),
    ensures
        final(groups)@.len() == old(groups)@.len(),
        forall|j: int| 0 <= j < old(groups)@.len() && j != k ==> final(groups)@[j] == old(groups)@[j],
        final(groups)@[k as int].0 == old(groups)@[k as int].0,
        final(groups)@[k as int].1@ == old(groups)@[k as int].1@.push(item),
{
    let mut pair = groups.remove(k);
    pair.1.push(item);
    groups.insert(k, pair);
}

/// Resources grouped by category: one entry per category, in table order,
/// each with the resources of that category in list order.
pub fn get_resources_by_category() -> (r: Vec<(ResourceCategory, Vec<ApiResource>)>)
    ensures
        exists|all: Seq<ApiResource>| #![trigger all_resources_spec(all)]
            all_resources_spec(all) && r@.len() == 4 && forall|k: int| 0 <= k < 4 ==> (#[trigger] r@[k]).0
                == category_at(k) && r@[k].1@ == all.filter(in_category(category_at(k))),
{
    let mut all = get_all_resources();
    let ghost orig = all@;
    let mut groups: Vec<(ResourceCategory, Vec<ApiResource>)> = Vec::new();
    groups.push((ResourceCategory::Project, Vec::new()));
    groups.push((ResourceCategory::Group, Vec::new()));
    groups.push((ResourceCategory::Standalone, Vec::new()));
    groups.push((ResourceCategory::Templates, Vec::new()));
    let ghost mut taken: int = 0;
    proof {
        assert forall|k: int| 0 <= k < 4 implies (#[trigger] groups@[k]).0 == category_at(k)
            && groups@[k].1@ == orig.take(0).filter(in_category(category_at(k))) by {
            assert(orig.take(0) =~= Seq::<ApiResource>::empty());
            reveal_with_fuel(Seq::<_>::filter, 1);
        }
        assert(orig.skip(0) == orig);
    }
    while all.len() > 0
        invariant
            0 <= taken <= orig.len(),
            all@ == orig.skip(taken),
            groups@.len() == 4,
            forall|k: int| 0 <= k < 4 ==> (#[trigger] groups@[k]).0 == category_at(k)
                && groups@[k].1@ == orig.take(taken).filter(in_category(category_at(k))),
        decreases all.len(),
    {
        let item = all.remove(0);
        let ghost it = item;
        assert(it == orig[taken]);
        let k: usize = match item.category {
            ResourceCategory::Project => 0,
            ResourceCategory::Group => 1,
            ResourceCategory::Standalone => 2,
            ResourceCategory::Templates => 3,
        };
        let ghost before = groups@;
        push_to_group(&mut groups, k, item);
        proof {
            let t1 = orig.take(taken + 1);
            assert(t1.drop_last() == orig.take(taken));
            assert(t1.last() == it);
            assert forall|m: int| 0 <= m < 4 implies (#[trigger] groups@[m]).0 == category_at(m)
                && groups@[m].1@ == t1.filter(in_category(category_at(m))) by {
                reveal_with_fuel(Seq::<_>::filter, 1);
                assert(category_at(k as int) == it.category);
                if m != k {
                    assert(category_at(m) != it.category);
                }
            }
            assert(orig.skip(taken).drop_first() == orig.skip(taken + 1));
            taken = taken + 1;
        }
    }
    proof {
        assert(orig.take(orig.len() as int) == orig);
    }
    groups
}

/// Errors when picking resources.
pub enum FilterError {
    /// The category name is not one of project, group, standalone, template(s).
    UnknownCategory(String),
}

/// The category a (lower-case) name stands for.
pub open spec fn category_named(lower: Seq<char>) -> Option<ResourceCategory> {
    if lower == "project"@ {
        Some(ResourceCategory::Project)
    } else if lower == "group"@ {
        Some(ResourceCategory::Group)
    } else if lower == "standalone"@ {
        Some(ResourceCategory::Standalone)
    } else if lower == "templates"@ || lower == "template"@ {
        Some(ResourceCategory::Templates)
    } else {
        None
    }
}

/// A resource matches a search term when the term, lower-cased, occurs in its
/// lower-cased name or slug.
pub open spec fn matches_term(r: ApiResource, term: Seq<char>) -> bool {
    contains_seq(lowercase_of(r.name@), lowercase_of(term)) || contains_seq(
        lowercase_of(r.url_slug@),
        lowercase_of(term),
    )
}

/// A search term selects exactly the resources whose lower-cased name or
/// lower-cased URL slug contains the lower-cased term, keeping the order of
/// the list searched.
pub proof fn law_search_selects_by_name_or_slug(all: Seq<ApiResource>, term: Seq<char>, x: ApiResource)
    ensures
        all.filter(|y: ApiResource| matches_term(y, term)).contains(x) <==> (all.contains(x) && (
            contains_seq(lowercase_of(x.name@), lowercase_of(term))
            || contains_seq(lowercase_of(x.url_slug@), lowercase_of(term)))),
{
    let pred = |y: ApiResource| matches_term(y, term);
    let f = all.filter(pred);
    assert(f == all.filter(|y: ApiResource| matches_term(y, term)));
    if f.contains(x) {
        all.lemma_filter_contains_rev(pred, x);
        let i = choose|i: int| 0 <= i < f.len() && f[i] == x;
        all.lemma_filter_pred(pred, i);
    }
    if all.contains(x) && (contains_seq(lowercase_of(x.name@), lowercase_of(term)) || contains_seq(
        lowercase_of(x.url_slug@),
        lowercase_of(term),
    )) {
        let i = choose|i: int| 0 <= i < all.len() && all[i] == x;
        all.lemma_filter_contains(pred, i);
    }
}

/// Searching for a resource's own URL slug always selects it, whatever its
/// name.
pub proof fn law_own_slug_selects(all: Seq<ApiResource>, i: int)
    requires
        0 <= i < all.len(),
    ensures
        all.filter(|y: ApiResource| matches_term(y, all[i].url_slug@)).contains(all[i]),
{
    let t = lowercase_of(all[i].url_slug@);
    assert(crate::text::occurs_at(t, t, 0)) by {
        assert(t.subrange(0, t.len() as int) =~= t);
    }
    assert(all.contains(all[i]));
    law_search_selects_by_name_or_slug(all, all[i].url_slug@, all[i]);
}

fn parse_category(name: &str) -> (r: Option<ResourceCategory>)
    ensures
        r == category_named(lowercase_of(name@)),
{
    let lower = to_lowercase(name);
    let l = lower.as_str();
    if str_eq(l, "project") {
        Some(ResourceCategory::Project)
    } else if str_eq(l, "group") {
        Some(ResourceCategory::Group)
    } else if str_eq(l, "standalone") {
        Some(ResourceCategory::Standalone)
    } else if str_eq(l, "templates") || str_eq(l, "template") {
        Some(ResourceCategory::Templates)
    } else {
        None
    }
}

fn keep_matching(all: Vec<ApiResource>, term: &str) -> (r: Vec<ApiResource>)
    ensures
        r@ == all@.filter(|x: ApiResource| matches_term(x, term@)),
        forall|x: ApiResource| #[trigger] r@.contains(x) <==> (all@.contains(x) && (
            contains_seq(lowercase_of(x.name@), lowercase_of(term@))
            || contains_seq(lowercase_of(x.url_slug@), lowercase_of(term@)))),
{
    let mut all = all;
    let ghost orig = all@;
    let ghost pred = |x: ApiResource| matches_term(x, term@);
    let tl = to_lowercase(term);
    let tv = chars_of(tl.as_str());
    let mut out: Vec<ApiResource> = Vec::new();
    let ghost mut taken: int = 0;
    proof {
        assert(orig.take(0) =~= Seq::<ApiResource>::empty());
        reveal_with_fuel(Seq::<_>::filter, 1);
        assert(orig.skip(0) == orig);
    }
    while all.len() > 0
        invariant
            0 <= taken <= orig.len(),
            all@ == orig.skip(taken),
            tv@ == lowercase_of(term@),
            pred == (|x: ApiResource| matches_term(x, term@)),
            out@ == orig.take(taken).filter(pred),
        decreases all.len(),
    {
        let item = all.remove(0);
        let ghost it = item;
        assert(it == orig[taken]);
        let nl = to_lowercase(item.name.as_str());
        let sl = to_lowercase(item.url_slug.as_str());
        let keep = contains_chars(&chars_of(nl.as_str()), &tv) || contains_chars(
            &chars_of(sl.as_str()),
            &tv,
        );
        assert(keep == pred(it));
        if keep {
            out.push(item);
        }
        proof {
            let t1 = orig.take(taken + 1);
            assert(t1.drop_last() == orig.take(taken));
            assert(t1.last() == it);
            reveal_with_fuel(Seq::<_>::filter, 1);
            assert(orig.skip(taken).drop_first() == orig.skip(taken + 1));
            taken = taken + 1;
        }
    }
    proof {
        assert(orig.take(orig.len() as int) == orig);
        assert forall|x: ApiResource| #[trigger] out@.contains(x) <==> (orig.contains(x) && (
            contains_seq(lowercase_of(x.name@), lowercase_of(term@))
            || contains_seq(lowercase_of(x.url_slug@), lowercase_of(term@)))) by {
            law_search_selects_by_name_or_slug(orig, term@, x);
        }
    }
    out
}

fn keep_category(all: Vec<ApiResource>, c: ResourceCategory) -> (r: Vec<ApiResource>)
    ensures
        r@ == all@.filter(in_category(c)),
{
    let mut all = all;
    let ghost orig = all@;
    let mut out: Vec<ApiResource> = Vec::new();
    let ghost mut taken: int = 0;
    proof {
        assert(orig.take(0) =~= Seq::<ApiResource>::empty());
        reveal_with_fuel(Seq::<_>::filter, 1);
        assert(orig.skip(0) == orig);
    }
    while all.len() > 0
        invariant
            0 <= taken <= orig.len(),
            all@ == orig.skip(taken),
            out@ == orig.take(taken).filter(in_category(c)),
        decreases all.len(),
    {
        let item = all.remove(0);
        let ghost it = item;
        assert(it == orig[taken]);
        if item.category == c {
            out.push(item);
        }
        proof {
            let t1 = orig.take(taken + 1);
            assert(t1.drop_last() == orig.take(taken));
            assert(t1.last() == it);
            reveal_with_fuel(Seq::<_>::filter, 1);
            assert(orig.skip(taken).drop_first() == orig.skip(taken + 1));
            taken = taken + 1;
        }
    }
    proof {
        assert(orig.take(orig.len() as int) == orig);
    }
    out
}

/// The resources to scrape: those matching a search term when one is given,
/// else those of a named category when one is given (an unknown category name
/// is an error), else all of them.
pub fn filter_resources(resource_filter: Option<String>, category_filter: Option<String>) -> (r: Result<Vec<ApiResource>, FilterError>)
    ensures
        exists|all: Seq<ApiResource>| #![trigger all_resources_spec(all)]
            all_resources_spec(all) && match resource_filter {
                Some(term) => r matches Ok(v) && v@ == all.filter(|x: ApiResource| matches_term(x, term@))
                    && forall|x: ApiResource| #[trigger] v@.contains(x) <==> (all.contains(x) && (
                        contains_seq(lowercase_of(x.name@), lowercase_of(term@))
                        || contains_seq(lowercase_of(x.url_slug@), lowercase_of(term@)))),
                None => match category_filter {
                    Some(cat) => match category_named(lowercase_of(cat@)) {
                        Some(c) => r matches Ok(v) && v@ == all.filter(in_category(c)),
                        None => r matches Err(FilterError::UnknownCategory(name)) && name@ == cat@,
                    },
                    None => r matches Ok(v) && v@ == all,
                },
            },
{
    let all = get_all_resources();
    let ghost a = all@;
    match resource_filter {
        Some(term) => {
            let v = keep_matching(all, term.as_str());
            assert(all_resources_spec(a));
            assert forall|x: ApiResource| #[trigger] v@.contains(x) <==> (a.contains(x) && (
                contains_seq(lowercase_of(x.name@), lowercase_of(term@))
                || contains_seq(lowercase_of(x.url_slug@), lowercase_of(term@)))) by {
                law_search_selects_by_name_or_slug(a, term@, x);
            }
            Ok(v)
        },
        None => match category_filter {
            Some(cat) => match parse_category(cat.as_str()) {
                Some(c) => {
                    let v = keep_category(all, c);
                    assert(all_resources_spec(a));
                    Ok(v)
                },
                None => {
                    assert(all_resources_spec(a));
                    Err(FilterError::UnknownCategory(cat))
                },
            },
            None => {
                assert(all_resources_spec(a));
                Ok(all)
            },
        },
    }
}

} // verus!
