use mcp_suite::config::{config_status_report, saved_report, Config, ConfigFileState};
use mcp_suite::gitlab_reports::{
    branches_report, commits_report, file_content_report, files_report, first_line_of, issue_report, issues_report,
    join_commas, merge_request_report, merge_requests_report, pipelines_report, BranchSummary, CommitSummary,
    IssueDetail, IssueSummary, MergeRequestDetail, MergeRequestSummary, PipelineSummary, TreeEntry,
};

#[test]
fn issue_listing() {
    let items = vec![IssueSummary {
        iid: 4,
        title: "Bug".to_string(),
        state: "opened".to_string(),
        web_url: "u".to_string(),
        created_at: "d".to_string(),
        author: Some("Ann".to_string()),
        assignees: vec!["Bo".to_string(), "Cy".to_string()],
        labels: vec![],
    }];
    assert_eq!(
        issues_report(&items),
        "## Issues (1 found)\n\n### !4 - Bug\n**State:** opened\n**Author:** Ann\n**Assignees:** Bo, Cy\n**Created:** d\n**URL:** u\n"
    );
    assert_eq!(issues_report(&vec![]), "## Issues (0 found)\n");
}

#[test]
fn merge_request_listing_and_detail() {
    let items = vec![MergeRequestSummary {
        iid: 2,
        title: "Feat".to_string(),
        state: "merged".to_string(),
        web_url: "u".to_string(),
        created_at: "d".to_string(),
        author: None,
        source_branch: "f".to_string(),
        target_branch: "main".to_string(),
        merge_status: None,
    }];
    assert_eq!(
        merge_requests_report(&items),
        "## Merge Requests (1 found)\n\n### !2 - Feat\n**State:** merged\n**Author:** Unknown\n**Branch:** f → main\n**Merge Status:** unknown\n**Created:** d\n**URL:** u\n"
    );
    let detail = MergeRequestDetail {
        iid: 2,
        title: "Feat".to_string(),
        description: Some("Text".to_string()),
        state: "opened".to_string(),
        web_url: "u".to_string(),
        created_at: "c".to_string(),
        updated_at: "m".to_string(),
        author: Some("Ann".to_string()),
        assignees: vec![],
        source_branch: "f".to_string(),
        target_branch: "main".to_string(),
        merge_status: Some("can_be_merged".to_string()),
        has_conflicts: true,
        draft: false,
        work_in_progress: true,
    };
    assert_eq!(
        merge_request_report(&detail),
        "# !2 - Feat\n**State:** opened\n**Author:** Ann\n**Branch:** f → main\n**Merge Status:** can_be_merged\n**Has Conflicts:** Yes\n**Status:** Draft / WIP\n**Created:** c\n**Updated:** m\n**URL:** u\n\n## Description\nText"
    );
}

#[test]
fn issue_detail() {
    let i = IssueDetail {
        iid: 9,
        title: "T".to_string(),
        description: None,
        state: "closed".to_string(),
        web_url: "u".to_string(),
        created_at: "c".to_string(),
        updated_at: "m".to_string(),
        author: None,
        assignees: vec![],
        labels: vec!["a".to_string(), "b".to_string()],
        milestone: Some("v1".to_string()),
    };
    assert_eq!(
        issue_report(&i),
        "# !9 - T\n**State:** closed\n**Author:** Unknown\n**Labels:** a, b\n**Milestone:** v1\n**Created:** c\n**Updated:** m\n**URL:** u"
    );
}

#[test]
fn branch_commit_pipeline_listings() {
    let b = vec![BranchSummary {
        name: "main".to_string(),
        short_id: Some("abc".to_string()),
        commit_title: None,
        commit_author: Some("Ann".to_string()),
        protected: true,
        default: true,
        web_url: "u".to_string(),
    }];
    assert_eq!(
        branches_report(&b),
        "## Branches (1 found)\n\n### main (default)\n**Commit:** abc - \n**Author:** Ann\n**Protected:** Yes\n**URL:** u\n"
    );
    let c = vec![CommitSummary {
        short_id: "abc".to_string(),
        title: "Fix".to_string(),
        message: "Fix it\r\nmore".to_string(),
        author_name: "Ann".to_string(),
        authored_date: "d".to_string(),
        web_url: "u".to_string(),
    }];
    assert_eq!(
        commits_report(&c),
        "## Commits (1 found)\n\n### abc - Fix\n**Author:** Ann\n**Date:** d\n**Message:** Fix it\n**URL:** u\n"
    );
    let p = vec![PipelineSummary {
        id: 100,
        iid: 3,
        status: "success".to_string(),
        ref_name: "main".to_string(),
        sha: "0123456789abcdef".to_string(),
        created_at: "d".to_string(),
        web_url: "u".to_string(),
        user: None,
    }];
    assert_eq!(
        pipelines_report(&p),
        "## Pipelines (1 found)\n\n### Pipeline #3 - success\n**ID:** 100\n**User:** Unknown\n**Branch:** main\n**SHA:** 01234567\n**Created:** d\n**URL:** u\n"
    );
}

#[test]
fn first_lines() {
    assert_eq!(first_line_of(""), None);
    assert_eq!(first_line_of("one"), Some("one".to_string()));
    assert_eq!(first_line_of("\nsecond"), Some(String::new()));
    assert_eq!(first_line_of("a\r\nb"), Some("a".to_string()));
    assert_eq!(join_commas(&vec!["x".to_string()]), "x");
}

#[test]
fn file_reports() {
    let entries = vec![
        TreeEntry { name: "src".to_string(), kind: "tree".to_string(), path: "src".to_string() },
        TreeEntry { name: "a.rs".to_string(), kind: "blob".to_string(), path: "a.rs".to_string() },
    ];
    assert_eq!(files_report("", &entries), "## Files in `/`\n\nFound 2 items\n\n📁 **src** `src`\n📄 **a.rs** `a.rs`");
    assert_eq!(
        file_content_report("a.rs", None, 3, "abc"),
        "## File: `a.rs`\n**Ref:** HEAD\n**Size:** 3 bytes\n\n```\nabc\n```"
    );
}

#[test]
fn configuration_status() {
    let c = Config::default();
    let report = config_status_report(&c, &ConfigFileState::Found { path: "/x/config.toml".to_string(), exists: false });
    assert_eq!(
        report,
        "## GitLab MCP Configuration Status\n\n**Config File:** `/x/config.toml`\n**Status:** Config file not found (using environment variables or defaults)\n\n**GitLab URL:** https://gitlab.com\n**Token:** Not configured\n**Log Level:** info\n\n**Configuration Error:** GITLAB_TOKEN is required. Set it via environment variable or config file.\n\n### Setup Instructions\nTo configure the GitLab MCP server:\n1. Create a Personal Access Token in GitLab\n2. Run: `gitlab-mcp config set-token <your-token>`\n   Or set environment variable: `export GITLAB_TOKEN=glpat-...`"
    );
    let mut ok = Config::default();
    ok.gitlab_token = "glpat-abcdefghijk".to_string();
    let lines = saved_report(&ok, Ok(None));
    assert_eq!(
        lines,
        vec![
            "✓ Configuration saved to: Unknown".to_string(),
            "✓ Configuration is valid!".to_string(),
        ]
    );
    assert_eq!(saved_report(&ok, Err("disk".to_string())), vec!["✗ Failed to save config: disk".to_string()]);
}
