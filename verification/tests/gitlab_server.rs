use mcp_suite::config::{
    apply_config_update, config_dir_from, config_file_from, config_info_report, join, token_status_line, ClientConfig, Config,
};
use mcp_suite::server_error::ServerError;
use mcp_suite::gitlab::{api_path_segments, check_bytes_status, check_response_status, split_char, GitLabClient, GitLabError};
use mcp_suite::gitlab_paths::{
    branches_path, check_visibility, commits_path, created_project_report, file_raw_path, issue_path, issues_path,
    join_with_newlines, merge_request_path, merge_requests_path, pipelines_path, project_path, project_query,
    tool_error_text, tool_project_query, tree_path, CreatedProject, create_project_precheck, membership_arg, object_args, required_arg, page_arg, per_page_arg, state_arg,
    tree_path_arg,
};

#[test]
fn test_config_default() {
    let config = Config::default();
    assert_eq!(config.gitlab_url, "https://gitlab.com");
    assert_eq!(config.log_level, "info");
}

#[test]
fn test_config_validate_success() {
    let mut config = Config::default();
    config.gitlab_token = "test_token".to_string();
    assert!(config.validate().is_ok());
}

#[test]
fn test_config_validate_no_token() {
    let config = Config::default();
    assert!(config.validate().is_err());
}

#[test]
fn test_config_validate_invalid_url() {
    let mut config = Config::default();
    config.gitlab_token = "test_token".to_string();
    config.gitlab_url = "not-a-url".to_string();
    assert!(config.validate().is_err());
}

#[test]
fn test_build_api_url() {
    let client = GitLabClient::new("https://gitlab.com", "test_token").ok().unwrap();
    let url = client.api_url("projects/123").unwrap();
    assert_eq!(url.as_str(), "https://gitlab.com/api/v4/projects/123");
}

#[test]
fn test_build_api_url_with_leading_slash() {
    let client = GitLabClient::new("https://gitlab.com", "test_token").ok().unwrap();
    let url = client.api_url("/projects/123").unwrap();
    assert_eq!(url.as_str(), "https://gitlab.com/api/v4/projects/123");
}

#[test]
fn validate_messages() {
    let config = Config::default();
    assert_eq!(
        config.validate().err().unwrap(),
        "GITLAB_TOKEN is required. Set it via environment variable or config file."
    );
    let mut bad = Config::default();
    bad.gitlab_token = "t".to_string();
    bad.gitlab_url = "not-a-url".to_string();
    assert!(bad.validate().err().unwrap().starts_with("Invalid GITLAB_URL: "));
}

#[test]
fn environment_overrides_file() {
    let file = Config { gitlab_url: "https://a".to_string(), gitlab_token: "x".to_string(), log_level: "warn".to_string() };
    let c = Config::from_sources(Some(file), None, Some("y".to_string()), None);
    assert_eq!(c.gitlab_url, "https://a");
    assert_eq!(c.gitlab_token, "y");
    assert_eq!(c.log_level, "warn");
    let d = Config::from_sources(None, Some("https://b".to_string()), None, Some("debug".to_string()));
    assert_eq!(d.gitlab_url, "https://b");
    assert_eq!(d.gitlab_token, "");
    assert_eq!(d.log_level, "debug");
}

#[test]
fn client_config_defaults() {
    let c = ClientConfig::default();
    assert_eq!(c.gitlab_url, "https://gitlab.com");
    assert_eq!(c.output_format, "table");
    assert!(c.color);
}

#[test]
fn client_setup_errors() {
    match GitLabClient::new("not a url", "t") {
        Err(GitLabError::InvalidParameter(m)) => assert!(m.starts_with("Invalid GitLab URL: ")),
        _ => panic!("expected an invalid parameter"),
    }
    match GitLabClient::new("https://gitlab.com", "") {
        Err(GitLabError::AuthError(m)) => assert_eq!(m, "GITLAB_TOKEN is required"),
        _ => panic!("expected an authentication error"),
    }
    match GitLabClient::from_sources(None, None) {
        Err(GitLabError::AuthError(m)) => assert_eq!(m, "GITLAB_TOKEN environment variable not set"),
        _ => panic!("expected an authentication error"),
    }
    let c = GitLabClient::from_sources(None, Some("tok".to_string())).ok().unwrap();
    assert_eq!(c.base_url(), "https://gitlab.com/");
    assert_eq!(c.auth_value(), "Bearer tok");
}

#[test]
fn api_segments_split_the_path() {
    assert_eq!(api_path_segments("/projects/1/issues"), vec!["api", "v4", "projects", "1", "issues"]);
    assert_eq!(api_path_segments(""), vec!["api", "v4", ""]);
    assert_eq!(split_char("a//b", '/'), vec!["a", "", "b"]);
}

#[test]
fn response_status_rules() {
    assert!(check_response_status(200, None).is_ok());
    assert!(matches!(check_response_status(401, None), Err(GitLabError::AuthError(ref m)) if m == "Invalid or expired token"));
    assert!(matches!(check_response_status(404, None), Err(GitLabError::NotFound(ref m)) if m == "Resource not found"));
    assert!(matches!(check_response_status(429, None), Err(GitLabError::RateLimitExceeded)));
    match check_response_status(500, Some("oops".to_string())) {
        Err(GitLabError::ApiResponse { status, message }) => {
            assert_eq!(status, 500);
            assert_eq!(message, "oops");
        }
        _ => panic!("expected an API error"),
    }
    match check_bytes_status(429, None) {
        Err(GitLabError::ApiResponse { status, message }) => {
            assert_eq!(status, 429);
            assert_eq!(message, "Unknown error");
        }
        _ => panic!("expected an API error"),
    }
}

#[test]
fn gitlab_error_texts() {
    assert_eq!(GitLabError::api_response(502, "bad".to_string()).message(), "GitLab API returned error: 502 - bad");
    assert_eq!(GitLabError::not_found("x".to_string()).message(), "Not found: x");
    assert_eq!(GitLabError::invalid_parameter("p".to_string()).message(), "Invalid parameter: p");
    assert_eq!(GitLabError::network("n".to_string()).message(), "Network error: n");
    assert_eq!(GitLabError::RateLimitExceeded.message(), "Rate limit exceeded");
}

#[test]
fn url_encoding_of_project_ids() {
    assert_eq!(project_path("group/project"), "projects/group%2Fproject");
    assert_eq!(project_path("a b~c-d_e.f"), "projects/a%20b~c-d_e.f");
    assert_eq!(project_path("é"), "projects/%C3%A9");
    assert_eq!(project_path("g/p"), "projects/g%2Fp");
}

#[test]
fn tool_paths() {
    assert_eq!(issues_path("g/p", 20, 1, "opened", None), "projects/g%2Fp/issues?per_page=20&page=1&state=opened");
    assert_eq!(
        issues_path("7", 5, 2, "all", Some("bug,ui")),
        "projects/7/issues?per_page=5&page=2&state=all&labels=bug%2Cui"
    );
    assert_eq!(issue_path("7", 12), "projects/7/issues/12");
    assert_eq!(merge_requests_path("7", 20, 1, "merged"), "projects/7/merge_requests?per_page=20&page=1&state=merged");
    assert_eq!(merge_request_path("7", 3), "projects/7/merge_requests/3");
    assert_eq!(branches_path("7", Some("feat x")), "projects/7/repository/branches?search=feat%20x");
    assert_eq!(branches_path("7", None), "projects/7/repository/branches");
    assert_eq!(commits_path("7", 10, Some("main")), "projects/7/repository/commits?per_page=10&ref_name=main");
    assert_eq!(
        pipelines_path("7", 20, Some("failed"), Some("release/1")),
        "projects/7/pipelines?per_page=20&status=failed&ref=release%2F1"
    );
    assert_eq!(tree_path("7", "src/lib", None), "projects/7/repository/tree/src%2Flib?path=src%2Flib");
    assert_eq!(file_raw_path("7", "README.md", None), "projects/7/repository/files/README.md/raw?ref=HEAD");
    assert_eq!(file_raw_path("7", "a/b.rs", Some("dev")), "projects/7/repository/files/a%2Fb.rs/raw?ref=dev");
}

#[test]
fn project_queries() {
    let q = project_query(Some("api"), 20, 1, true);
    let pairs: Vec<(&str, &str)> = q.iter().map(|(k, v)| (k.as_str(), v.as_str())).collect();
    assert_eq!(
        pairs,
        vec![
            ("per_page", "20"),
            ("page", "1"),
            ("membership", "true"),
            ("search", "api"),
            ("order_by", "last_activity_at"),
            ("sort", "desc")
        ]
    );
    let t = tool_project_query(None, 50, Some(3));
    let pairs: Vec<(&str, &str)> = t.iter().map(|(k, v)| (k.as_str(), v.as_str())).collect();
    assert_eq!(pairs, vec![("membership", "true"), ("per_page", "50"), ("page", "3")]);
}

#[test]
fn visibility_check() {
    assert!(check_visibility(Some("internal")).is_ok());
    assert!(check_visibility(None).is_ok());
    assert_eq!(check_visibility(Some("secret")).err().unwrap(), "visibility must be one of: private, public, internal");
    assert_eq!(tool_error_text("boom"), "Error: boom");
}

#[test]
fn created_project_report_lines() {
    let p = CreatedProject {
        id: 9,
        name: "demo".to_string(),
        path_with_namespace: "me/demo".to_string(),
        web_url: "https://gitlab.com/me/demo".to_string(),
        description: None,
        visibility: "private".to_string(),
        created_at: "2024-01-01".to_string(),
        default_branch: Some("main".to_string()),
    };
    assert_eq!(
        created_project_report(&p),
        "## Project Created Successfully\n\n**Name:** demo\n**Path:** me/demo\n**ID:** 9\n**URL:** https://gitlab.com/me/demo\n**Visibility:** private\n**Default Branch:** main\n**Created at:** 2024-01-01"
    );
    assert_eq!(join_with_newlines(&vec!["a".to_string(), "b".to_string()]), "a\nb");
    assert_eq!(join_with_newlines(&vec![]), "");
}

#[test]
fn config_tool_updates() {
    let (c, lines, updated) = apply_config_update(Config::default(), Some("https://example.com"), Some("glpat-1234567890abc"));
    assert!(updated);
    assert_eq!(c.gitlab_url, "https://example.com");
    assert_eq!(c.gitlab_token, "glpat-1234567890abc");
    assert_eq!(
        lines,
        vec![
            "✓ GitLab URL set to: https://example.com".to_string(),
            "✓ Token set to: glpa***...***0abc (19 chars)".to_string()
        ]
    );
    let (same, lines, updated) = apply_config_update(Config::default(), Some(""), None);
    assert!(!updated);
    assert_eq!(same.gitlab_url, "https://gitlab.com");
    assert_eq!(lines, vec!["No changes made. Please provide gitlab_url and/or gitlab_token.".to_string()]);
    assert_eq!(token_status_line(""), "**Token:** Not configured");
    assert_eq!(token_status_line("short"), "**Token:** *** (5 chars)");
}

#[test]
fn api_url_encodes_segments_and_needs_a_base() {
    let client = GitLabClient::new("https://gitlab.example/root/", "tok").ok().unwrap();
    assert_eq!(client.base_url(), "https://gitlab.example/root/");
    assert_eq!(
        client.api_url("projects/a b").unwrap(),
        "https://gitlab.example/root//api/v4/projects/a%20b"
    );
    let mail = GitLabClient::new("mailto:someone@example.org", "tok").ok().unwrap();
    assert!(mail.api_url("projects").is_none());
}

#[test]
fn config_paths_follow_the_config_directory() {
    assert_eq!(config_dir_from(Some("/home/u/.config".to_string())).ok().unwrap(), "/home/u/.config/gitlab-mcp");
    assert_eq!(
        config_file_from(Some("/home/u/.config/".to_string())).ok().unwrap(),
        "/home/u/.config/gitlab-mcp/config.toml"
    );
    assert!(config_dir_from(None).is_err());
    assert!(config_file_from(None).is_err());
}

#[test]
fn tool_argument_defaults() {
    assert_eq!(per_page_arg(None), 20);
    assert_eq!(per_page_arg(Some(50)), 50);
    assert_eq!(page_arg(None), 1);
    assert_eq!(page_arg(Some(3)), 3);
    assert_eq!(state_arg(None), "opened");
    assert_eq!(state_arg(Some("closed")), "closed");
    assert!(membership_arg(None));
    assert!(!membership_arg(Some(false)));
    assert_eq!(tree_path_arg(None), "");
    assert_eq!(tree_path_arg(Some("src")), "src");
}

#[test]
fn client_keeps_its_request_timeout() {
    let c = GitLabClient::new("https://gitlab.com", "tok").ok().unwrap();
    assert_eq!(c.timeout_secs(), 30);
}

#[test]
fn paths_join_as_unix_paths() {
    assert_eq!(join("/a", "b"), "/a/b");
    assert_eq!(join("/a/", "b"), "/a/b");
    assert_eq!(join("", "b"), "b");
    assert_eq!(join("/a", "/etc"), "/etc");
}

#[test]
fn config_info_text() {
    let text = config_info_report(Some("/home/u/.config/gitlab-mcp/config.toml"));
    let lines: Vec<&str> = text.split('\n').collect();
    assert!(text.starts_with("## GitLab MCP Configuration\n\n### Configuration Methods\n\n**Via CLI:**"));
    assert!(lines.contains(&"Location: `/home/u/.config/gitlab-mcp/config.toml`"));
    assert!(lines.contains(&"export GITLAB_URL=\"https://gitlab.com\""));
    assert!(text.ends_with("1. Environment variables (highest priority)\n2. Config file\n3. Default values (lowest priority)"));
    assert!(config_info_report(None).contains("Location: `Unknown`"));
}

#[test]
fn create_project_argument_checks() {
    match create_project_precheck(false, Some("p"), None) {
        Err(ServerError::Handler(m)) => assert_eq!(m, "Expected object arguments"),
        _ => panic!("expected a handler error"),
    }
    match create_project_precheck(true, None, None) {
        Err(ServerError::Handler(m)) => assert_eq!(m, "name is required"),
        _ => panic!("expected a handler error"),
    }
    match create_project_precheck(true, Some("p"), Some("secret")) {
        Ok(Err(m)) => assert_eq!(m, "visibility must be one of: private, public, internal"),
        _ => panic!("expected the visibility error"),
    }
    match create_project_precheck(true, Some("p"), Some("internal")) {
        Ok(Ok(n)) => assert_eq!(n, "p"),
        _ => panic!("expected to proceed"),
    }
    assert!(object_args(true).is_ok());
    match required_arg::<u64>(None, "issue_iid") {
        Err(ServerError::Handler(m)) => assert_eq!(m, "issue_iid is required"),
        _ => panic!("expected a handler error"),
    }
    assert!(matches!(required_arg(Some(7u64), "issue_iid"), Ok(7)));
}
