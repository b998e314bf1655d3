use std::sync::Arc;

use mcp_suite::github_paths::{
    branches_path, commits_path, compare_path, contents_path, i32_text, issues_path, numbered_listing_path,
    pulls_path, readme_path,
};
use mcp_suite::github::{GithubClient, GithubResponse, GithubState, HttpMethod};
use mcp_suite::github_tools::{
    add_token_to, file_result_text, get_arg, remove_token_from, result_error_flag, result_text, set_default_in,
    token_listing, use_token_reply,
};
use mcp_suite::server_error::{NotificationHandlerFn, RequestHandlerFn, ServerError};
use mcp_suite::token_config::TokenConfig;

fn config_with(pairs: &[(&str, &str)]) -> TokenConfig {
    let mut c = TokenConfig::new();
    for (n, t) in pairs {
        c.add_token(n.to_string(), t.to_string());
    }
    c
}

#[test]
fn token_config_add_get_remove() {
    let mut c = config_with(&[("work", "ghp_work"), ("home", "ghp_home")]);
    assert_eq!(c.get_token("work"), Some("ghp_work"));
    c.add_token("work".to_string(), "ghp_new".to_string());
    assert_eq!(c.get_token("work"), Some("ghp_new"));
    assert_eq!(c.list_tokens().len(), 2);
    assert!(c.set_default_token("home"));
    assert_eq!(c.get_default_token(), Some("ghp_home"));
    assert!(!c.set_default_token("nope"));
    assert!(c.remove_token("home"));
    assert_eq!(c.default_token, None);
    assert_eq!(c.get_token("home"), None);
    assert!(!c.remove_token("home"));
}

#[test]
fn default_token_without_default_name() {
    let c = config_with(&[("only", "t1")]);
    assert_eq!(c.get_default_token(), Some("t1"));
    assert_eq!(TokenConfig::new().get_default_token(), None);
}

#[test]
fn state_takes_the_configured_default() {
    let mut c = config_with(&[("a", "ta"), ("b", "tb")]);
    c.set_default_token("b");
    let s = GithubState::new(None).with_config(Some(c));
    assert_eq!(s.current_token, Some("tb".to_string()));
    assert_eq!(s.auth_header(), Some("Bearer tb".to_string()));
    assert_eq!(s.current_token_name(), Some("b".to_string()));
    let env = GithubState::new(Some("from_env".to_string())).with_config(Some(config_with(&[("x", "tx")])));
    assert_eq!(env.current_token, Some("from_env".to_string()));
    assert_eq!(env.current_token_name(), None);
    let none = GithubState::new(None).with_config(None);
    assert!(none.tokens.is_none());
    assert_eq!(none.auth_header(), None);
}

#[test]
fn switching_tokens_is_refused() {
    let s = GithubState::new(None).with_config(Some(config_with(&[("a", "ta")])));
    assert_eq!(s.switch_token("a"), Err("需要重新创建客户端以切换 token".to_string()));
    assert_eq!(s.switch_token("z"), Err("Token 'z' 不存在".to_string()));
    assert_eq!(GithubState::new(None).switch_token("a"), Err("未启用 token 配置".to_string()));
}

#[test]
fn requests_carry_the_github_headers() {
    let state = Arc::new(GithubState::new(Some("t0k".to_string())));
    let client = GithubClient::new(state);
    let plan = client.get("/repos/o/r");
    assert_eq!(plan.method, HttpMethod::Get);
    assert_eq!(plan.url, "https://api.github.com/repos/o/r");
    let headers: Vec<(&str, &str)> = plan.headers.iter().map(|(k, v)| (k.as_str(), v.as_str())).collect();
    assert_eq!(
        headers,
        vec![
            ("Authorization", "Bearer t0k"),
            ("User-Agent", "github-mcp"),
            ("Accept", "application/vnd.github.v3+json")
        ]
    );
    let anon = GithubClient::with_base_url(Arc::new(GithubState::new(None)), "http://local".to_string());
    let p = anon.delete("/x");
    assert_eq!(p.method, HttpMethod::Delete);
    assert_eq!(p.url, "http://local/x");
    assert_eq!(p.headers.len(), 2);
}

#[test]
fn responses_are_judged_by_status() {
    let client = GithubClient::new(Arc::new(GithubState::new(None)));
    let ok = GithubResponse { status: 201, body: "{}".to_string() };
    assert!(ok.is_success());
    assert!(client.send_ok(ok).is_ok());
    match client.send_ok(GithubResponse { status: 404, body: "missing".to_string() }) {
        Err(ServerError::Handler(m)) => assert_eq!(m, "GitHub API error (404 Not Found): missing"),
        _ => panic!("expected a handler error"),
    }
}

#[test]
fn server_error_texts() {
    assert_eq!(ServerError::Handler("x".to_string()).message(), "handler error: x");
    assert_eq!(ServerError::CapabilitiesLocked.message(), "capabilities are locked after initialization");
}

#[test]
fn handler_adapters_keep_the_closure() {
    let n = NotificationHandlerFn::new(|x: u32| x + 1);
    assert_eq!((n.handler())(1), 2);
    let r = RequestHandlerFn::new(|x: u32| x * 2);
    assert_eq!((r.handler())(4), 8);
}

#[test]
fn required_arguments() {
    assert_eq!(get_arg(Some("v"), "owner").ok(), Some("v".to_string()));
    match get_arg(None, "owner") {
        Err(ServerError::Handler(m)) => assert_eq!(m, "missing owner"),
        _ => panic!("expected a handler error"),
    }
}

#[test]
fn token_tools() {
    let mut c = TokenConfig::new();
    assert_eq!(add_token_to(&mut c, "w", "abcdefghijklmn", true, false), "Token 'w' added successfully. Set as default.");
    assert_eq!(add_token_to(&mut c, "h", "xyz", false, true), "Token 'h' added successfully. Set as current and default.");
    assert_eq!(add_token_to(&mut c, "q", "qq", false, false), "Token 'q' added successfully.");
    assert_eq!(c.default_token, Some("w".to_string()));
    let rows = token_listing(&c, &Some("h".to_string()));
    assert_eq!(rows.len(), 3);
    let w = rows.iter().find(|r| r.name == "w").unwrap();
    assert!(w.is_default);
    assert!(!w.is_current);
    assert_eq!(w.preview, "abcdefghij...");
    let h = rows.iter().find(|r| r.name == "h").unwrap();
    assert!(h.is_current);
    assert_eq!(h.preview, "xyz...");
    assert_eq!(set_default_in(&mut c, "q"), Ok("Token 'q' set as default".to_string()));
    assert_eq!(set_default_in(&mut c, "z"), Err("Token 'z' not found".to_string()));
    assert_eq!(remove_token_from(&mut c, "q"), Ok("Token 'q' removed successfully".to_string()));
    assert_eq!(c.default_token, None);
    assert_eq!(remove_token_from(&mut c, "q"), Err("Token 'q' not found".to_string()));
    assert!(use_token_reply(&c, "w").unwrap().starts_with("Token 'w' found."));
    assert_eq!(use_token_reply(&c, "q"), Err("Token 'q' not found".to_string()));
}

#[test]
fn tool_result_texts() {
    assert_eq!(file_result_text(true, Some("aGVsbG8="), Some("{pretty}".to_string()), "raw".to_string()), "hello");
    assert_eq!(file_result_text(true, Some("!!"), Some("{pretty}".to_string()), "raw".to_string()), "{pretty}");
    assert_eq!(file_result_text(true, Some("/w=="), None, "raw".to_string()), "raw");
    assert_eq!(file_result_text(false, None, None, "raw".to_string()), "raw");
    assert_eq!(result_text(true, Some("p".to_string()), "b".to_string()), "p");
    assert_eq!(result_text(false, Some("p".to_string()), "b".to_string()), "b");
    assert_eq!(result_error_flag(true), None);
    assert_eq!(result_error_flag(false), Some(true));
}

#[test]
fn github_paths() {
    assert_eq!(
        issues_path("o", "r", 30, Some("open".to_string()), None, Some("2024".to_string())),
        "/repos/o/r/issues?per_page=30&state=open&since=2024"
    );
    assert_eq!(pulls_path("o", "r", -1, None, Some("f".to_string()), None), "/repos/o/r/pulls?per_page=-1&head=f");
    assert_eq!(
        commits_path("o", "r", 5, Some("abc".to_string()), None, None, None, Some("x".to_string())),
        "/repos/o/r/commits?per_page=5&sha=abc&until=x"
    );
    assert_eq!(branches_path("o", "r", 30, Some(true)), "/repos/o/r/branches?per_page=30&protected=true");
    assert_eq!(branches_path("o", "r", 30, Some(false)), "/repos/o/r/branches?per_page=30");
    assert_eq!(contents_path("o", "r", "src/a.rs", None), "/repos/o/r/contents/src/a.rs?ref=main");
    assert_eq!(readme_path("o", "r", Some("dev".to_string())), "/repos/o/r/readme?ref=dev");
    assert_eq!(readme_path("o", "r", None), "/repos/o/r/readme");
    assert_eq!(compare_path("o", "r", "v1", "v2"), "/repos/o/r/compare/v1...v2");
    assert_eq!(
        numbered_listing_path("o", "r", "/issues", "7", "/comments", 30),
        "/repos/o/r/issues/7/comments?per_page=30"
    );
    assert_eq!(i32_text(i32::MIN), "-2147483648");
}

#[test]
fn removing_a_missing_token_changes_nothing() {
    let mut c = TokenConfig::new();
    add_token_to(&mut c, "w", "tok", false, false);
    c.default_token = Some("ghost".to_string());
    assert_eq!(remove_token_from(&mut c, "ghost"), Err("Token 'ghost' not found".to_string()));
    assert_eq!(c.default_token, Some("ghost".to_string()));
    assert!(c.get_token("w").is_some());
    c.default_token = Some("w".to_string());
    assert_eq!(remove_token_from(&mut c, "w"), Ok("Token 'w' removed successfully".to_string()));
    assert_eq!(c.default_token, None);
}
