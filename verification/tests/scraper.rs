use mcp_suite::parser::{HtmlParser, ScraperError};
use mcp_suite::resources::{
    filter_resources, get_all_resources, get_resources_by_category, ApiResource, FilterError, ResourceCategory,
};
use mcp_suite::scrape_client::{fetch_outcome, DocScraperClient, FetchStep, RetryState};
use mcp_suite::scrape_report::{dry_run_lines, index_content, page_document, summary_lines, ScrapeSummary};

#[test]
fn test_extract_title_from_html() {
    let html = r#"<html><head><title>Issues API | GitLab</title></head><body><h1>Issues</h1></body></html>"#;
    let title = HtmlParser::extract_title(html);
    assert_eq!(title, Some("Issues".to_string()));
}

#[test]
fn test_extract_title_from_h1() {
    let html = r#"<html><body><h1>Projects API</h1></body></html>"#;
    let title = HtmlParser::extract_title(html);
    assert_eq!(title, Some("Projects API".to_string()));
}

#[test]
fn test_clean_markdown() {
    let markdown = "Hello\n\n\n\nWorld";
    let cleaned = HtmlParser::clean_markdown(markdown);
    assert_eq!(cleaned, "Hello\n\nWorld");
}

#[test]
fn test_get_all_resources() {
    let resources = get_all_resources();
    assert!(!resources.is_empty());
    println!("Total resources: {}", resources.len());
}

#[test]
fn test_resource_url() {
    let resource = ApiResource::new("Issues".to_string(), "issues".to_string(), ResourceCategory::Project);
    assert_eq!(resource.url(), "ee/api/issues.html");
}

#[test]
fn test_output_path() {
    let resource = ApiResource::new("Issues".to_string(), "issues".to_string(), ResourceCategory::Project);
    assert_eq!(resource.output_path, "project/issues.md");
}

#[test]
fn test_client_creation() {
    let client = DocScraperClient::new();
    assert!(client.is_ok());
    let client = client.unwrap();
    assert_eq!(client.base_url(), "https://docs.gitlab.com");
}

#[test]
fn title_falls_back_to_title_element() {
    let html = "<html><head><title>Groups API | GitLab</title></head><body><h1>  </h1></body></html>";
    assert_eq!(HtmlParser::extract_title(html), Some("Groups API".to_string()));
    assert_eq!(HtmlParser::extract_title("<html><body><p>x</p></body></html>"), None);
}

#[test]
fn clean_markdown_keeps_single_blank_lines() {
    assert_eq!(HtmlParser::clean_markdown("a\n\nb\n\n\nc"), "a\n\nb\n\nc");
    assert_eq!(HtmlParser::clean_markdown("  text  "), "text");
}

#[test]
fn cleaned_markdown_never_holds_three_newlines() {
    let cleaned = HtmlParser::clean_markdown("x\n\n\n\n\n\ny\n\n\nz");
    assert!(!cleaned.contains("\n\n\n"));
    assert_eq!(cleaned, "x\n\ny\n\nz");
}

#[test]
fn process_page_needs_main_content() {
    match HtmlParser::process_page("<html><body><p>no main</p></body></html>") {
        Err(ScraperError::ParseError(m)) => assert_eq!(m, "Could not find main content"),
        _ => panic!("expected a parse error"),
    }
}

#[test]
fn resource_paths_use_lower_case_and_underscores() {
    let r = ApiResource::new("Merge Requests".to_string(), "merge_requests".to_string(), ResourceCategory::Project);
    assert_eq!(r.output_path, "project/merge_requests.md");
    assert_eq!(r.url(), "ee/api/merge_requests.html");
    let t = ApiResource::new("GitLab CI/CD".to_string(), "gitlab_ci_yml_templates".to_string(), ResourceCategory::Templates);
    assert_eq!(t.output_path, "templates/gitlab_ci/cd.md");
}

#[test]
fn resources_grouped_by_category_cover_all() {
    let all = get_all_resources();
    let groups = get_resources_by_category();
    assert_eq!(groups.len(), 4);
    let total: usize = groups.iter().map(|g| g.1.len()).sum();
    assert_eq!(total, all.len());
    assert_eq!(groups[0].0, ResourceCategory::Project);
    assert_eq!(groups[3].0, ResourceCategory::Templates);
    assert_eq!(groups[3].1.len(), 4);
}

#[test]
fn filter_by_name_and_category() {
    let by_name = filter_resources(Some("ISSUES".to_string()), None).ok().unwrap();
    assert!(!by_name.is_empty());
    assert!(by_name.iter().all(|r| r.name.to_lowercase().contains("issues") || r.url_slug.contains("issues")));
    let templates = filter_resources(None, Some("template".to_string())).ok().unwrap();
    assert_eq!(templates.len(), 4);
    match filter_resources(None, Some("nope".to_string())) {
        Err(FilterError::UnknownCategory(c)) => assert_eq!(c, "nope"),
        _ => panic!("expected an unknown category"),
    }
    assert_eq!(filter_resources(None, None).ok().unwrap().len(), get_all_resources().len());
}

#[test]
fn category_names() {
    assert_eq!(ResourceCategory::Group.as_str(), "group");
    assert_eq!(ResourceCategory::Standalone.display_name(), "Standalone Resources");
}

#[test]
fn page_url_joins_with_one_slash() {
    let c = DocScraperClient::new().ok().unwrap().with_base_url("https://example.org//".to_string());
    assert_eq!(c.page_url("//ee/api/issues.html"), "https://example.org/ee/api/issues.html");
    assert_eq!(c.max_retries(), 3);
    assert_eq!(c.with_max_retries(5).max_retries(), 5);
}

#[test]
fn fetch_outcomes_by_status() {
    assert_eq!(fetch_outcome(200, "u", Ok("body".to_string())).ok().unwrap(), "body");
    match fetch_outcome(404, "https://x/y", Ok(String::new())) {
        Err(ScraperError::NotFound(u)) => assert_eq!(u, "https://x/y"),
        _ => panic!("expected the not-found error"),
    }
    assert!(matches!(fetch_outcome(429, "u", Ok(String::new())), Err(ScraperError::RateLimitExceeded)));
    match fetch_outcome(500, "u", Err(ScraperError::Unknown("x".to_string()))) {
        Err(ScraperError::Network(m)) => assert_eq!(m, "HTTP 500: Unknown error"),
        _ => panic!("expected a network error"),
    }
    match fetch_outcome(503, "u", Ok("down".to_string())) {
        Err(ScraperError::Network(m)) => assert_eq!(m, "HTTP 503: down"),
        _ => panic!("expected a network error"),
    }
}

#[test]
fn retries_back_off_and_stop() {
    let client = DocScraperClient::new().ok().unwrap();
    let mut state = client.start_fetch();
    let mut delays = Vec::new();
    loop {
        match state.next(Err(ScraperError::Network("boom".to_string()))) {
            FetchStep::Retry { delay_ms } => delays.push(delay_ms),
            FetchStep::Done(r) => {
                assert!(matches!(r, Err(ScraperError::Network(_))));
                break;
            }
        }
    }
    assert_eq!(delays, vec![500, 1000, 2000]);
    assert_eq!(state.current_attempt(), 3);
}

#[test]
fn backoff_is_capped_at_ten_seconds() {
    let mut state = RetryState::new(10);
    let mut delays = Vec::new();
    while let FetchStep::Retry { delay_ms } = state.next(Err(ScraperError::RateLimitExceeded)) {
        delays.push(delay_ms);
    }
    assert_eq!(delays, vec![500, 1000, 2000, 4000, 8000, 10000, 10000, 10000, 10000, 10000]);
}

#[test]
fn not_found_http_error_is_not_retried() {
    let mut state = RetryState::new(3);
    let step = state.next(Err(ScraperError::HttpError { message: "gone".to_string(), status: Some(404) }));
    assert!(matches!(step, FetchStep::Done(Err(ScraperError::HttpError { .. }))));
    assert_eq!(state.current_attempt(), 0);
    let mut other = RetryState::new(3);
    assert!(matches!(other.next(Err(ScraperError::HttpError { message: "x".to_string(), status: Some(500) })), FetchStep::Retry { delay_ms: 500 }));
    assert!(matches!(other.next(Ok("page".to_string())), FetchStep::Done(Ok(_))));
}

#[test]
fn not_found_page_is_not_retried() {
    let mut state = RetryState::new(3);
    let step = state.next(fetch_outcome(404, "https://x/y", Ok(String::new())));
    match step {
        FetchStep::Done(Err(e)) => assert_eq!(e.message(), "Network error: Not found: https://x/y"),
        _ => panic!("a 404 ends the fetch"),
    }
    assert_eq!(state.current_attempt(), 0);
}

#[test]
fn scraper_error_messages() {
    assert_eq!(ScraperError::max_retries_exceeded("u".to_string()).message(), "Max retries exceeded for u");
    assert_eq!(ScraperError::parse_error("p".to_string()).message(), "Parse error: p");
    assert_eq!(ScraperError::RateLimitExceeded.message(), "Rate limit exceeded");
}

#[test]
fn page_document_layout() {
    let d = page_document("Issues API", "ee/api/issues", "body");
    assert_eq!(
        d,
        "# Issues API\n\n> Source: [GitLab Documentation](https://docs.gitlab.com/ee/api/issues.html)\n\nbody\n"
    );
}

#[test]
fn index_lists_categories_in_order() {
    let rs = vec![
        ApiResource::new("Tags".to_string(), "tags".to_string(), ResourceCategory::Project),
        ApiResource::new("Users".to_string(), "users".to_string(), ResourceCategory::Standalone),
    ];
    let index = index_content(&rs);
    assert_eq!(
        index,
        "# GitLab REST API Documentation\n\n> Scraped from [GitLab API Documentation](https://docs.gitlab.com/ee/api/)\n\nTotal resources: 2\n\n## Project Resources\n\n- [Tags](project/tags.md)\n\n## Standalone Resources\n\n- [Users](standalone/users.md)\n\n"
    );
}

#[test]
fn dry_run_listing() {
    let rs = vec![ApiResource::new("Tags".to_string(), "tags".to_string(), ResourceCategory::Project)];
    let lines = dry_run_lines(&rs);
    assert_eq!(
        lines,
        vec![
            "\nProject Resources".to_string(),
            "=================".to_string(),
            "  - Tags -> project/tags.md".to_string(),
            "\nTotal: 1 resources".to_string(),
        ]
    );
}

#[test]
fn summary_counts_and_failures() {
    let mut s = ScrapeSummary::new(3);
    s.record_success();
    s.record_failure("Tags".to_string(), "boom".to_string());
    let lines = summary_lines(&s, "2s");
    let bar = "=".repeat(60);
    assert_eq!(
        lines,
        vec![
            format!("\n{}", bar),
            "Scrape Summary".to_string(),
            bar.clone(),
            "Total resources:  3".to_string(),
            "Successful:      1".to_string(),
            "Failed:          1".to_string(),
            "Duration:        2s".to_string(),
            "\nFailed resources:".to_string(),
            "  - Tags: boom".to_string(),
            bar,
        ]
    );
}

#[test]
fn cleaning_twice_is_cleaning_once() {
    for s in ["a\n\n\n\nb", "  x \n\n\n", "\n\n\n", "plain"] {
        let once = HtmlParser::clean_markdown(s);
        assert_eq!(HtmlParser::clean_markdown(&once), once);
    }
}

#[test]
fn output_path_joins_as_a_path() {
    let r = ApiResource::new("Merge Requests".to_string(), "merge_requests".to_string(), ResourceCategory::Project);
    assert_eq!(r.output_path, "project/merge_requests.md");
    let rooted = ApiResource::new("/Abs".to_string(), "abs".to_string(), ResourceCategory::Group);
    assert_eq!(rooted.output_path, "/abs.md");
}
