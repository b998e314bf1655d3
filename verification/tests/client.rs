use mcp_suite::cli::{
    not_implemented_message, route, server_args, server_command, CommandRoute, Commands, ConfigCommands,
    ProjectCommands, UserCommands,
};
use mcp_suite::display::{token_head, token_preview, truncate, OutputFormatter};
use mcp_suite::gitlab_models::{
    item_reply_text, listing_reply_text, on_incoming, tool_request_id, Incoming, Project, ToolReply, WaitAction,
};
use mcp_suite::project_view::{listing_summary, members_message, project_details, project_listing};

fn project(id: u64, name: &str, description: Option<&str>) -> Project {
    Project {
        id,
        iid: None,
        name: name.to_string(),
        path: None,
        path_with_namespace: format!("group/{}", name),
        description: description.map(|d| d.to_string()),
        default_branch: None,
        web_url: format!("https://gitlab.com/group/{}", name),
        ssh_url_to_repo: None,
        http_url_to_repo: None,
        created_at: None,
        last_activity_at: None,
        visibility: None,
        star_count: None,
        forks_count: None,
        topics: None,
    }
}

#[test]
fn commands_are_routed() {
    assert!(matches!(route(Commands::Config(ConfigCommands::Show)), CommandRoute::Config(ConfigCommands::Show)));
    assert!(matches!(
        route(Commands::Project(ProjectCommands::Get { project_id: "1".to_string() })),
        CommandRoute::Project(ProjectCommands::Get { .. })
    ));
    assert!(matches!(route(Commands::User(UserCommands::Me)), CommandRoute::NotImplemented));
    assert_eq!(not_implemented_message(), "Command not implemented yet");
}

#[test]
fn server_program_and_arguments() {
    assert_eq!(server_command(None), "gitlab-mcp-server");
    assert_eq!(server_command(Some("/bin/srv".to_string())), "/bin/srv");
    assert_eq!(server_args(Some(" --a  b ".to_string())), vec!["--a", "b"]);
    assert!(server_args(None).is_empty());
}

#[test]
fn formatter_and_text_helpers() {
    let f = OutputFormatter::new("table", false);
    assert!(f.is_table());
    assert!(!f.color());
    assert!(!OutputFormatter::new("json", true).is_table());
    assert_eq!(truncate("abcdefghij", 5), "ab...");
    assert_eq!(truncate("abc", 5), "abc");
    assert_eq!(token_preview("glpat-abcdefghijkl"), "glpa***...***ijkl");
    assert_eq!(token_preview("short"), "***");
    assert_eq!(token_head("glpat-abcdefgh"), "glpat-ab***");
    assert_eq!(token_head("tiny"), "tiny***");
}

#[test]
fn tool_replies() {
    let err = ToolReply { is_error: Some(true), first_text: Some("Error: no".to_string()) };
    assert_eq!(listing_reply_text(err), Err("Error: no".to_string()));
    let flagged_other = ToolReply { is_error: Some(true), first_text: Some("[]".to_string()) };
    assert_eq!(listing_reply_text(flagged_other), Ok(Some("[]".to_string())));
    let empty = ToolReply { is_error: None, first_text: None };
    assert_eq!(listing_reply_text(empty), Ok(None));
    let none = ToolReply { is_error: None, first_text: None };
    assert_eq!(item_reply_text(none, "project"), Err("No project data in response".to_string()));
    assert_eq!(tool_request_id("list_projects"), "call-tool-list_projects");
}

#[test]
fn waiting_for_a_result() {
    assert!(matches!(
        on_incoming(&Incoming::Result { id: Some("call-tool-x".to_string()) }, "call-tool-x"),
        WaitAction::Deliver
    ));
    assert!(matches!(on_incoming(&Incoming::Result { id: Some("other".to_string()) }, "call-tool-x"), WaitAction::Ignore));
    assert!(matches!(
        on_incoming(&Incoming::Request { method: "roots/list".to_string() }, "x"),
        WaitAction::AnswerRoots
    ));
    assert!(matches!(on_incoming(&Incoming::Notification, "x"), WaitAction::Ignore));
}

#[test]
fn project_listing_as_table() {
    let ps = vec![project(7, "api", Some("The API")), project(12345, "web", None)];
    let lines = project_listing(&ps, true);
    assert_eq!(
        lines,
        vec![
            "\nProjects:".to_string(),
            format!("{:<8} | {:<30} | {}", 7, "api", "group/api"),
            "         └─ The API".to_string(),
            String::new(),
            format!("{:<8} | {:<30} | {}", 12345, "web", "group/web"),
            String::new(),
        ]
    );
    assert_eq!(listing_summary(2), "Found 2 project(s)");
}

#[test]
fn project_listing_as_plain_text() {
    let ps = vec![project(7, "api", Some("The API"))];
    let lines = project_listing(&ps, false);
    assert_eq!(
        lines,
        vec![
            "# group/api (7)".to_string(),
            "  The API".to_string(),
            "  https://gitlab.com/group/api".to_string(),
            String::new(),
        ]
    );
}

#[test]
fn long_names_are_shortened_in_the_table() {
    let long = "n".repeat(40);
    let ps = vec![project(1, &long, None)];
    let lines = project_listing(&ps, true);
    assert_eq!(lines[1], format!("{:<8} | {} | group/{}", 1, format!("{}...", "n".repeat(27)), long));
}

#[test]
fn project_details_lines() {
    let mut p = project(7, "api", Some("The API"));
    p.iid = Some(3);
    p.star_count = Some(5);
    p.topics = Some(vec!["rust".to_string()]);
    p.created_at = Some("2024".to_string());
    let lines = project_details(&p);
    assert_eq!(
        lines,
        vec![
            "\napi".to_string(),
            "===".to_string(),
            "ID:               7".to_string(),
            "IID:              3".to_string(),
            "Path:             group/api".to_string(),
            "Visibility:       Unknown".to_string(),
            "Default Branch:   None".to_string(),
            "Stars:            5".to_string(),
            "Forks:            0".to_string(),
            "Web URL:          https://gitlab.com/group/api".to_string(),
            "SSH URL:          None".to_string(),
            "HTTP URL:         None".to_string(),
            "\nDescription:".to_string(),
            "  The API".to_string(),
            "\nTopics:".to_string(),
            "  - rust".to_string(),
            "\nCreated:         2024".to_string(),
        ]
    );
    assert_eq!(members_message("7"), "Members command not implemented yet for project: 7");
}
