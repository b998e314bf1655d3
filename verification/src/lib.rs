//! Verified core of a collection of MCP servers and tools: host-header
//! protection, bearer-token parsing, OAuth token-endpoint rules, SSE event
//! numbering, session bookkeeping, named-token configuration, GitLab
//! documentation resources and markdown clean-up.

pub mod text;
pub mod token_map;
pub mod token_config;
pub mod bearer_auth;
pub mod urls;
pub mod dns_protection;
pub mod parser;
pub mod resources;
pub mod http_error;
pub mod session;
pub mod sse_writer;
pub mod handler;
pub mod oauth;
pub mod config;
pub mod display;
pub mod cli;
pub mod server_error;
pub mod github;
pub mod scrape_client;
pub mod gitlab;
pub mod gitlab_paths;
pub mod gitlab_models;
pub mod project_view;
pub mod github_tools;
pub mod scrape_report;
pub mod registry;
pub mod github_paths;
pub mod gitlab_reports;
