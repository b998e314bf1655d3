# mcp_suite

The verified core of a set of MCP (Model Context Protocol) servers and tools:
an HTTP transport with DNS-rebinding protection, bearer-token checks and OAuth
endpoints; a GitHub server with named tokens; a GitLab server and its
command-line client; and a scraper of the GitLab REST API documentation.

## Layout

- `src/` is the library, written in Verus. Every public function carries a
  contract over mathematical models (`Seq`, `Map`, spec functions), and the
  properties that span several calls stand as public proof functions named
  `law_*`. Calls into outside crates (`url`, `urlencoding`, `sha2`, `base64`,
  `scraper`, `html2md`, `dirs`, `reqwest`) go through small trusted wrappers,
  each with a doc comment that says what its contract claims.
  - transport: `dns_protection`, `bearer_auth`, `oauth`, `session`,
    `sse_writer`, `handler`, `http_error`, `registry`, `server_error`
  - GitHub server: `token_map`, `token_config`, `github`, `github_paths`,
    `github_tools`
  - GitLab server and client: `gitlab`, `gitlab_paths`, `gitlab_models`,
    `gitlab_reports`, `config`, `cli`, `display`, `project_view`
  - documentation scraper: `resources`, `parser`, `scrape_client`,
    `scrape_report`, `urls`
  - shared character helpers: `text`
- `tests/` runs the library on concrete values.
- `app/` is ordinary Rust around the library: the scraper's `main`, HTTP
  requests, async fetch loops, tower layers, configuration files (serde and
  toml), logging and the terminal client.

## Checking

Verus verifies `src/`; `cargo test` runs `tests/` against the compiled library.
