//! Configuration of the GitLab server and client: defaults, where the file
//! lives, how file and environment combine, and validation.

use vstd::prelude::*;
use vstd::string::StringExecFns;
use crate::urls::{parse_url, url_parse_outcome};
use crate::token_config::opt_string_view;

verus! {

/// The user's configuration directory, from `dirs::config_dir`, as text.
/// It depends on the environment, so nothing is claimed of it.
#[verifier::external_body]
fn user_config_dir() -> (r: Option<String>) {
    dirs::config_dir().map(|p| p.to_string_lossy().to_string())
}

/// `dir` joined with `name` as `Path::join` does on Unix: a `name` that
/// starts with `/` replaces `dir`; an empty `dir` gives `name`; otherwise a
/// `/` goes between them unless `dir` already ends with one.
pub open spec fn join_path(dir: Seq<char>, name: Seq<char>) -> Seq<char> {
    if name.len() > 0 && name[0] == '/' {
        name
    } else if dir.len() == 0 {
        name
    } else if dir.last() == '/' {
        dir + name
    } else {
        dir + "/"@ + name
    }
}

/// Joins a directory and a name, as a path is joined.
pub fn join(dir: &str, name: &str) -> (r: String)
    ensures
        r@ == join_path(dir@, name@),
{
    let n = crate::text::chars_of(name);
    if n.len() > 0 && n[0] == '/' {
        return String::from_str(name);
    }
    let v = crate::text::chars_of(dir);
    if v.len() == 0 {
        return String::from_str(name);
    }
    let mut r = String::from_str(dir);
    if v[v.len() - 1] == '/' {
        r.append(name);
    } else {
        r.append("/");
        r.append(name);
    }
    r
}

/// Errors finding configuration files.
pub enum ConfigError {
    /// The user's configuration directory cannot be determined.
    NoConfigDir,
}

/// The configuration directory of the GitLab tools inside `base`.
pub open spec fn gitlab_config_dir(base: Seq<char>) -> Seq<char> {
    join_path(base, "gitlab-mcp"@)
}

/// The configuration file of the GitLab tools inside `base`.
pub open spec fn gitlab_config_file(base: Seq<char>) -> Seq<char> {
    join_path(gitlab_config_dir(base), "config.toml"@)
}

/// The configuration file inside the user's configuration directory `base`.
pub fn config_file_in(base: &str) -> (r: String)
    ensures
        r@ == gitlab_config_file(base@),
{
    let dir = join(base, "gitlab-mcp");
    join(dir.as_str(), "config.toml")
}

/// The configuration directory of the GitLab tools, given the user's
/// configuration directory if one was found: an error exactly when there is
/// none.
pub fn config_dir_from(base: Option<String>) -> (r: Result<String, ConfigError>)
    ensures
        match base {
            Some(b) => r matches Ok(d) && d@ == gitlab_config_dir(b@),
            None => r matches Err(ConfigError::NoConfigDir),
        },
{
    match base {
        Some(b) => Ok(join(b.as_str(), "gitlab-mcp")),
        None => Err(ConfigError::NoConfigDir),
    }
}

/// The configuration file of the GitLab tools, given the user's
/// configuration directory if one was found: an error exactly when there is
/// none.
pub fn config_file_from(base: Option<String>) -> (r: Result<String, ConfigError>)
    ensures
        match base {
            Some(b) => r matches Ok(f) && f@ == gitlab_config_file(b@),
            None => r matches Err(ConfigError::NoConfigDir),
        },
{
    match base {
        Some(b) => Ok(config_file_in(b.as_str())),
        None => Err(ConfigError::NoConfigDir),
    }
}

/// The configuration directory of the GitLab tools, inside the user's
/// configuration directory as `dirs` finds it.
pub fn gitlab_config_dir_path() -> (r: Result<String, ConfigError>)
    ensures
        r matches Ok(d) ==> exists|base: Seq<char>| d@ == gitlab_config_dir(base),
{
    let base = user_config_dir();
    let ghost g = base;
    let r = config_dir_from(base);
    proof {
        if let Some(b) = g {
            assert(r matches Ok(d) && d@ == gitlab_config_dir(b@));
        }
    }
    r
}

/// The configuration file of the GitLab tools, inside the user's
/// configuration directory as `dirs` finds it.
pub fn gitlab_config_file_path() -> (r: Result<String, ConfigError>)
    ensures
        r matches Ok(f) ==> exists|base: Seq<char>| f@ == gitlab_config_file(base),
{
    let base = user_config_dir();
    let ghost g = base;
    let r = config_file_from(base);
    proof {
        if let Some(b) = g {
            assert(r matches Ok(f) && f@ == gitlab_config_file(b@));
        }
    }
    r
}

/// GitLab server configuration.
pub struct Config {
    /// GitLab instance URL.
    pub gitlab_url: String,
    /// Personal access token.
    pub gitlab_token: String,
    /// Log level.
    pub log_level: String,
}

impl Default for Config {
    fn default() -> (c: Config)
        ensures
            c.gitlab_url@ == "https://gitlab.com"@,
            c.gitlab_token@.len() == 0,
            c.log_level@ == "info"@,
    {
        Config {
            gitlab_url: String::from_str("https://gitlab.com"),
            gitlab_token: String::new(),
            log_level: String::from_str("info"),
        }
    }
}

/// Why a configuration is not usable, or `None` when it is: a token is
/// required and the URL must parse.
pub open spec fn config_problem(token: Seq<char>, url: Seq<char>) -> Option<Seq<char>> {
    if token.len() == 0 {
        Some("GITLAB_TOKEN is required. Set it via environment variable or config file."@)
    } else {
        match url_parse_outcome(url) {
            Err(e) => Some("Invalid GITLAB_URL: "@ + e),
            Ok(_) => None,
        }
    }
}

/// `v` replaced by `o` when there is one.
pub open spec fn overridden(v: Seq<char>, o: Option<String>) -> Seq<char> {
    match o {
        Some(x) => x@,
        None => v,
    }
}

impl Config {
    /// The configuration file path.
    pub fn config_file() -> (r: Result<String, ConfigError>)
        ensures
            r matches Ok(f) ==> exists|base: Seq<char>| f@ == gitlab_config_file(base),
    {
        gitlab_config_file_path()
    }

    /// The configuration directory path.
    pub fn config_dir() -> (r: Result<String, ConfigError>)
        ensures
            r matches Ok(d) ==> exists|base: Seq<char>| d@ == gitlab_config_dir(base),
    {
        gitlab_config_dir_path()
    }

    /// Checks that a token is set and the URL parses.
    pub fn validate(&self) -> (r: Result<(), String>)
        ensures
            match config_problem(self.gitlab_token@, self.gitlab_url@) {
                None => r is Ok,
                Some(m) => r matches Err(e) && e@ == m,
            },
    {
        if self.gitlab_token.as_str().is_empty() {
            return Err(String::from_str("GITLAB_TOKEN is required. Set it via environment variable or config file."));
        }
        match parse_url(self.gitlab_url.as_str()) {
            Err(e) => {
                let mut m = String::from_str("Invalid GITLAB_URL: ");
                m.append(e.as_str());
                Err(m)
            },
            Ok(_) => Ok(()),
        }
    }

    /// The configuration from the file's content when it could be read, else
    /// the defaults; then `GITLAB_URL`, `GITLAB_TOKEN` and `LOG_LEVEL` from the
    /// environment take precedence.
    pub fn from_sources(file: Option<Config>, env_url: Option<String>, env_token: Option<String>, env_level: Option<String>) -> (c: Config)
        ensures
            file matches Some(f) ==> c.gitlab_url@ == overridden(f.gitlab_url@, env_url)
                && c.gitlab_token@ == overridden(f.gitlab_token@, env_token)
                && c.log_level@ == overridden(f.log_level@, env_level),
            file is None ==> c.gitlab_url@ == overridden("https://gitlab.com"@, env_url)
                && c.gitlab_token@ == overridden(Seq::empty(), env_token)
                && c.log_level@ == overridden("info"@, env_level),
    {
        let mut c = match file {
            Some(f) => f,
            None => Config::default(),
        };
        if let Some(u) = env_url {
            c.gitlab_url = u;
        }
        if let Some(t) = env_token {
            c.gitlab_token = t;
        }
        if let Some(l) = env_level {
            c.log_level = l;
        }
        c
    }
}

/// GitLab client configuration.
pub struct ClientConfig {
    /// GitLab instance URL.
    pub gitlab_url: String,
    /// Personal access token.
    pub gitlab_token: String,
    /// Output format: table, json or plain.
    pub output_format: String,
    /// Whether to use colours.
    pub color: bool,
}

impl Default for ClientConfig {
    fn default() -> (c: ClientConfig)
        ensures
            c.gitlab_url@ == "https://gitlab.com"@,
            c.gitlab_token@.len() == 0,
            c.output_format@ == "table"@,
            c.color,
    {
        ClientConfig {
            gitlab_url: String::from_str("https://gitlab.com"),
            gitlab_token: String::new(),
            output_format: String::from_str("table"),
            color: true,
        }
    }
}

impl ClientConfig {
    /// The configuration file path (shared with the server).
    pub fn config_file() -> (r: Result<String, ConfigError>)
        ensures
            r matches Ok(f) ==> exists|base: Seq<char>| f@ == gitlab_config_file(base),
    {
        gitlab_config_file_path()
    }

    /// The configuration directory path.
    pub fn config_dir() -> (r: Result<String, ConfigError>)
        ensures
            r matches Ok(d) ==> exists|base: Seq<char>| d@ == gitlab_config_dir(base),
    {
        gitlab_config_dir_path()
    }

    /// The configuration from the file when it could be read, else the
    /// defaults; then `GITLAB_URL` and `GITLAB_TOKEN` take precedence.
    pub fn from_sources(file: Option<ClientConfig>, env_url: Option<String>, env_token: Option<String>) -> (c: ClientConfig)
        ensures
            file matches Some(f) ==> c.gitlab_url@ == overridden(f.gitlab_url@, env_url)
                && c.gitlab_token@ == overridden(f.gitlab_token@, env_token)
                && c.output_format == f.output_format && c.color == f.color,
            file is None ==> c.gitlab_url@ == overridden("https://gitlab.com"@, env_url)
                && c.gitlab_token@ == overridden(Seq::empty(), env_token)
                && c.output_format@ == "table"@ && c.color,
    {
        let mut c = match file {
            Some(f) => f,
            None => ClientConfig::default(),
        };
        if let Some(u) = env_url {
            c.gitlab_url = u;
        }
        if let Some(t) = env_token {
            c.gitlab_token = t;
        }
        c
    }
}

/// Whether the cuts that mask a token fall between characters.
pub open spec fn token_cuts_ok(t: Seq<char>) -> bool {
    let b = vstd::utf8::encode_utf8(t);
    b.len() > 12 ==> vstd::utf8::is_char_boundary(b, 4) && vstd::utf8::is_char_boundary(b, b.len() - 4)
}

/// A masked token with its length in bytes: `<masked> (<n> chars)`.
pub open spec fn token_summary(t: Seq<char>) -> Seq<char> {
    crate::display::masked_chars(t) + " ("@ + crate::text::decimal(vstd::utf8::encode_utf8(t).len()) + " chars)"@
}

fn token_summary_of(token: &str) -> (r: String)
    requires
        token_cuts_ok(token@),
    ensures
        r@ == token_summary(token@),
{
    let mut r = crate::display::token_preview(token);
    r.append(" (");
    let n = crate::text::u64_to_decimal(token.as_bytes().len() as u64);
    r.append(n.as_str());
    r.append(" chars)");
    r
}

/// The token line of the configuration status report.
pub fn token_status_line(token: &str) -> (r: String)
    requires
        token_cuts_ok(token@),
    ensures
        r@ == (if token@.len() == 0 {
            "**Token:** Not configured"@
        } else {
            "**Token:** "@ + token_summary(token@)
        }),
{
    if crate::text::chars_of(token).len() == 0 {
        String::from_str("**Token:** Not configured")
    } else {
        let mut r = String::from_str("**Token:** ");
        let t = token_summary_of(token);
        r.append(t.as_str());
        r
    }
}

/// What the configuration tool does with its arguments: a non-empty URL and
/// a non-empty token replace the configured ones, each with a line saying
/// so; with neither, a line says that nothing changed. The flag tells
/// whether anything changed (and so whether the file is to be saved).
pub fn apply_config_update(config: Config, url: Option<&str>, token: Option<&str>) -> (r: (Config, Vec<String>, bool))
    requires
        token matches Some(t) ==> token_cuts_ok(t@),
    ensures
        ({
            let url_set = url matches Some(u) && u@.len() > 0;
            let token_set = token matches Some(t) && t@.len() > 0;
            let url_lines: Seq<Seq<char>> = if url_set { seq!["✓ GitLab URL set to: "@ + url->0@] } else { Seq::empty() };
            let token_lines: Seq<Seq<char>> = if token_set {
                seq!["✓ Token set to: "@ + token_summary(token->0@)]
            } else {
                Seq::empty()
            };
            &&& r.2 == (url_set || token_set)
            &&& r.0.gitlab_url@ == (if url_set { url->0@ } else { config.gitlab_url@ })
            &&& r.0.gitlab_token@ == (if token_set { token->0@ } else { config.gitlab_token@ })
            &&& r.0.log_level == config.log_level
            &&& crate::bearer_auth::views(r.1@) == url_lines + token_lines + (if url_set || token_set {
                Seq::<Seq<char>>::empty()
            } else {
                seq!["No changes made. Please provide gitlab_url and/or gitlab_token."@]
            })
        }),
{
    let mut c = config;
    let mut lines: Vec<String> = Vec::new();
    let mut updated = false;
    match url {
        Some(u) => {
            if crate::text::chars_of(u).len() > 0 {
                c.gitlab_url = String::from_str(u);
                let mut m = String::from_str("✓ GitLab URL set to: ");
                m.append(u);
                lines.push(m);
                updated = true;
            }
        },
        None => {},
    }
    match token {
        Some(t) => {
            if crate::text::chars_of(t).len() > 0 {
                c.gitlab_token = String::from_str(t);
                let mut m = String::from_str("✓ Token set to: ");
                let s = token_summary_of(t);
                m.append(s.as_str());
                lines.push(m);
                updated = true;
            }
        },
        None => {},
    }
    if !updated {
        lines.push(String::from_str("No changes made. Please provide gitlab_url and/or gitlab_token."));
    }
    proof {
        let url_set = url matches Some(u) && u@.len() > 0;
        let token_set = token matches Some(t) && t@.len() > 0;
        let url_lines: Seq<Seq<char>> = if url_set { seq!["✓ GitLab URL set to: "@ + url->0@] } else { Seq::empty() };
        let token_lines: Seq<Seq<char>> = if token_set {
            seq!["✓ Token set to: "@ + token_summary(token->0@)]
        } else {
            Seq::empty()
        };
        assert(crate::bearer_auth::views(lines@) =~= url_lines + token_lines + (if url_set || token_set {
            Seq::<Seq<char>>::empty()
        } else {
            seq!["No changes made. Please provide gitlab_url and/or gitlab_token."@]
        }));
    }
    (c, lines, updated)
}

/// Where the configuration file stands: its path and whether it exists, or
/// why its path is unknown.
pub enum ConfigFileState {
    Found { path: String, exists: bool },
    Unknown(String),
}

/// The lines of the configuration status report.
pub open spec fn status_lines(c: Config, file: ConfigFileState) -> Seq<Seq<char>> {
    let file_lines: Seq<Seq<char>> = match file {
        ConfigFileState::Found { path, exists } => seq![
            "**Config File:** `"@ + path@ + "`"@,
            if exists {
                "**Status:** Config file exists"@
            } else {
                "**Status:** Config file not found (using environment variables or defaults)"@
            },
        ],
        ConfigFileState::Unknown(e) => seq!["**Config File Error:** "@ + e@],
    };
    let token_line = if c.gitlab_token@.len() == 0 {
        "**Token:** Not configured"@
    } else {
        "**Token:** "@ + token_summary(c.gitlab_token@)
    };
    let validity = match config_problem(c.gitlab_token@, c.gitlab_url@) {
        None => "\n**Configuration:** Valid"@,
        Some(e) => "\n**Configuration Error:** "@ + e,
    };
    let base = seq!["## GitLab MCP Configuration Status\n"@] + file_lines + seq![
        Seq::empty(),
        "**GitLab URL:** "@ + c.gitlab_url@,
        token_line,
        "**Log Level:** "@ + c.log_level@,
        validity,
    ];
    if c.gitlab_token@.len() == 0 {
        base + seq![
            "\n### Setup Instructions"@,
            "To configure the GitLab MCP server:"@,
            "1. Create a Personal Access Token in GitLab"@,
            "2. Run: `gitlab-mcp config set-token <your-token>`"@,
            "   Or set environment variable: `export GITLAB_TOKEN=glpat-...`"@,
        ]
    } else {
        base
    }
}

fn labelled(label: &str, value: &str) -> (r: String)
    ensures
        r@ == label@ + value@,
{
    let mut r = String::from_str(label);
    r.append(value);
    r
}

/// Writes the configuration status report, lines joined with line breaks.
pub fn config_status_report(config: &Config, file: &ConfigFileState) -> (r: String)
    requires
        token_cuts_ok(config.gitlab_token@),
    ensures
        r@ == crate::gitlab_paths::join_lines(status_lines(*config, *file)),
{
    let mut out: Vec<String> = Vec::new();
    out.push(String::from_str("## GitLab MCP Configuration Status\n"));
    match file {
        ConfigFileState::Found { path, exists } => {
            let mut l = String::from_str("**Config File:** `");
            l.append(path.as_str());
            l.append("`");
            out.push(l);
            if *exists {
                out.push(String::from_str("**Status:** Config file exists"));
            } else {
                out.push(String::from_str("**Status:** Config file not found (using environment variables or defaults)"));
            }
        },
        ConfigFileState::Unknown(e) => out.push(labelled("**Config File Error:** ", e.as_str())),
    }
    out.push(String::new());
    out.push(labelled("**GitLab URL:** ", config.gitlab_url.as_str()));
    out.push(token_status_line(config.gitlab_token.as_str()));
    out.push(labelled("**Log Level:** ", config.log_level.as_str()));
    match config.validate() {
        Ok(()) => out.push(String::from_str("\n**Configuration:** Valid")),
        Err(e) => out.push(labelled("\n**Configuration Error:** ", e.as_str())),
    }
    if crate::text::chars_of(config.gitlab_token.as_str()).len() == 0 {
        out.push(String::from_str("\n### Setup Instructions"));
        out.push(String::from_str("To configure the GitLab MCP server:"));
        out.push(String::from_str("1. Create a Personal Access Token in GitLab"));
        out.push(String::from_str("2. Run: `gitlab-mcp config set-token <your-token>`"));
        out.push(String::from_str("   Or set environment variable: `export GITLAB_TOKEN=glpat-...`"));
    }
    assert(crate::bearer_auth::views(out@) =~= status_lines(*config, *file));
    crate::gitlab_paths::join_with_newlines(&out)
}

/// The lines of the configuration help that the server's `get_config_info`
/// tool sends: the ways to configure it, `location` being the configuration
/// file's path, the options and their priority.
pub open spec fn config_info_lines(location: Seq<char>) -> Seq<Seq<char>> {
    seq![
        "## GitLab MCP Configuration\n"@,
        "### Configuration Methods\n"@,
        "**Via CLI:**"@,
        "```bash"@,
        "gitlab-mcp config set-url <url>     # Set GitLab instance URL"@,
        "gitlab-mcp config set-token <token> # Set Personal Access Token"@,
        "gitlab-mcp config show              # Show current config"@,
        "```"@,
        Seq::empty(),
        "**Via Environment Variables:**"@,
        "```bash"@,
        "export GITLAB_URL=\"https://gitlab.com\""@,
        "export GITLAB_TOKEN=\"glpat-xxxxxxxxxxxxxx\""@,
        "```"@,
        Seq::empty(),
        "**Via Config File:**"@,
        "Location: `"@ + location + "`"@,
        Seq::empty(),
        "```toml"@,
        "gitlab_url = \"https://gitlab.com\""@,
        "gitlab_token = \"glpat-xxxxxxxxxxxxxx\""@,
        "log_level = \"info\""@,
        "```"@,
        Seq::empty(),
        "### Configuration Options\n"@,
        "- **gitlab_url**: GitLab instance URL (default: https://gitlab.com)"@,
        "- **gitlab_token**: Personal Access Token for authentication"@,
        "- **log_level**: Logging level (trace, debug, info, warn, error)"@,
        Seq::empty(),
        "### Priority Order"@,
        "1. Environment variables (highest priority)"@,
        "2. Config file"@,
        "3. Default values (lowest priority)"@,
    ]
}

/// Writes the configuration help, lines joined with line breaks;
/// `config_file` is the configuration file's path, `Unknown` when it could
/// not be found.
pub fn config_info_report(config_file: Option<&str>) -> (r: String)
    ensures
        r@ == crate::gitlab_paths::join_lines(config_info_lines(match config_file {
            Some(p) => p@,
            None => "Unknown"@,
        })),
{
    let mut out: Vec<String> = Vec::new();
    out.push(String::from_str("## GitLab MCP Configuration\n"));
    out.push(String::from_str("### Configuration Methods\n"));
    out.push(String::from_str("**Via CLI:**"));
    out.push(String::from_str("```bash"));
    out.push(String::from_str("gitlab-mcp config set-url <url>     # Set GitLab instance URL"));
    out.push(String::from_str("gitlab-mcp config set-token <token> # Set Personal Access Token"));
    out.push(String::from_str("gitlab-mcp config show              # Show current config"));
    out.push(String::from_str("```"));
    out.push(String::new());
    out.push(String::from_str("**Via Environment Variables:**"));
    out.push(String::from_str("```bash"));
    out.push(String::from_str("export GITLAB_URL=\"https://gitlab.com\""));
    out.push(String::from_str("export GITLAB_TOKEN=\"glpat-xxxxxxxxxxxxxx\""));
    out.push(String::from_str("```"));
    out.push(String::new());
    out.push(String::from_str("**Via Config File:**"));
    let mut loc = String::from_str("Location: `");
    match config_file {
        Some(p) => loc.append(p),
        None => loc.append("Unknown"),
    }
    loc.append("`");
    out.push(loc);
    out.push(String::new());
    out.push(String::from_str("```toml"));
    out.push(String::from_str("gitlab_url = \"https://gitlab.com\""));
    out.push(String::from_str("gitlab_token = \"glpat-xxxxxxxxxxxxxx\""));
    out.push(String::from_str("log_level = \"info\""));
    out.push(String::from_str("```"));
    out.push(String::new());
    out.push(String::from_str("### Configuration Options\n"));
    out.push(String::from_str("- **gitlab_url**: GitLab instance URL (default: https://gitlab.com)"));
    out.push(String::from_str("- **gitlab_token**: Personal Access Token for authentication"));
    out.push(String::from_str("- **log_level**: Logging level (trace, debug, info, warn, error)"));
    out.push(String::new());
    out.push(String::from_str("### Priority Order"));
    out.push(String::from_str("1. Environment variables (highest priority)"));
    out.push(String::from_str("2. Config file"));
    out.push(String::from_str("3. Default values (lowest priority)"));
    assert(crate::bearer_auth::views(out@) =~= config_info_lines(match config_file {
        Some(p) => p@,
        None => "Unknown"@,
    }));
    crate::gitlab_paths::join_with_newlines(&out)
}

/// The lines the configuration tool adds after saving: where it saved
/// (`Unknown` when the path is not known) and whether the configuration is
/// valid; or why saving failed.
pub open spec fn saved_lines(c: Config, saved: Result<Option<Seq<char>>, Seq<char>>) -> Seq<Seq<char>> {
    match saved {
        Ok(path) => seq![
            "✓ Configuration saved to: "@ + (match path {
                Some(p) => p,
                None => "Unknown"@,
            }),
            match config_problem(c.gitlab_token@, c.gitlab_url@) {
                None => "✓ Configuration is valid!"@,
                Some(e) => "⚠ Warning: "@ + e,
            },
        ],
        Err(e) => seq!["✗ Failed to save config: "@ + e],
    }
}

/// The lines added after an attempt to save the configuration.
pub fn saved_report(config: &Config, saved: Result<Option<String>, String>) -> (r: Vec<String>)
    ensures
        crate::bearer_auth::views(r@) == saved_lines(*config, match saved {
            Ok(p) => Ok(opt_string_view(p)),
            Err(e) => Err(e@),
        }),
{
    let mut out: Vec<String> = Vec::new();
    match saved {
        Ok(path) => {
            match &path {
                Some(p) => out.push(labelled("✓ Configuration saved to: ", p.as_str())),
                None => out.push(labelled("✓ Configuration saved to: ", "Unknown")),
            }
            match config.validate() {
                Ok(()) => out.push(String::from_str("✓ Configuration is valid!")),
                Err(e) => out.push(labelled("⚠ Warning: ", e.as_str())),
            }
            assert(crate::bearer_auth::views(out@) =~= saved_lines(*config, Ok(opt_string_view(path))));
        },
        Err(e) => {
            out.push(labelled("✗ Failed to save config: ", e.as_str()));
            assert(crate::bearer_auth::views(out@) =~= saved_lines(*config, Err(e@)));
        },
    }
    out
}

} // verus!
