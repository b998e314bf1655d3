//! The command line of the GitLab client, as plain data, and the decisions
//! made from it before any command runs.

use vstd::prelude::*;

verus! {

/// The parsed command line.
#[derive(Debug)]
pub struct Cli {
    /// GitLab instance URL.
    pub url: Option<String>,
    /// GitLab personal access token.
    pub token: Option<String>,
    /// Output format (table, json, plain); `table` when not given.
    pub output: String,
    /// Whether colours are used; `true` unless `--color` is passed, which turns them off.
    pub color: bool,
    /// Verbose output.
    pub verbose: bool,
    /// The subcommand.
    pub command: Commands,
}

/// The subcommands.
#[derive(Debug)]
pub enum Commands {
    Config(ConfigCommands),
    Project(ProjectCommands),
    Issue(IssueCommands),
    Mr(MrCommands),
    Pipeline(PipelineCommands),
    Repo(RepoCommands),
    Wiki(WikiCommands),
    Branch(BranchCommands),
    Commit(CommitCommands),
    Tag(TagCommands),
    Milestone(MilestoneCommands),
    Environment(EnvironmentCommands),
    Release(ReleaseCommands),
    User(UserCommands),
}

/// Project commands.
#[derive(Debug)]
pub enum ProjectCommands {
    List { search: Option<String>, per_page: usize, page: Option<usize> },
    Get { project_id: String },
    Members { project_id: String },
}

/// Issue commands.
#[derive(Debug)]
pub enum IssueCommands {
    List {
        project_id: String,
        state: Option<String>,
        labels: Option<String>,
        assignee: Option<String>,
    },
    Get { project_id: String, issue_iid: u64 },
    Create {
        project_id: String,
        title: String,
        description: Option<String>,
        labels: Option<String>,
        assignee: Option<String>,
    },
    Note { project_id: String, issue_iid: u64, body: String },
}

/// Merge request commands.
#[derive(Debug)]
pub enum MrCommands {
    List { project_id: String, state: Option<String> },
    Get { project_id: String, mr_iid: u64 },
    Create { project_id: String, source_branch: String, target_branch: String, title: String },
    Merge { project_id: String, mr_iid: u64, message: Option<String> },
}

/// Pipeline commands. `git_ref` is the `--ref` option.
#[derive(Debug)]
pub enum PipelineCommands {
    List { project_id: String, git_ref: Option<String> },
    Get { project_id: String, pipeline_id: u64 },
    JobLog { project_id: String, job_id: u64 },
}

/// Repository commands. `git_ref` is the `--ref` option.
#[derive(Debug)]
pub enum RepoCommands {
    List { project_id: String, path: Option<String>, git_ref: Option<String> },
    Get { project_id: String, file_path: String, git_ref: Option<String> },
}

/// Wiki commands.
#[derive(Debug)]
pub enum WikiCommands {
    List { project_id: String },
    Get { project_id: String, slug: String },
}

/// Branch commands.
#[derive(Debug)]
pub enum BranchCommands {
    List { project_id: String, search: Option<String> },
    Create { project_id: String, name: String, from: String },
    Delete { project_id: String, name: String },
}

/// Commit commands.
#[derive(Debug)]
pub enum CommitCommands {
    List { project_id: String, ref_name: Option<String> },
    Get { project_id: String, sha: String },
}

/// Tag commands. `git_ref` is the `--ref` option.
#[derive(Debug)]
pub enum TagCommands {
    List { project_id: String },
    Create { project_id: String, name: String, git_ref: String, message: Option<String> },
}

/// Milestone commands.
#[derive(Debug)]
pub enum MilestoneCommands {
    List { project_id: String },
    Get { project_id: String, milestone_id: u64 },
}

/// Environment commands.
#[derive(Debug)]
pub enum EnvironmentCommands {
    List { project_id: String },
    Get { project_id: String, environment_id: u64 },
}

/// Release commands.
#[derive(Debug)]
pub enum ReleaseCommands {
    List { project_id: String },
    Get { project_id: String, tag_name: String },
}

/// User commands.
#[derive(Debug)]
pub enum UserCommands {
    Me,
    List { search: Option<String> },
}

/// Configuration commands.
#[derive(Debug)]
pub enum ConfigCommands {
    Show,
    SetUrl { url: String },
    SetToken { token: String },
    SetLogLevel { level: String },
    Path,
}

/// Where a parsed command goes: the configuration or project handlers, or
/// nowhere yet (the client then reports that the command is not implemented
/// and exits with status 1).
pub enum CommandRoute {
    Config(ConfigCommands),
    Project(ProjectCommands),
    NotImplemented,
}

/// Routes a command to its handler.
pub fn route(command: Commands) -> (r: CommandRoute)
    ensures
        match command {
            Commands::Config(c) => r == CommandRoute::Config(c),
            Commands::Project(p) => r == CommandRoute::Project(p),
            _ => r is NotImplemented,
        },
{
    match command {
        Commands::Config(c) => CommandRoute::Config(c),
        Commands::Project(p) => CommandRoute::Project(p),
        _ => CommandRoute::NotImplemented,
    }
}

/// The message shown for a command that has no handler yet.
pub fn not_implemented_message() -> (s: &'static str)
    ensures
        s@ == "Command not implemented yet"@,
{
    "Command not implemented yet"
}

/// The program that serves the client: the `GITLAB_MCP_SERVER` setting
/// when present, else `gitlab-mcp-server`.
pub fn server_command(setting: Option<String>) -> (r: String)
    ensures
        r@ == (match setting {
            Some(s) => s@,
            None => "gitlab-mcp-server"@,
        }),
{
    match setting {
        Some(s) => s,
        None => String::from_str("gitlab-mcp-server"),
    }
}

/// The arguments handed to the server program: the `GITLAB_MCP_SERVER_ARGS`
/// setting split at whitespace, none when it is absent.
pub fn server_args(setting: Option<String>) -> (r: Vec<String>)
    ensures
        crate::bearer_auth::views(r@) == (match setting {
            Some(s) => crate::oauth::split_ws(s@),
            None => Seq::empty(),
        }),
{
    match setting {
        Some(s) => crate::oauth::split_whitespace(s.as_str()),
        None => {
            let v: Vec<String> = Vec::new();
            assert(crate::bearer_auth::views(v@) =~= Seq::<Seq<char>>::empty());
            v
        },
    }
}

} // verus!
