use vstd::prelude::*;
use crate::workflow::CommitRequest;

verus! {

/// The command line: a subcommand and whether git invocations are echoed.
#[derive(Debug, Clone)]
pub struct Cli {
    pub command: Commands,
    pub verbose: bool,
}

/// The two subcommands.
#[derive(Debug, Clone)]
pub enum Commands {
    /// Show the state of the working tree.
    Status,
    /// Stage, rebase-pull, commit and push.
    Commit {
        commit_type: String,
        scope: Option<String>,
        message: String,
        skip_checklist: bool,
        issue: Option<String>,
    },
}

impl Commands {
    /// The commit that the subcommand asks for, if it is `Commit`.
    pub fn request(self) -> (r: Option<CommitRequest>)
        ensures
            match self {
                Commands::Status => r is None,
                Commands::Commit { commit_type, scope, message, skip_checklist, issue } => r == Some(
                    CommitRequest { commit_type, scope, message, skip_checklist, issue },
                ),
            },
    {
        match self {
            Commands::Status => None,
            Commands::Commit { commit_type, scope, message, skip_checklist, issue } => Some(
                CommitRequest { commit_type, scope, message, skip_checklist, issue },
            ),
        }
    }
}

/// The report of the working tree's state.
pub fn status_report(status: &str) -> (r: String)
    ensures
        r@ == "Git Status:\n"@ + status@,
{
    let mut r = "Git Status:\n".to_owned();
    r.append(status);
    r
}

} // verus!
