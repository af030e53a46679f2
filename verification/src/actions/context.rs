//! Application context for location-aware actions.
use vstd::prelude::*;

verus! {

/// Where the user currently is in the interface.
#[derive(Debug, Clone, Copy, PartialEq, Eq, Hash, Structural)]
pub enum Context {
    /// On command input section
    Command,
    /// Selection is in staged files
    StagedFiles,
    /// Selection is in working files
    WorkingFiles,
    /// On the History section header
    HistoryHeader,
    /// On a commit in history
    HistoryCommits,
    /// On a file within expanded commit
    CommitFiles,
    /// On a branch header
    BranchHeader,
    /// On a commit in expanded branch
    BranchCommits,
    /// Actions available everywhere
    Global,
}

/// The name under which a context is shown.
pub open spec fn context_name(c: Context) -> Seq<char> {
    match c {
        Context::Command => "Command"@,
        Context::StagedFiles => "Staged Files"@,
        Context::WorkingFiles => "Working Files"@,
        Context::HistoryHeader => "History"@,
        Context::HistoryCommits => "History"@,
        Context::CommitFiles => "Commit Files"@,
        Context::BranchHeader => "Branch"@,
        Context::BranchCommits => "Branch Commits"@,
        Context::Global => "Global"@,
    }
}

impl Context {
    /// Display name for the context
    pub fn display_name(self) -> (res: &'static str)
        ensures
            res@ == context_name(self),
    {
        match self {
            Context::Command => "Command",
            Context::StagedFiles => "Staged Files",
            Context::WorkingFiles => "Working Files",
            Context::HistoryHeader | Context::HistoryCommits => "History",
            Context::CommitFiles => "Commit Files",
            Context::BranchHeader => "Branch",
            Context::BranchCommits => "Branch Commits",
            Context::Global => "Global",
        }
    }
}

} // verus!
