//! Git data: file states, status snapshots, history entries, and the
//! decisions made on what the repository reports.  Reading the repository is
//! the caller's business.
pub mod branches;
pub mod diffstat;
pub mod log;
pub mod refs;
pub mod status;
pub mod time;
pub mod types;

pub use time::format_relative_time;
pub use types::{
    BranchInfo, CommandType, CommitDetail, CommitFile, FileState, FileStatus, GitCommand,
    GitStatus, RefDecoration, RepoState,
};
