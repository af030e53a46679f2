//! Command results and the choice of working directory.
use std::time::Duration;

use vstd::prelude::*;

use super::CommandRequest;
use crate::text::{line_count, line_count_of, owned};

verus! {

/// Result of command execution
#[derive(Debug)]
pub struct CommandResult {
    /// Whether the command succeeded (exit code 0)
    pub success: bool,
    /// Exit code if available
    pub exit_code: Option<i32>,
    /// Standard output
    pub stdout: String,
    /// Standard error
    pub stderr: String,
    /// How long the command took
    pub duration: Duration,
}

impl Clone for CommandResult {
    fn clone(&self) -> (res: Self)
        ensures
            res == *self,
    {
        CommandResult {
            success: self.success,
            exit_code: self.exit_code,
            stdout: self.stdout.clone(),
            stderr: self.stderr.clone(),
            duration: self.duration,
        }
    }
}

/// The text shown for a result: standard error when there is any (git writes
/// its progress there), else standard output, else a placeholder.
pub open spec fn shown_output(r: CommandResult) -> Seq<char> {
    if r.stderr@.len() > 0 {
        r.stderr@
    } else if r.stdout@.len() > 0 {
        r.stdout@
    } else {
        "(no output)"@
    }
}

impl CommandResult {
    /// Get the output to display.
    pub fn display_output(&self) -> (res: &str)
        ensures
            res@ == shown_output(*self),
    {
        if !self.stderr.as_str().is_empty() {
            self.stderr.as_str()
        } else if !self.stdout.as_str().is_empty() {
            self.stdout.as_str()
        } else {
            "(no output)"
        }
    }

    /// The result of a command that could not be started: not successful, no
    /// exit code, no output, and the error after "Failed to execute: " as
    /// standard error.
    pub fn launch_failure(error: &str, duration: Duration) -> (res: Self)
        ensures
            !res.success,
            res.exit_code is None,
            res.stdout@.len() == 0,
            res.stderr@ == "Failed to execute: "@ + error@,
            res.duration == duration,
    {
        CommandResult {
            success: false,
            exit_code: None,
            stdout: String::new(),
            stderr: crate::text::concat2("Failed to execute: ", error),
            duration,
        }
    }

    /// Get line count of display output
    pub fn line_count(&self) -> (res: usize)
        ensures
            res == line_count(shown_output(*self)),
    {
        line_count_of(self.display_output())
    }
}

/// Executes commands with consistent handling
#[derive(Debug)]
pub struct CommandExecutor {
    /// Default working directory for commands
    pub default_cwd: String,
}

impl CommandExecutor {
    /// Create a new executor with the given default working directory
    pub fn new(default_cwd: &str) -> (res: Self)
        ensures
            res.default_cwd@ == default_cwd@,
    {
        CommandExecutor { default_cwd: owned(default_cwd) }
    }

    /// The directory a request runs in: its own, or the default one.
    pub fn working_dir<'a>(&'a self, request: &'a CommandRequest) -> (res: &'a str)
        ensures
            res@ == (match request.cwd {
                Some(c) => c@,
                None => self.default_cwd@,
            }),
    {
        match &request.cwd {
            Some(c) => c.as_str(),
            None => self.default_cwd.as_str(),
        }
    }
}

} // verus!
