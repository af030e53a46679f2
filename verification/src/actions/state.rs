//! Application state for evaluating action conditions.
use vstd::prelude::*;

verus! {

/// Conditions for when an action should be available
#[derive(Debug, Clone, Copy, PartialEq, Eq, Structural)]
pub enum ActionCondition {
    /// Always available (no condition)
    Always,
    /// Branch is ahead of remote (can push)
    BranchAhead,
    /// Branch is behind remote (should pull)
    BranchBehind,
    /// Branch has upstream configured
    HasUpstream,
    /// Branch has no upstream configured
    NoUpstream,
    /// Has staged changes ready to commit
    HasStagedChanges,
    /// Has unstaged changes in working directory
    HasWorkingChanges,
    /// Has untracked files
    HasUntrackedFiles,
}

impl Default for ActionCondition {
    fn default() -> (res: Self)
        ensures
            res == ActionCondition::Always,
    {
        ActionCondition::Always
    }
}

/// Snapshot of app state for evaluating action conditions
#[derive(Debug, Clone, Copy, PartialEq, Eq, Structural)]
pub struct AppState {
    pub ahead: usize,
    pub behind: usize,
    pub has_upstream: bool,
    pub staged_count: usize,
    pub working_count: usize,
    pub untracked_count: usize,
}

impl Default for AppState {
    fn default() -> (res: Self)
        ensures
            res.ahead == 0,
            res.behind == 0,
            !res.has_upstream,
            res.staged_count == 0,
            res.working_count == 0,
            res.untracked_count == 0,
    {
        AppState {
            ahead: 0,
            behind: 0,
            has_upstream: false,
            staged_count: 0,
            working_count: 0,
            untracked_count: 0,
        }
    }
}

/// Whether `state` satisfies `condition`.
pub open spec fn condition_holds(state: AppState, condition: ActionCondition) -> bool {
    match condition {
        ActionCondition::Always => true,
        ActionCondition::BranchAhead => state.ahead > 0,
        ActionCondition::BranchBehind => state.behind > 0,
        ActionCondition::HasUpstream => state.has_upstream,
        ActionCondition::NoUpstream => !state.has_upstream,
        ActionCondition::HasStagedChanges => state.staged_count > 0,
        ActionCondition::HasWorkingChanges => state.working_count > 0,
        ActionCondition::HasUntrackedFiles => state.untracked_count > 0,
    }
}

impl AppState {
    /// Check if a condition is satisfied
    pub fn satisfies(&self, condition: ActionCondition) -> (res: bool)
        ensures
            res == condition_holds(*self, condition),
    {
        match condition {
            ActionCondition::Always => true,
            ActionCondition::BranchAhead => self.ahead > 0,
            ActionCondition::BranchBehind => self.behind > 0,
            ActionCondition::HasUpstream => self.has_upstream,
            ActionCondition::NoUpstream => !self.has_upstream,
            ActionCondition::HasStagedChanges => self.staged_count > 0,
            ActionCondition::HasWorkingChanges => self.working_count > 0,
            ActionCondition::HasUntrackedFiles => self.untracked_count > 0,
        }
    }
}

} // verus!
