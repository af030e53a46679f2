//! Action type definitions and builders.
use vstd::prelude::*;

use crate::config::Alias;
use crate::input::keymap::{binding_label, KeyBinding};
use crate::text::{concat2, owned};

use super::context::Context;
use super::state::ActionCondition;

verus! {

/// Type of action
#[derive(Debug, PartialEq, Eq)]
pub enum ActionType {
    /// Built-in application action (e.g., stage, diff)
    App(AppAction),
    /// Custom CLI command
    Cli(String),
    /// Git alias from gitconfig
    Alias(Alias),
}

impl Clone for ActionType {
    fn clone(&self) -> (res: Self)
        ensures
            res == *self,
    {
        match self {
            ActionType::App(a) => ActionType::App(*a),
            ActionType::Cli(c) => ActionType::Cli(c.clone()),
            ActionType::Alias(a) => ActionType::Alias(a.clone()),
        }
    }
}

/// Built-in app actions
#[derive(Debug, Clone, Copy, PartialEq, Eq, Hash, Structural)]
pub enum AppAction {
    /// Stage or unstage the selected file
    ToggleStage,
    /// Show diff for selected file
    ShowDiff,
    /// Open working/staged file diff in pager
    FilePagerDiff,
    /// Open working/staged file diff in external difftool
    FileDiffTool,
    /// Open selected file (or repo) in $EDITOR
    OpenEditor,
    /// Toggle between log and reflog
    ToggleHistoryMode,
    /// Expand selected commit to show files
    ExpandCommit,
    /// Copy short SHA to clipboard
    CopyShortSha,
    /// Copy full SHA to clipboard
    CopyFullSha,
    /// Next page in history
    NextPage,
    /// Previous page in history
    PrevPage,
    /// Interactive rebase onto selected commit
    InteractiveRebase,
    /// Open diff in pager
    PagerDiff,
    /// Show inline diff in popup
    InlineDiff,
    /// Open diff in external difftool
    DiffTool,
    /// Checkout the selected branch/commit
    Checkout,
    /// Expand branch to show commits
    ExpandBranch,
    /// Push current branch
    Push,
    /// Refresh git status
    Refresh,
    /// Enter command mode
    EnterCommandMode,
    /// Browse git aliases
    BrowseAliases,
    /// Show help overlay
    ShowHelp,
    /// Quit the application
    Quit,
    /// Jump to working files section
    JumpToWorking,
    /// Jump to history section
    JumpToHistory,
    /// Jump to branches section
    JumpToBranches,
    /// Pull from remote
    Pull,
    /// Fetch from remote
    Fetch,
}

/// A single action definition
#[derive(Debug, PartialEq, Eq)]
pub struct Action {
    /// Keyboard shortcut (e.g., "s", "Space", "Ctrl+d")
    pub key: String,
    /// Structured binding for keymap lookup
    pub binding: Option<KeyBinding>,
    /// Display label for the action
    pub label: String,
    /// Type of action
    pub action_type: ActionType,
    /// Contexts where this action is available
    pub contexts: Vec<Context>,
    /// Priority for display ordering (lower = higher priority)
    pub priority: u8,
    /// Condition for when this action is available
    pub condition: ActionCondition,
}

impl Clone for Action {
    fn clone(&self) -> (res: Self)
        ensures
            res.key == self.key,
            res.binding == self.binding,
            res.label == self.label,
            res.action_type == self.action_type,
            res.contexts@ == self.contexts@,
            res.priority == self.priority,
            res.condition == self.condition,
    {
        Action {
            key: self.key.clone(),
            binding: self.binding,
            label: self.label.clone(),
            action_type: self.action_type.clone(),
            contexts: clone_contexts(&self.contexts),
            priority: self.priority,
            condition: self.condition,
        }
    }
}

/// A copy of a list of contexts.
pub fn clone_contexts(v: &Vec<Context>) -> (res: Vec<Context>)
    ensures
        res@ == v@,
{
    let mut res: Vec<Context> = Vec::new();
    let n = v.len();
    for i in 0..n
        invariant
            n == v@.len(),
            res@ == v@.take(i as int),
    {
        res.push(v[i]);
        assert(v@.take(i + 1) == v@.take(i as int).push(v@[i as int]));
    }
    assert(v@.take(n as int) == v@);
    res
}

/// The action built for an alias: shortcut `:name`, labelled with the alias
/// command, shown after the built-in actions.
pub open spec fn alias_action(a: Alias, contexts: Seq<Context>, act: Action) -> bool {
    &&& act.key@ == ":"@ + a.name@
    &&& act.binding is None
    &&& act.label@ == a.command@
    &&& act.action_type == ActionType::Alias(a)
    &&& act.contexts@ == contexts
    &&& act.priority == 100
    &&& act.condition == ActionCondition::Always
}

/// The action built for a key binding.
pub open spec fn app_action(
    binding: KeyBinding,
    label: Seq<char>,
    action: AppAction,
    contexts: Seq<Context>,
    priority: u8,
    condition: ActionCondition,
    act: Action,
) -> bool {
    &&& act.key@ == binding_label(binding)
    &&& act.binding == Some(binding)
    &&& act.label@ == label
    &&& act.action_type == ActionType::App(action)
    &&& act.contexts@ == contexts
    &&& act.priority == priority
    &&& act.condition == condition
}

impl Action {
    /// Create a new app action (always available)
    pub fn app(
        binding: KeyBinding,
        label: &str,
        action: AppAction,
        contexts: Vec<Context>,
        priority: u8,
    ) -> (res: Self)
        ensures
            app_action(binding, label@, action, contexts@, priority, ActionCondition::Always, res),
    {
        Action {
            key: binding.label(),
            binding: Some(binding),
            label: owned(label),
            action_type: ActionType::App(action),
            contexts,
            priority,
            condition: ActionCondition::Always,
        }
    }

    /// Create a new app action with a condition
    pub fn app_when(
        binding: KeyBinding,
        label: &str,
        action: AppAction,
        contexts: Vec<Context>,
        priority: u8,
        condition: ActionCondition,
    ) -> (res: Self)
        ensures
            app_action(binding, label@, action, contexts@, priority, condition, res),
    {
        Action {
            key: binding.label(),
            binding: Some(binding),
            label: owned(label),
            action_type: ActionType::App(action),
            contexts,
            priority,
            condition,
        }
    }

    /// Create a new alias action
    pub fn from_alias(alias: &Alias, contexts: Vec<Context>) -> (res: Self)
        ensures
            alias_action(*alias, contexts@, res),
    {
        Action {
            key: concat2(":", alias.name.as_str()),
            binding: None,
            label: alias.command.clone(),
            action_type: ActionType::Alias(alias.clone()),
            contexts,
            priority: 100,
            condition: ActionCondition::Always,
        }
    }
}

} // verus!
