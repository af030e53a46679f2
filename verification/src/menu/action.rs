//! Action menu for contextual actions.
use vstd::prelude::*;

use crate::actions::context::context_name;
use crate::actions::{Action, ActionType, Context};
use crate::command::{alias_request, typed_request, CommandRequest, CommandSource};
use crate::input::keymap::{KeyCode, KeyEvent};
use crate::text::{concat2, split_ws};

use super::{
    is_down, is_up, item_flags, key_is_down, key_is_up, moved_to, next_enabled,
    next_enabled_index, opt_view, prev_enabled, prev_enabled_index, ItemStyle, MenuAction,
    MenuItem, MenuResult,
};

verus! {

/// Menu for displaying contextual actions
#[derive(Debug)]
pub struct ActionMenu {
    /// Context the actions belong to
    pub context: Context,
    /// The actions offered
    pub actions: Vec<Action>,
    /// Repository in which alias commands run
    pub repo_path: String,
    /// Currently selected index
    pub selected: usize,
}

/// The mark before an action's label: none for a built-in action, "⌘ " for a
/// command line, "⎇ " for a git alias.
pub open spec fn type_indicator(t: ActionType) -> Seq<char> {
    match t {
        ActionType::App(_) => Seq::empty(),
        ActionType::Cli(_) => "⌘ "@,
        ActionType::Alias(_) => "⎇ "@,
    }
}

/// `m` is the menu line of action `a`: its mark and label, with its key as hint.
pub open spec fn action_item(a: Action, m: MenuItem) -> bool {
    &&& m.label@ == type_indicator(a.action_type) + a.label@
    &&& opt_view(m.key_hint) == Some(a.key@)
    &&& m.description is None
    &&& m.enabled
    &&& m.style == ItemStyle::Normal
}

/// What choosing action `a` yields: a built-in action is executed; a command
/// line runs as typed (an empty one closes the menu); an alias runs in the
/// repository at `repo_path`.
pub open spec fn chosen_action(a: Action, repo_path: Seq<char>, res: MenuResult) -> bool {
    match a.action_type {
        ActionType::App(x) => res == MenuResult::Execute(MenuAction::App(x)),
        ActionType::Cli(cmd) => if split_ws(cmd@).len() > 0 {
            res matches MenuResult::Execute(MenuAction::Command(r)) && typed_request(cmd@, r)
                && r.source == CommandSource::ActionMenu
        } else {
            res is Close
        },
        ActionType::Alias(al) => res matches MenuResult::Execute(MenuAction::Command(r))
            && alias_request(al.name@, al.command@, repo_path, r) && r.source
            == CommandSource::ActionMenu,
    }
}

/// Keys that close the action menu.
pub open spec fn closes_action_menu(code: KeyCode) -> bool {
    code == KeyCode::Esc || code == KeyCode::Char('q') || code == KeyCode::Char('m')
}

/// Every line of the action menu can be selected.
pub open spec fn all_enabled(n: nat) -> Seq<bool> {
    Seq::new(n, |i: int| true)
}

impl ActionMenu {
    /// Create a new action menu
    pub fn new(context: Context, actions: Vec<Action>, repo_path: String) -> (res: Self)
        ensures
            res == (ActionMenu { context, actions, repo_path, selected: 0 }),
    {
        ActionMenu { context, actions, repo_path, selected: 0 }
    }

    /// Get context name for display
    pub fn context_name(&self) -> (res: &'static str)
        ensures
            res@ == context_name(self.context),
    {
        self.context.display_name()
    }

    /// Title for the menu overlay
    pub fn title(&self) -> (res: &'static str)
        ensures
            res@ == context_name(self.context),
    {
        self.context.display_name()
    }

    /// Items to display
    pub fn items(&self) -> (res: Vec<MenuItem>)
        ensures
            res@.len() == self.actions@.len(),
            forall|i: int| 0 <= i < res@.len() ==> action_item(self.actions@[i], #[trigger] res@[i]),
    {
        let mut res: Vec<MenuItem> = Vec::new();
        let n = self.actions.len();
        for i in 0..n
            invariant
                n == self.actions@.len(),
                res@.len() == i,
                forall|j: int| 0 <= j < i ==> action_item(self.actions@[j], #[trigger] res@[j]),
        {
            let action = &self.actions[i];
            let indicator = match &action.action_type {
                ActionType::App(_) => "",
                ActionType::Cli(_) => "⌘ ",
                ActionType::Alias(_) => "⎇ ",
            };
            proof {
                reveal_strlit("");
                reveal_strlit("⌘ ");
                reveal_strlit("⎇ ");
            }
            let label = concat2(indicator, action.label.as_str());
            let item = MenuItem::new(label.as_str()).with_key(action.key.as_str());
            res.push(item);
        }
        res
    }

    /// Currently selected index
    pub fn selected(&self) -> (res: usize)
        ensures
            res == self.selected,
    {
        self.selected
    }

    /// Set selection index (ignored past the last action)
    pub fn set_selected(&mut self, idx: usize)
        ensures
            final(self).selected == if idx < old(self).actions@.len() {
                idx
            } else {
                old(self).selected
            },
            final(self).context == old(self).context,
            final(self).actions == old(self).actions,
            final(self).repo_path == old(self).repo_path,
    {
        if idx < self.actions.len() {
            self.selected = idx;
        }
    }

    /// Move selection up
    pub fn select_prev(&mut self)
        ensures
            final(self).selected == moved_to(
                prev_enabled(all_enabled(old(self).actions@.len()), old(self).selected as int),
                old(self).selected as int,
            ),
            final(self).context == old(self).context,
            final(self).actions == old(self).actions,
            final(self).repo_path == old(self).repo_path,
    {
        let items = self.items();
        let flags = item_flags(&items);
        assert(flags@ =~= all_enabled(self.actions@.len()));
        if let Some(i) = prev_enabled_index(&flags, self.selected) {
            proof {
                super::lemma_prev_enabled_range(flags@, self.selected as int);
            }
            self.set_selected(i);
        }
    }

    /// Move selection down
    pub fn select_next(&mut self)
        ensures
            final(self).selected == moved_to(
                next_enabled(all_enabled(old(self).actions@.len()), old(self).selected as int),
                old(self).selected as int,
            ),
            final(self).context == old(self).context,
            final(self).actions == old(self).actions,
            final(self).repo_path == old(self).repo_path,
    {
        let items = self.items();
        let flags = item_flags(&items);
        assert(flags@ =~= all_enabled(self.actions@.len()));
        if let Some(i) = next_enabled_index(&flags, self.selected) {
            proof {
                super::lemma_next_enabled_range(flags@, self.selected as int);
            }
            self.set_selected(i);
        }
    }

    /// The result of choosing the selected action.
    fn choose_selected(&self) -> (res: MenuResult)
        requires
            self.selected < self.actions@.len(),
        ensures
            chosen_action(self.actions@[self.selected as int], self.repo_path@, res),
    {
        let action = &self.actions[self.selected];
        match &action.action_type {
            ActionType::App(app_action) => MenuResult::Execute(MenuAction::App(*app_action)),
            ActionType::Cli(cmd) => match CommandRequest::from_input(cmd.as_str()) {
                Some(request) => MenuResult::Execute(
                    MenuAction::Command(request.with_source(CommandSource::ActionMenu)),
                ),
                None => MenuResult::Close,
            },
            ActionType::Alias(alias) => {
                let request = CommandRequest::git_alias(
                    alias.name.as_str(),
                    alias.command.as_str(),
                    self.repo_path.as_str(),
                ).with_source(CommandSource::ActionMenu);
                MenuResult::Execute(MenuAction::Command(request))
            },
        }
    }

    /// Handle a key event: j/k and the arrows move, Enter chooses the
    /// selected action, Esc, q and m close the menu.
    pub fn handle_key(&mut self, key: KeyEvent) -> (res: MenuResult)
        ensures
            action_menu_step(*old(self), key.code, *final(self), res),
    {
        if key_is_up(key.code) {
            self.select_prev();
            return MenuResult::Continue;
        }
        if key_is_down(key.code) {
            self.select_next();
            return MenuResult::Continue;
        }
        match key.code {
            KeyCode::Enter => {
                if self.selected < self.actions.len() {
                    self.choose_selected()
                } else {
                    MenuResult::Continue
                }
            },
            KeyCode::Esc => MenuResult::Close,
            KeyCode::Char(c) => {
                if c == 'q' || c == 'm' {
                    MenuResult::Close
                } else {
                    MenuResult::Continue
                }
            },
            _ => MenuResult::Continue,
        }
    }
}

/// The effect of a key on an action menu: the new menu and the result.
pub open spec fn action_menu_step(o: ActionMenu, code: KeyCode, n: ActionMenu, res: MenuResult) -> bool {
    &&& is_up(code) ==> res is Continue && n.selected == moved_to(
        prev_enabled(all_enabled(o.actions@.len()), o.selected as int),
        o.selected as int
    )
    &&& is_down(code) ==> res is Continue && n.selected == moved_to(
        next_enabled(all_enabled(o.actions@.len()), o.selected as int),
        o.selected as int
    )
    &&& !is_up(code) && !is_down(code) ==> n.selected == o.selected
    &&& code == KeyCode::Enter ==> if o.selected < o.actions@.len() {
        chosen_action(
            o.actions@[o.selected as int],
            o.repo_path@,
            res,
        )
    } else {
        res is Continue
    }
    &&& closes_action_menu(code) ==> res is Close
    &&& !is_up(code) && !is_down(code) && code != KeyCode::Enter
        && !closes_action_menu(code) ==> res is Continue
    &&& n.context == o.context
    &&& n.actions == o.actions
    &&& n.repo_path == o.repo_path
}

} // verus!
