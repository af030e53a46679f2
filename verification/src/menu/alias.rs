//! Alias browser menus.
use vstd::prelude::*;

use crate::command::{alias_request, CommandRequest, CommandSource};
use crate::config::{clone_aliases, Alias, AliasSection};
use crate::input::keymap::{KeyCode, KeyEvent};
use crate::text::{decimal, push_decimal};

use super::action::all_enabled;
use super::{
    is_down, is_up, item_flags, key_is_down, key_is_up, moved_to, next_enabled,
    next_enabled_index, opt_view, prev_enabled, prev_enabled_index, ItemStyle, Menu, MenuAction,
    MenuItem, MenuResult,
};

verus! {

/// Menu for browsing alias sections
#[derive(Debug)]
pub struct AliasSectionMenu {
    /// The sections offered
    pub sections: Vec<AliasSection>,
    /// Repository in which aliases run
    pub repo_path: String,
    /// Currently selected index
    pub selected: usize,
}

/// Menu for browsing aliases within a section
#[derive(Debug)]
pub struct AliasItemsMenu {
    /// Name of the section shown
    pub section_name: String,
    /// The section's aliases
    pub aliases: Vec<Alias>,
    /// Repository in which aliases run
    pub repo_path: String,
    /// Currently selected index
    pub selected: usize,
}

/// `m` is the line of a section: its name, with the number of its aliases.
pub open spec fn section_item(s: AliasSection, m: MenuItem) -> bool {
    &&& m.label@ == s.name@
    &&& opt_view(m.description) == Some(decimal(s.aliases@.len()) + " aliases"@)
    &&& m.key_hint is None
    &&& m.enabled
    &&& m.style == ItemStyle::Normal
}

/// `m` is the line of an alias: its name, also as key hint, and its command.
pub open spec fn alias_item(a: Alias, m: MenuItem) -> bool {
    &&& m.label@ == a.name@
    &&& opt_view(m.key_hint) == Some(a.name@)
    &&& opt_view(m.description) == Some(a.command@)
    &&& m.enabled
    &&& m.style == ItemStyle::Normal
}

/// Keys that close the section menu.
pub open spec fn closes_sections(code: KeyCode) -> bool {
    code == KeyCode::Esc || code == KeyCode::Char('q') || code == KeyCode::Char('a')
}

/// Keys that go back from the aliases of a section to the sections.
pub open spec fn pops_items(code: KeyCode) -> bool {
    code == KeyCode::Esc || code == KeyCode::Char('q')
}

impl AliasSectionMenu {
    /// Create a new alias section menu
    pub fn new(sections: Vec<AliasSection>, repo_path: String) -> (res: Self)
        ensures
            res == (AliasSectionMenu { sections, repo_path, selected: 0 }),
    {
        AliasSectionMenu { sections, repo_path, selected: 0 }
    }

    /// Title for the menu overlay
    pub fn title(&self) -> (res: &'static str)
        ensures
            res@ == "Alias Sections"@,
    {
        "Alias Sections"
    }

    /// Items to display
    pub fn items(&self) -> (res: Vec<MenuItem>)
        ensures
            res@.len() == self.sections@.len(),
            forall|i: int|
                0 <= i < res@.len() ==> section_item(self.sections@[i], #[trigger] res@[i]),
    {
        let mut res: Vec<MenuItem> = Vec::new();
        let n = self.sections.len();
        for i in 0..n
            invariant
                n == self.sections@.len(),
                res@.len() == i,
                forall|j: int|
                    0 <= j < i ==> section_item(self.sections@[j], #[trigger] res@[j]),
        {
            let section = &self.sections[i];
            let mut count = String::new();
            push_decimal(&mut count, section.aliases.len() as u64);
            count.append(" aliases");
            let item = MenuItem::new(section.name.as_str()).with_description(count.as_str());
            res.push(item);
        }
        res
    }

    /// Currently selected index
    pub fn selected(&self) -> (res: usize)
        ensures
            res == self.selected,
    {
        self.selected
    }

    /// Set selection index (ignored past the last section)
    pub fn set_selected(&mut self, idx: usize)
        ensures
            final(self).selected == if idx < old(self).sections@.len() {
                idx
            } else {
                old(self).selected
            },
            final(self).sections == old(self).sections,
            final(self).repo_path == old(self).repo_path,
    {
        if idx < self.sections.len() {
            self.selected = idx;
        }
    }

    /// Move selection up
    pub fn select_prev(&mut self)
        ensures
            final(self).selected == moved_to(
                prev_enabled(all_enabled(old(self).sections@.len()), old(self).selected as int),
                old(self).selected as int,
            ),
            final(self).sections == old(self).sections,
            final(self).repo_path == old(self).repo_path,
    {
        let items = self.items();
        let flags = item_flags(&items);
        assert(flags@ =~= all_enabled(self.sections@.len()));
        if let Some(i) = prev_enabled_index(&flags, self.selected) {
            proof {
                super::lemma_prev_enabled_range(flags@, self.selected as int);
            }
            self.set_selected(i);
        }
    }

    /// Move selection down
    pub fn select_next(&mut self)
        ensures
            final(self).selected == moved_to(
                next_enabled(all_enabled(old(self).sections@.len()), old(self).selected as int),
                old(self).selected as int,
            ),
            final(self).sections == old(self).sections,
            final(self).repo_path == old(self).repo_path,
    {
        let items = self.items();
        let flags = item_flags(&items);
        assert(flags@ =~= all_enabled(self.sections@.len()));
        if let Some(i) = next_enabled_index(&flags, self.selected) {
            proof {
                super::lemma_next_enabled_range(flags@, self.selected as int);
            }
            self.set_selected(i);
        }
    }

    /// Handle a key event: j/k and the arrows move, Enter opens the selected
    /// section's aliases, Esc, q and a close the browser.
    pub fn handle_key(&mut self, key: KeyEvent) -> (res: MenuResult)
        ensures
            section_menu_step(*old(self), key.code, *final(self), res),
    {
        if key_is_up(key.code) {
            self.select_prev();
            return MenuResult::Continue;
        }
        if key_is_down(key.code) {
            self.select_next();
            return MenuResult::Continue;
        }
        match key.code {
            KeyCode::Enter => {
                if self.selected < self.sections.len() {
                    let section = &self.sections[self.selected];
                    let items_menu = AliasItemsMenu::new(
                        section.name.clone(),
                        clone_aliases(&section.aliases),
                        self.repo_path.clone(),
                    );
                    MenuResult::Push(Box::new(Menu::AliasItems(items_menu)))
                } else {
                    MenuResult::Continue
                }
            },
            KeyCode::Esc => MenuResult::Close,
            KeyCode::Char(c) => {
                if c == 'q' || c == 'a' {
                    MenuResult::Close
                } else {
                    MenuResult::Continue
                }
            },
            _ => MenuResult::Continue,
        }
    }
}

impl AliasItemsMenu {
    /// Create a new alias items menu
    pub fn new(section_name: String, aliases: Vec<Alias>, repo_path: String) -> (res: Self)
        ensures
            res == (AliasItemsMenu { section_name, aliases, repo_path, selected: 0 }),
    {
        AliasItemsMenu { section_name, aliases, repo_path, selected: 0 }
    }

    /// Title for the menu overlay: the section's name
    pub fn title(&self) -> (res: &str)
        ensures
            res@ == self.section_name@,
    {
        self.section_name.as_str()
    }

    /// Items to display
    pub fn items(&self) -> (res: Vec<MenuItem>)
        ensures
            res@.len() == self.aliases@.len(),
            forall|i: int| 0 <= i < res@.len() ==> alias_item(self.aliases@[i], #[trigger] res@[i]),
    {
        let mut res: Vec<MenuItem> = Vec::new();
        let n = self.aliases.len();
        for i in 0..n
            invariant
                n == self.aliases@.len(),
                res@.len() == i,
                forall|j: int| 0 <= j < i ==> alias_item(self.aliases@[j], #[trigger] res@[j]),
        {
            let alias = &self.aliases[i];
            let item = MenuItem::new(alias.name.as_str()).with_key(alias.name.as_str()).with_description(
                alias.command.as_str(),
            );
            res.push(item);
        }
        res
    }

    /// Currently selected index
    pub fn selected(&self) -> (res: usize)
        ensures
            res == self.selected,
    {
        self.selected
    }

    /// Set selection index (ignored past the last alias)
    pub fn set_selected(&mut self, idx: usize)
        ensures
            final(self).selected == if idx < old(self).aliases@.len() {
                idx
            } else {
                old(self).selected
            },
            final(self).section_name == old(self).section_name,
            final(self).aliases == old(self).aliases,
            final(self).repo_path == old(self).repo_path,
    {
        if idx < self.aliases.len() {
            self.selected = idx;
        }
    }

    /// Move selection up
    pub fn select_prev(&mut self)
        ensures
            final(self).selected == moved_to(
                prev_enabled(all_enabled(old(self).aliases@.len()), old(self).selected as int),
                old(self).selected as int,
            ),
            final(self).section_name == old(self).section_name,
            final(self).aliases == old(self).aliases,
            final(self).repo_path == old(self).repo_path,
    {
        let items = self.items();
        let flags = item_flags(&items);
        assert(flags@ =~= all_enabled(self.aliases@.len()));
        if let Some(i) = prev_enabled_index(&flags, self.selected) {
            proof {
                super::lemma_prev_enabled_range(flags@, self.selected as int);
            }
            self.set_selected(i);
        }
    }

    /// Move selection down
    pub fn select_next(&mut self)
        ensures
            final(self).selected == moved_to(
                next_enabled(all_enabled(old(self).aliases@.len()), old(self).selected as int),
                old(self).selected as int,
            ),
            final(self).section_name == old(self).section_name,
            final(self).aliases == old(self).aliases,
            final(self).repo_path == old(self).repo_path,
    {
        let items = self.items();
        let flags = item_flags(&items);
        assert(flags@ =~= all_enabled(self.aliases@.len()));
        if let Some(i) = next_enabled_index(&flags, self.selected) {
            proof {
                super::lemma_next_enabled_range(flags@, self.selected as int);
            }
            self.set_selected(i);
        }
    }

    /// Handle a key event: j/k and the arrows move, Enter runs the selected
    /// alias, Esc and q go back to the sections, a closes the browser.
    pub fn handle_key(&mut self, key: KeyEvent) -> (res: MenuResult)
        ensures
            items_menu_step(*old(self), key.code, *final(self), res),
    {
        if key_is_up(key.code) {
            self.select_prev();
            return MenuResult::Continue;
        }
        if key_is_down(key.code) {
            self.select_next();
            return MenuResult::Continue;
        }
        match key.code {
            KeyCode::Enter => {
                if self.selected < self.aliases.len() {
                    let alias = &self.aliases[self.selected];
                    let request = CommandRequest::git_alias(
                        alias.name.as_str(),
                        alias.command.as_str(),
                        self.repo_path.as_str(),
                    ).with_source(CommandSource::AliasBrowser);
                    MenuResult::Execute(MenuAction::Command(request))
                } else {
                    MenuResult::Continue
                }
            },
            KeyCode::Esc => MenuResult::Pop,
            KeyCode::Char(c) => {
                if c == 'q' {
                    MenuResult::Pop
                } else if c == 'a' {
                    MenuResult::CloseAll
                } else {
                    MenuResult::Continue
                }
            },
            _ => MenuResult::Continue,
        }
    }
}

/// The effect of a key on the section menu: the new menu and the result.
pub open spec fn section_menu_step(o: AliasSectionMenu, code: KeyCode, n: AliasSectionMenu, res: MenuResult) -> bool {
    &&& is_up(code) ==> res is Continue && n.selected == moved_to(
        prev_enabled(all_enabled(o.sections@.len()), o.selected as int),
        o.selected as int
    )
    &&& is_down(code) ==> res is Continue && n.selected == moved_to(
        next_enabled(all_enabled(o.sections@.len()), o.selected as int),
        o.selected as int
    )
    &&& !is_up(code) && !is_down(code) ==> n.selected == o.selected
    &&& code == KeyCode::Enter ==> if o.selected < o.sections@.len() {
        res matches MenuResult::Push(m) && *m matches Menu::AliasItems(items)
            && items.section_name == o.sections@[o.selected as int].name
            && items.aliases@ == o.sections@[o.selected as int].aliases@
            && items.repo_path == o.repo_path && items.selected == 0
    } else {
        res is Continue
    }
    &&& closes_sections(code) ==> res is Close
    &&& !is_up(code) && !is_down(code) && code != KeyCode::Enter
        && !closes_sections(code) ==> res is Continue
    &&& n.sections == o.sections
    &&& n.repo_path == o.repo_path
}

/// The effect of a key on the menu of a section's aliases.
pub open spec fn items_menu_step(o: AliasItemsMenu, code: KeyCode, n: AliasItemsMenu, res: MenuResult) -> bool {
    &&& is_up(code) ==> res is Continue && n.selected == moved_to(
        prev_enabled(all_enabled(o.aliases@.len()), o.selected as int),
        o.selected as int
    )
    &&& is_down(code) ==> res is Continue && n.selected == moved_to(
        next_enabled(all_enabled(o.aliases@.len()), o.selected as int),
        o.selected as int
    )
    &&& !is_up(code) && !is_down(code) ==> n.selected == o.selected
    &&& code == KeyCode::Enter ==> if o.selected < o.aliases@.len() {
        res matches MenuResult::Execute(MenuAction::Command(r)) && alias_request(
            o.aliases@[o.selected as int].name@,
            o.aliases@[o.selected as int].command@,
            o.repo_path@,
            r,
        ) && r.source == CommandSource::AliasBrowser
    } else {
        res is Continue
    }
    &&& pops_items(code) ==> res is Pop
    &&& code == KeyCode::Char('a') ==> res is CloseAll
    &&& !is_up(code) && !is_down(code) && code != KeyCode::Enter && !pops_items(
        code
    ) && code != KeyCode::Char('a') ==> res is Continue
    &&& n.section_name == o.section_name
    &&& n.aliases == o.aliases
    &&& n.repo_path == o.repo_path
}

} // verus!
