//! Modular menu and prompt system.
//!
//! Provides composable menus with stack-based navigation.  Every kind of menu
//! is a variant of [`Menu`]; a key handed to a menu yields a [`MenuResult`]
//! that tells the stack what to do next.
use vstd::prelude::*;

pub mod action;
pub mod alias;
pub mod confirm;
pub mod push;
pub mod select;
pub mod stack;

pub use action::ActionMenu;
pub use alias::{AliasItemsMenu, AliasSectionMenu};
pub use confirm::{Checkbox, ConfirmMenu};
pub use push::PushConfirmMenu;
pub use select::{SelectItem, SelectMenu};
pub use stack::MenuStack;

use crate::actions::context::context_name;
use crate::actions::AppAction;
use crate::command::CommandRequest;
use crate::input::keymap::{KeyCode, KeyEvent};
use action::{action_item, action_menu_step, all_enabled};
use alias::{alias_item, items_menu_step, section_item, section_menu_step};
use confirm::confirm_step;
use push::push_step;
use crate::text::owned;

verus! {

/// Visual style for menu items
#[derive(Debug, Clone, Copy, PartialEq, Eq, Structural)]
pub enum ItemStyle {
    /// Normal selectable item
    Normal,
    /// Disabled/grayed out
    Disabled,
    /// Visual separator line
    Separator,
    /// Section header (not selectable)
    Header,
    /// Checkbox with state
    Checkbox { checked: bool },
}

/// A menu item for display
#[derive(Debug)]
pub struct MenuItem {
    /// Display label
    pub label: String,
    /// Optional description/help text
    pub description: Option<String>,
    /// Optional keyboard shortcut hint
    pub key_hint: Option<String>,
    /// Whether this item can be selected
    pub enabled: bool,
    /// Visual style
    pub style: ItemStyle,
}

/// The view of an optional string.
pub open spec fn opt_view(o: Option<String>) -> Option<Seq<char>> {
    match o {
        Some(s) => Some(s@),
        None => None,
    }
}

/// A copy of an optional string.
pub fn clone_opt(o: &Option<String>) -> (res: Option<String>)
    ensures
        res == *o,
{
    match o {
        Some(s) => Some(s.clone()),
        None => None,
    }
}

impl Clone for MenuItem {
    fn clone(&self) -> (res: Self)
        ensures
            res == *self,
    {
        MenuItem {
            label: self.label.clone(),
            description: clone_opt(&self.description),
            key_hint: clone_opt(&self.key_hint),
            enabled: self.enabled,
            style: self.style,
        }
    }
}

impl MenuItem {
    /// Create a normal menu item
    pub fn new(label: &str) -> (res: Self)
        ensures
            res.label@ == label@,
            res.description is None,
            res.key_hint is None,
            res.enabled,
            res.style == ItemStyle::Normal,
    {
        MenuItem {
            label: owned(label),
            description: None,
            key_hint: None,
            enabled: true,
            style: ItemStyle::Normal,
        }
    }

    /// Add a description
    pub fn with_description(self, desc: &str) -> (res: Self)
        ensures
            res.label == self.label,
            opt_view(res.description) == Some(desc@),
            res.key_hint == self.key_hint,
            res.enabled == self.enabled,
            res.style == self.style,
    {
        let mut item = self;
        item.description = Some(owned(desc));
        item
    }

    /// Add a key hint
    pub fn with_key(self, key: &str) -> (res: Self)
        ensures
            res.label == self.label,
            res.description == self.description,
            opt_view(res.key_hint) == Some(key@),
            res.enabled == self.enabled,
            res.style == self.style,
    {
        let mut item = self;
        item.key_hint = Some(owned(key));
        item
    }

    /// Set enabled state
    pub fn enabled(self, enabled: bool) -> (res: Self)
        ensures
            res == (MenuItem { enabled, ..self }),
    {
        let mut item = self;
        item.enabled = enabled;
        item
    }

    /// Set style
    pub fn with_style(self, style: ItemStyle) -> (res: Self)
        ensures
            res == (MenuItem { style, ..self }),
    {
        let mut item = self;
        item.style = style;
        item
    }

    /// Create a separator
    pub fn separator() -> (res: Self)
        ensures
            res.label@ == Seq::<char>::empty(),
            res.description is None,
            res.key_hint is None,
            !res.enabled,
            res.style == ItemStyle::Separator,
    {
        MenuItem {
            label: String::new(),
            description: None,
            key_hint: None,
            enabled: false,
            style: ItemStyle::Separator,
        }
    }

    /// Create a header item
    pub fn header(label: &str) -> (res: Self)
        ensures
            res.label@ == label@,
            res.description is None,
            res.key_hint is None,
            !res.enabled,
            res.style == ItemStyle::Header,
    {
        MenuItem {
            label: owned(label),
            description: None,
            key_hint: None,
            enabled: false,
            style: ItemStyle::Header,
        }
    }

    /// Create a checkbox item
    pub fn checkbox(label: &str, checked: bool) -> (res: Self)
        ensures
            res.label@ == label@,
            res.description is None,
            res.key_hint is None,
            res.enabled,
            res.style == (ItemStyle::Checkbox { checked }),
    {
        MenuItem {
            label: owned(label),
            description: None,
            key_hint: None,
            enabled: true,
            style: ItemStyle::Checkbox { checked },
        }
    }
}

/// Action to execute after menu closes
#[derive(Debug)]
pub enum MenuAction {
    /// Execute a command
    Command(CommandRequest),
    /// Trigger an app action
    App(AppAction),
}

/// Result of menu interaction
#[derive(Debug)]
pub enum MenuResult {
    /// Keep menu open, no action
    Continue,
    /// Close this menu only
    Close,
    /// Close menu and execute action
    Execute(MenuAction),
    /// Push a new menu onto the stack
    Push(Box<Menu>),
    /// Pop back to previous menu
    Pop,
    /// Clear entire menu stack
    CloseAll,
}

/// A menu that can be shown and interacted with.
#[derive(Debug)]
pub enum Menu {
    /// Contextual actions
    Action(ActionMenu),
    /// Alias sections of the alias browser
    AliasSections(AliasSectionMenu),
    /// Aliases of one section
    AliasItems(AliasItemsMenu),
    /// A confirmation dialog
    Confirm(ConfirmMenu),
    /// The push confirmation dialog
    Push(PushConfirmMenu),
}

// ---------------------------------------------------------------------------
// Moving the selection over the selectable items
// ---------------------------------------------------------------------------

/// Whether each item can be selected.
pub open spec fn enabled_flags(items: Seq<MenuItem>) -> Seq<bool> {
    items.map_values(|m: MenuItem| m.enabled)
}

/// The nearest selectable index before `cur`.
pub open spec fn prev_enabled(flags: Seq<bool>, cur: int) -> Option<int>
    decreases cur,
{
    if cur <= 0 {
        None
    } else if cur - 1 < flags.len() && flags[cur - 1] {
        Some(cur - 1)
    } else {
        prev_enabled(flags, cur - 1)
    }
}

/// The nearest selectable index after `cur`.
pub open spec fn next_enabled(flags: Seq<bool>, cur: int) -> Option<int>
    decreases flags.len() - cur,
{
    if cur + 1 >= flags.len() {
        None
    } else if flags[cur + 1] {
        Some(cur + 1)
    } else {
        next_enabled(flags, cur + 1)
    }
}

/// The selection after a move: the found index, or `cur` when there is none.
pub open spec fn moved_to(found: Option<int>, cur: int) -> int {
    match found {
        Some(i) => i,
        None => cur,
    }
}

/// Where a found index lies.
pub proof fn lemma_prev_enabled_range(flags: Seq<bool>, cur: int)
    ensures
        prev_enabled(flags, cur) matches Some(i) ==> 0 <= i < cur && i < flags.len() && flags[i],
    decreases cur,
{
    if cur > 0 {
        lemma_prev_enabled_range(flags, cur - 1);
    }
}

/// Where a found index lies.
pub proof fn lemma_next_enabled_range(flags: Seq<bool>, cur: int)
    ensures
        next_enabled(flags, cur) matches Some(i) ==> cur < i < flags.len() && flags[i],
    decreases flags.len() - cur,
{
    if cur + 1 < flags.len() {
        lemma_next_enabled_range(flags, cur + 1);
    }
}

/// Whether each item can be selected.
pub fn item_flags(items: &Vec<MenuItem>) -> (res: Vec<bool>)
    ensures
        res@ == enabled_flags(items@),
{
    let mut res: Vec<bool> = Vec::new();
    let n = items.len();
    for i in 0..n
        invariant
            n == items@.len(),
            res@ == enabled_flags(items@.take(i as int)),
    {
        res.push(items[i].enabled);
        assert(enabled_flags(items@.take(i + 1)) =~= enabled_flags(items@.take(i as int)).push(
            items@[i as int].enabled,
        ));
    }
    assert(items@.take(n as int) =~= items@);
    res
}

/// The nearest selectable index before `current`.
pub fn prev_enabled_index(flags: &Vec<bool>, current: usize) -> (res: Option<usize>)
    ensures
        match res {
            Some(i) => prev_enabled(flags@, current as int) == Some(i as int),
            None => prev_enabled(flags@, current as int) is None,
        },
{
    let mut i = current;
    while i > 0
        invariant
            i <= current,
            prev_enabled(flags@, current as int) == prev_enabled(flags@, i as int),
        decreases i,
    {
        if i - 1 < flags.len() && flags[i - 1] {
            return Some(i - 1);
        }
        i = i - 1;
    }
    None
}

/// The nearest selectable index after `current`.
pub fn next_enabled_index(flags: &Vec<bool>, current: usize) -> (res: Option<usize>)
    ensures
        match res {
            Some(i) => next_enabled(flags@, current as int) == Some(i as int),
            None => next_enabled(flags@, current as int) is None,
        },
{
    if current >= flags.len() {
        return None;
    }
    let mut i = current + 1;
    while i < flags.len()
        invariant
            current < i <= flags@.len(),
            next_enabled(flags@, current as int) == next_enabled(flags@, i - 1),
        decreases flags@.len() - i,
    {
        if flags[i] {
            return Some(i);
        }
        i = i + 1;
    }
    None
}

/// Keys that move the selection up.
pub open spec fn is_up(code: KeyCode) -> bool {
    code == KeyCode::Up || code == KeyCode::Char('k')
}

/// Keys that move the selection down.
pub open spec fn is_down(code: KeyCode) -> bool {
    code == KeyCode::Down || code == KeyCode::Char('j')
}

/// Whether the key moves the selection up.
pub fn key_is_up(code: KeyCode) -> (res: bool)
    ensures
        res == is_up(code),
{
    match code {
        KeyCode::Up => true,
        KeyCode::Char(c) => c == 'k',
        _ => false,
    }
}

/// Whether the key moves the selection down.
pub fn key_is_down(code: KeyCode) -> (res: bool)
    ensures
        res == is_down(code),
{
    match code {
        KeyCode::Down => true,
        KeyCode::Char(c) => c == 'j',
        _ => false,
    }
}

// ---------------------------------------------------------------------------
// A menu of any kind
// ---------------------------------------------------------------------------

/// The title of a menu.
pub open spec fn menu_title(m: Menu) -> Seq<char> {
    match m {
        Menu::Action(a) => context_name(a.context),
        Menu::AliasSections(_) => "Alias Sections"@,
        Menu::AliasItems(a) => a.section_name@,
        Menu::Confirm(c) => c.title@,
        Menu::Push(_) => "Push Confirmation"@,
    }
}

/// `items` are the lines a menu lists.
pub open spec fn menu_lines(m: Menu, items: Seq<MenuItem>) -> bool {
    match m {
        Menu::Action(a) => items.len() == a.actions@.len() && forall|i: int|
            0 <= i < items.len() ==> action_item(a.actions@[i], #[trigger] items[i]),
        Menu::AliasSections(a) => items.len() == a.sections@.len() && forall|i: int|
            0 <= i < items.len() ==> section_item(a.sections@[i], #[trigger] items[i]),
        Menu::AliasItems(a) => items.len() == a.aliases@.len() && forall|i: int|
            0 <= i < items.len() ==> alias_item(a.aliases@[i], #[trigger] items[i]),
        Menu::Confirm(_) => items.len() == 0,
        Menu::Push(_) => items.len() == 0,
    }
}

/// The selected index (the focus of a dialog).
pub open spec fn menu_selected(m: Menu) -> usize {
    match m {
        Menu::Action(a) => a.selected,
        Menu::AliasSections(a) => a.selected,
        Menu::AliasItems(a) => a.selected,
        Menu::Confirm(c) => c.focus,
        Menu::Push(p) => p.focus,
    }
}

/// How many positions the selection can take.
pub open spec fn selection_limit(m: Menu) -> int {
    match m {
        Menu::Action(a) => a.actions@.len() as int,
        Menu::AliasSections(a) => a.sections@.len() as int,
        Menu::AliasItems(a) => a.aliases@.len() as int,
        Menu::Confirm(c) => c.checkboxes@.len() + 1int,
        Menu::Push(_) => 2,
    }
}

/// The menu with its selection at `idx`.
pub open spec fn with_selected(m: Menu, idx: usize) -> Menu {
    match m {
        Menu::Action(a) => Menu::Action(ActionMenu { selected: idx, ..a }),
        Menu::AliasSections(a) => Menu::AliasSections(AliasSectionMenu { selected: idx, ..a }),
        Menu::AliasItems(a) => Menu::AliasItems(AliasItemsMenu { selected: idx, ..a }),
        Menu::Confirm(c) => Menu::Confirm(ConfirmMenu { focus: idx, ..c }),
        Menu::Push(p) => Menu::Push(PushConfirmMenu { focus: idx, ..p }),
    }
}

/// Which lines of a menu can be selected by moving up and down; a dialog
/// moves its focus by itself and lists none.
pub open spec fn menu_flags(m: Menu) -> Seq<bool> {
    match m {
        Menu::Action(a) => all_enabled(a.actions@.len()),
        Menu::AliasSections(a) => all_enabled(a.sections@.len()),
        Menu::AliasItems(a) => all_enabled(a.aliases@.len()),
        Menu::Confirm(_) => Seq::empty(),
        Menu::Push(_) => Seq::empty(),
    }
}

/// The effect of a key on a menu: the menu stays of its kind, and changes
/// and answers as that kind does.
pub open spec fn menu_step(o: Menu, code: KeyCode, n: Menu, res: MenuResult) -> bool {
    match (o, n) {
        (Menu::Action(a), Menu::Action(b)) => action_menu_step(a, code, b, res),
        (Menu::AliasSections(a), Menu::AliasSections(b)) => section_menu_step(a, code, b, res),
        (Menu::AliasItems(a), Menu::AliasItems(b)) => items_menu_step(a, code, b, res),
        (Menu::Confirm(a), Menu::Confirm(b)) => confirm_step(a, code, b, res),
        (Menu::Push(a), Menu::Push(b)) => push_step(a, code, b, res),
        _ => false,
    }
}

impl Menu {
    /// Title for the menu overlay
    pub fn title(&self) -> (res: &str)
        ensures
            res@ == menu_title(*self),
    {
        match self {
            Menu::Action(a) => a.title(),
            Menu::AliasSections(a) => a.title(),
            Menu::AliasItems(a) => a.title(),
            Menu::Confirm(c) => c.title(),
            Menu::Push(p) => p.title(),
        }
    }

    /// Items to display
    pub fn items(&self) -> (res: Vec<MenuItem>)
        ensures
            menu_lines(*self, res@),
    {
        match self {
            Menu::Action(a) => a.items(),
            Menu::AliasSections(a) => a.items(),
            Menu::AliasItems(a) => a.items(),
            Menu::Confirm(c) => c.items(),
            Menu::Push(p) => p.items(),
        }
    }

    /// Currently selected index
    pub fn selected(&self) -> (res: usize)
        ensures
            res == menu_selected(*self),
    {
        match self {
            Menu::Action(a) => a.selected(),
            Menu::AliasSections(a) => a.selected(),
            Menu::AliasItems(a) => a.selected(),
            Menu::Confirm(c) => c.selected(),
            Menu::Push(p) => p.selected(),
        }
    }

    /// Set selection index (ignored out of range)
    pub fn set_selected(&mut self, idx: usize)
        ensures
            *final(self) == if idx < selection_limit(*old(self)) {
                with_selected(*old(self), idx)
            } else {
                *old(self)
            },
    {
        match self {
            Menu::Action(a) => a.set_selected(idx),
            Menu::AliasSections(a) => a.set_selected(idx),
            Menu::AliasItems(a) => a.set_selected(idx),
            Menu::Confirm(c) => c.set_selected(idx),
            Menu::Push(p) => p.set_selected(idx),
        }
    }

    /// Move selection up to the previous selectable line
    pub fn select_prev(&mut self)
        ensures
            *final(self) == with_selected(
                *old(self),
                moved_to(
                    prev_enabled(menu_flags(*old(self)), menu_selected(*old(self)) as int),
                    menu_selected(*old(self)) as int,
                ) as usize,
            ),
    {
        proof {
            lemma_prev_enabled_range(menu_flags(*self), menu_selected(*self) as int);
        }
        match self {
            Menu::Action(a) => a.select_prev(),
            Menu::AliasSections(a) => a.select_prev(),
            Menu::AliasItems(a) => a.select_prev(),
            Menu::Confirm(_) => {},
            Menu::Push(_) => {},
        }
    }

    /// Move selection down to the next selectable line
    pub fn select_next(&mut self)
        ensures
            *final(self) == with_selected(
                *old(self),
                moved_to(
                    next_enabled(menu_flags(*old(self)), menu_selected(*old(self)) as int),
                    menu_selected(*old(self)) as int,
                ) as usize,
            ),
    {
        proof {
            lemma_next_enabled_range(menu_flags(*self), menu_selected(*self) as int);
        }
        match self {
            Menu::Action(a) => a.select_next(),
            Menu::AliasSections(a) => a.select_next(),
            Menu::AliasItems(a) => a.select_next(),
            Menu::Confirm(_) => {},
            Menu::Push(_) => {},
        }
    }

    /// Handle a key event
    pub fn handle_key(&mut self, key: KeyEvent) -> (res: MenuResult)
        ensures
            menu_step(*old(self), key.code, *final(self), res),
    {
        match self {
            Menu::Action(a) => a.handle_key(key),
            Menu::AliasSections(a) => a.handle_key(key),
            Menu::AliasItems(a) => a.handle_key(key),
            Menu::Confirm(c) => c.handle_key(key),
            Menu::Push(p) => p.handle_key(key),
        }
    }
}

} // verus!
