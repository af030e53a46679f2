//! Selection menu: a list of labelled values, one of which is chosen.
use vstd::prelude::*;

use crate::input::keymap::{KeyCode, KeyEvent};
use crate::text::owned;

use super::{
    clone_opt, is_down, is_up, item_flags, key_is_down, key_is_up, moved_to,
    next_enabled, next_enabled_index, opt_view, prev_enabled, prev_enabled_index, ItemStyle,
    MenuItem, MenuResult,
};

verus! {

/// A menu for selecting from a list of items
#[derive(Debug)]
pub struct SelectMenu<T> {
    /// Title for the menu
    pub title: String,
    /// Items with their associated values
    pub items: Vec<SelectItem<T>>,
    /// Currently selected index
    pub selected: usize,
}

/// An item in a selection menu
#[derive(Debug)]
pub struct SelectItem<T> {
    /// Display label
    pub label: String,
    /// Optional key hint
    pub key: Option<String>,
    /// Optional description
    pub description: Option<String>,
    /// Whether this item is enabled
    pub enabled: bool,
    /// The value associated with this item
    pub value: T,
}

/// `m` is the menu line of `s`: its label, key and description; a disabled
/// item is drawn as disabled.
pub open spec fn select_line<T>(s: SelectItem<T>, m: MenuItem) -> bool {
    &&& m.label@ == s.label@
    &&& opt_view(m.key_hint) == opt_view(s.key)
    &&& opt_view(m.description) == opt_view(s.description)
    &&& m.enabled == s.enabled
    &&& m.style == if s.enabled {
        ItemStyle::Normal
    } else {
        ItemStyle::Disabled
    }
}

/// Whether each item can be selected.
pub open spec fn select_flags<T>(items: Seq<SelectItem<T>>) -> Seq<bool> {
    items.map_values(|s: SelectItem<T>| s.enabled)
}

/// Keys that close a selection menu.
pub open spec fn closes_select(code: KeyCode) -> bool {
    code == KeyCode::Esc || code == KeyCode::Char('q') || code == KeyCode::Char('m')
}

impl<T> SelectItem<T> {
    /// Create a new select item
    pub fn new(label: &str, value: T) -> (res: Self)
        ensures
            res.label@ == label@,
            res.key is None,
            res.description is None,
            res.enabled,
            res.value == value,
    {
        SelectItem { label: owned(label), key: None, description: None, enabled: true, value }
    }

    /// Add a key hint
    pub fn with_key(self, key: &str) -> (res: Self)
        ensures
            res.label == self.label,
            opt_view(res.key) == Some(key@),
            res.description == self.description,
            res.enabled == self.enabled,
            res.value == self.value,
    {
        let mut item = self;
        item.key = Some(owned(key));
        item
    }

    /// Add a description
    pub fn with_description(self, desc: &str) -> (res: Self)
        ensures
            res.label == self.label,
            res.key == self.key,
            opt_view(res.description) == Some(desc@),
            res.enabled == self.enabled,
            res.value == self.value,
    {
        let mut item = self;
        item.description = Some(owned(desc));
        item
    }

    /// Set enabled state
    pub fn enabled(self, enabled: bool) -> (res: Self)
        ensures
            res == (SelectItem { enabled, ..self }),
    {
        let mut item = self;
        item.enabled = enabled;
        item
    }
}

impl<T> SelectMenu<T> {
    /// Create a new selection menu
    pub fn new(title: &str, items: Vec<SelectItem<T>>) -> (res: Self)
        ensures
            res.title@ == title@,
            res.items == items,
            res.selected == 0,
    {
        SelectMenu { title: owned(title), items, selected: 0 }
    }

    /// Get the currently selected value
    pub fn selected_value(&self) -> (res: Option<&T>)
        ensures
            match res {
                Some(v) => self.selected < self.items@.len() && *v == self.items@[self.selected as int].value,
                None => self.selected >= self.items@.len(),
            },
    {
        if self.selected < self.items.len() {
            Some(&self.items[self.selected].value)
        } else {
            None
        }
    }

    /// Title for the menu overlay
    pub fn title(&self) -> (res: &str)
        ensures
            res@ == self.title@,
    {
        self.title.as_str()
    }

    /// Items to display
    pub fn items(&self) -> (res: Vec<MenuItem>)
        ensures
            res@.len() == self.items@.len(),
            forall|i: int| 0 <= i < res@.len() ==> select_line(self.items@[i], #[trigger] res@[i]),
    {
        let mut res: Vec<MenuItem> = Vec::new();
        let n = self.items.len();
        for i in 0..n
            invariant
                n == self.items@.len(),
                res@.len() == i,
                forall|j: int| 0 <= j < i ==> select_line(self.items@[j], #[trigger] res@[j]),
        {
            let item = &self.items[i];
            let style = if item.enabled {
                ItemStyle::Normal
            } else {
                ItemStyle::Disabled
            };
            let line = MenuItem {
                label: item.label.clone(),
                description: clone_opt(&item.description),
                key_hint: clone_opt(&item.key),
                enabled: item.enabled,
                style,
            };
            res.push(line);
        }
        res
    }

    /// Currently selected index
    pub fn selected(&self) -> (res: usize)
        ensures
            res == self.selected,
    {
        self.selected
    }

    /// Set selection index (ignored past the last item)
    pub fn set_selected(&mut self, idx: usize)
        ensures
            final(self).selected == if idx < old(self).items@.len() {
                idx
            } else {
                old(self).selected
            },
            final(self).title == old(self).title,
            final(self).items == old(self).items,
    {
        if idx < self.items.len() {
            self.selected = idx;
        }
    }

    /// Move selection to the previous enabled item
    pub fn select_prev(&mut self)
        ensures
            final(self).selected == moved_to(
                prev_enabled(select_flags(old(self).items@), old(self).selected as int),
                old(self).selected as int,
            ),
            final(self).title == old(self).title,
            final(self).items == old(self).items,
    {
        let items = self.items();
        let flags = item_flags(&items);
        assert(flags@ =~= select_flags(self.items@));
        if let Some(i) = prev_enabled_index(&flags, self.selected) {
            proof {
                super::lemma_prev_enabled_range(flags@, self.selected as int);
            }
            self.set_selected(i);
        }
    }

    /// Move selection to the next enabled item
    pub fn select_next(&mut self)
        ensures
            final(self).selected == moved_to(
                next_enabled(select_flags(old(self).items@), old(self).selected as int),
                old(self).selected as int,
            ),
            final(self).title == old(self).title,
            final(self).items == old(self).items,
    {
        let items = self.items();
        let flags = item_flags(&items);
        assert(flags@ =~= select_flags(self.items@));
        if let Some(i) = next_enabled_index(&flags, self.selected) {
            proof {
                super::lemma_next_enabled_range(flags@, self.selected as int);
            }
            self.set_selected(i);
        }
    }

    /// Handle a key event: j/k and the arrows move over the enabled items,
    /// Enter on an enabled item closes the menu (the caller reads the chosen
    /// value), Esc, q and m close it.
    pub fn handle_key(&mut self, key: KeyEvent) -> (res: MenuResult)
        ensures
            select_step(*old(self), key.code, *final(self), res),
    {
        if key_is_up(key.code) {
            self.select_prev();
            return MenuResult::Continue;
        }
        if key_is_down(key.code) {
            self.select_next();
            return MenuResult::Continue;
        }
        match key.code {
            KeyCode::Enter => {
                if self.selected < self.items.len() && self.items[self.selected].enabled {
                    MenuResult::Close
                } else {
                    MenuResult::Continue
                }
            },
            KeyCode::Esc => MenuResult::Close,
            KeyCode::Char(c) => {
                if c == 'q' || c == 'm' {
                    MenuResult::Close
                } else {
                    MenuResult::Continue
                }
            },
            _ => MenuResult::Continue,
        }
    }
}

/// The effect of a key on a selection menu.
pub open spec fn select_step<T>(o: SelectMenu<T>, code: KeyCode, n: SelectMenu<T>, res: MenuResult) -> bool {
    &&& is_up(code) ==> res is Continue && n.selected == moved_to(
        prev_enabled(select_flags(o.items@), o.selected as int),
        o.selected as int
    )
    &&& is_down(code) ==> res is Continue && n.selected == moved_to(
        next_enabled(select_flags(o.items@), o.selected as int),
        o.selected as int
    )
    &&& !is_up(code) && !is_down(code) ==> n.selected == o.selected
    &&& code == KeyCode::Enter ==> if o.selected < o.items@.len()
        && o.items@[o.selected as int].enabled {
        res is Close
    } else {
        res is Continue
    }
    &&& closes_select(code) ==> res is Close
    &&& !is_up(code) && !is_down(code) && code != KeyCode::Enter
        && !closes_select(code) ==> res is Continue
    &&& n.title == o.title
    &&& n.items == o.items
}

} // verus!
