//! Confirmation dialog implementation.
use vstd::prelude::*;

use crate::input::keymap::{KeyCode, KeyEvent};
use crate::text::{owned, str_eq};

use super::{is_down, is_up, key_is_down, key_is_up, MenuItem, MenuResult};

verus! {

/// A confirmation dialog with optional checkboxes
#[derive(Debug)]
pub struct ConfirmMenu {
    /// Title for the dialog
    pub title: String,
    /// Message to display
    pub message: String,
    /// Info lines to display (label: value pairs)
    pub info: Vec<(String, String)>,
    /// Checkbox options
    pub checkboxes: Vec<Checkbox>,
    /// Currently focused element (0 = confirm button, 1+ = checkboxes)
    pub focus: usize,
}

/// A checkbox option in a confirmation dialog
#[derive(Debug)]
pub struct Checkbox {
    /// Label for the checkbox
    pub label: String,
    /// Key identifier
    pub key: String,
    /// Current checked state
    pub checked: bool,
    /// Keyboard shortcut to toggle
    pub shortcut: Option<char>,
}

/// The value of the first checkbox from index `i` on whose key is `key`;
/// false when there is none.
pub open spec fn checkbox_value_from(cbs: Seq<Checkbox>, key: Seq<char>, i: int) -> bool
    decreases cbs.len() - i,
{
    if i < 0 || i >= cbs.len() {
        false
    } else if cbs[i].key@ == key {
        cbs[i].checked
    } else {
        checkbox_value_from(cbs, key, i + 1)
    }
}

/// The first checkbox from index `i` on whose shortcut is `c`.
pub open spec fn shortcut_from(cbs: Seq<Checkbox>, c: char, i: int) -> Option<int>
    decreases cbs.len() - i,
{
    if i < 0 || i >= cbs.len() {
        None
    } else if cbs[i].shortcut == Some(c) {
        Some(i)
    } else {
        shortcut_from(cbs, c, i + 1)
    }
}

/// The checkboxes with the one at `i` flipped.
pub open spec fn toggle_at(cbs: Seq<Checkbox>, i: int) -> Seq<Checkbox> {
    cbs.update(i, Checkbox { checked: !cbs[i].checked, ..cbs[i] })
}

/// The checkboxes after toggling the focused one (focus 0 is the button).
pub open spec fn toggle_focused_spec(cbs: Seq<Checkbox>, focus: int) -> Seq<Checkbox> {
    if 0 < focus && focus - 1 < cbs.len() {
        toggle_at(cbs, focus - 1)
    } else {
        cbs
    }
}

/// The checkboxes after pressing character `c`: the first checkbox with that
/// shortcut flips.
pub open spec fn after_shortcut(cbs: Seq<Checkbox>, c: char) -> Seq<Checkbox> {
    match shortcut_from(cbs, c, 0) {
        Some(i) => toggle_at(cbs, i),
        None => cbs,
    }
}

/// Keys that cancel the dialog.
pub open spec fn cancels(code: KeyCode) -> bool {
    code == KeyCode::Esc || code == KeyCode::Char('n') || code == KeyCode::Char('q')
}

/// Characters with a meaning of their own, which never reach a shortcut.
pub open spec fn reserved_char(c: char) -> bool {
    c == 'k' || c == 'j' || c == ' ' || c == 'y' || c == 'n' || c == 'q'
}

proof fn lemma_shortcut_from_range(cbs: Seq<Checkbox>, c: char, i: int)
    ensures
        shortcut_from(cbs, c, i) matches Some(j) ==> i <= j < cbs.len(),
    decreases cbs.len() - i,
{
    if 0 <= i < cbs.len() {
        lemma_shortcut_from_range(cbs, c, i + 1);
    }
}

impl Checkbox {
    /// Create a new checkbox
    pub fn new(label: &str, key: &str) -> (res: Self)
        ensures
            res.label@ == label@,
            res.key@ == key@,
            !res.checked,
            res.shortcut is None,
    {
        Checkbox { label: owned(label), key: owned(key), checked: false, shortcut: None }
    }

    /// Set initial checked state
    pub fn checked(self, checked: bool) -> (res: Self)
        ensures
            res == (Checkbox { checked, ..self }),
    {
        let mut cb = self;
        cb.checked = checked;
        cb
    }

    /// Set keyboard shortcut
    pub fn with_shortcut(self, shortcut: char) -> (res: Self)
        ensures
            res == (Checkbox { shortcut: Some(shortcut), ..self }),
    {
        let mut cb = self;
        cb.shortcut = Some(shortcut);
        cb
    }

    /// The same checkbox with its state flipped.
    fn toggled(&self) -> (res: Self)
        ensures
            res == (Checkbox { checked: !self.checked, ..*self }),
    {
        Checkbox {
            label: self.label.clone(),
            key: self.key.clone(),
            checked: !self.checked,
            shortcut: self.shortcut,
        }
    }
}

impl ConfirmMenu {
    /// Create a new confirmation dialog
    pub fn new(title: &str, message: &str) -> (res: Self)
        ensures
            res.title@ == title@,
            res.message@ == message@,
            res.info@.len() == 0,
            res.checkboxes@.len() == 0,
            res.focus == 0,
    {
        ConfirmMenu {
            title: owned(title),
            message: owned(message),
            info: Vec::new(),
            checkboxes: Vec::new(),
            focus: 0,
        }
    }

    /// Add an info line
    pub fn with_info(self, label: &str, value: &str) -> (res: Self)
        ensures
            res.title == self.title,
            res.message == self.message,
            res.info@.len() == self.info@.len() + 1,
            res.info@.drop_last() == self.info@,
            res.info@.last().0@ == label@,
            res.info@.last().1@ == value@,
            res.checkboxes == self.checkboxes,
            res.focus == self.focus,
    {
        let mut menu = self;
        menu.info.push((owned(label), owned(value)));
        menu
    }

    /// Add a checkbox
    pub fn with_checkbox(self, checkbox: Checkbox) -> (res: Self)
        ensures
            res.title == self.title,
            res.message == self.message,
            res.info == self.info,
            res.checkboxes@ == self.checkboxes@.push(checkbox),
            res.focus == self.focus,
    {
        let mut menu = self;
        menu.checkboxes.push(checkbox);
        menu
    }

    /// Get checkbox value by key: the state of the first checkbox with that
    /// key, false when there is none.
    pub fn get_checkbox(&self, key: &str) -> (res: bool)
        ensures
            res == checkbox_value_from(self.checkboxes@, key@, 0),
    {
        let n = self.checkboxes.len();
        for i in 0..n
            invariant
                n == self.checkboxes@.len(),
                checkbox_value_from(self.checkboxes@, key@, 0) == checkbox_value_from(
                    self.checkboxes@,
                    key@,
                    i as int,
                ),
        {
            if str_eq(self.checkboxes[i].key.as_str(), key) {
                return self.checkboxes[i].checked;
            }
        }
        false
    }

    /// Toggle the focused checkbox
    pub fn toggle_focused(&mut self)
        ensures
            final(self).checkboxes@ == toggle_focused_spec(
                old(self).checkboxes@,
                old(self).focus as int,
            ),
            final(self).title == old(self).title,
            final(self).message == old(self).message,
            final(self).info == old(self).info,
            final(self).focus == old(self).focus,
    {
        if self.focus > 0 {
            let idx = self.focus - 1;
            if idx < self.checkboxes.len() {
                let cb = self.checkboxes[idx].toggled();
                self.checkboxes.set(idx, cb);
            }
        }
    }

    /// Handle shortcut key: flips the first checkbox with that shortcut and
    /// tells whether there was one.
    pub fn handle_shortcut(&mut self, c: char) -> (res: bool)
        ensures
            res == shortcut_from(old(self).checkboxes@, c, 0) is Some,
            final(self).checkboxes@ == after_shortcut(old(self).checkboxes@, c),
            final(self).title == old(self).title,
            final(self).message == old(self).message,
            final(self).info == old(self).info,
            final(self).focus == old(self).focus,
    {
        let n = self.checkboxes.len();
        for i in 0..n
            invariant
                n == self.checkboxes@.len(),
                *self == *old(self),
                shortcut_from(self.checkboxes@, c, 0) == shortcut_from(
                    self.checkboxes@,
                    c,
                    i as int,
                ),
        {
            let hit = match self.checkboxes[i].shortcut {
                Some(s) => s == c,
                None => false,
            };
            if hit {
                let cb = self.checkboxes[i].toggled();
                self.checkboxes.set(i, cb);
                return true;
            }
        }
        false
    }

    /// Title for the dialog
    pub fn title(&self) -> (res: &str)
        ensures
            res@ == self.title@,
    {
        self.title.as_str()
    }

    /// A dialog draws its own lines: it lists no items.
    pub fn items(&self) -> (res: Vec<MenuItem>)
        ensures
            res@.len() == 0,
    {
        Vec::new()
    }

    /// Currently focused element
    pub fn selected(&self) -> (res: usize)
        ensures
            res == self.focus,
    {
        self.focus
    }

    /// Set the focus: 0 is the confirm button, `i` the i-th checkbox
    pub fn set_selected(&mut self, idx: usize)
        ensures
            final(self).focus == if idx <= old(self).checkboxes@.len() {
                idx
            } else {
                old(self).focus
            },
            final(self).title == old(self).title,
            final(self).message == old(self).message,
            final(self).info == old(self).info,
            final(self).checkboxes == old(self).checkboxes,
    {
        if idx <= self.checkboxes.len() {
            self.focus = idx;
        }
    }

    /// Handle a key event: j/k and the arrows move the focus, Space (and Enter
    /// on a checkbox) flips the focused checkbox, Enter on the button and y
    /// confirm, Esc, n and q cancel, another character flips the checkbox with
    /// that shortcut.
    pub fn handle_key(&mut self, key: KeyEvent) -> (res: MenuResult)
        ensures
            confirm_step(*old(self), key.code, *final(self), res),
    {
        if key_is_up(key.code) {
            if self.focus > 0 {
                self.focus = self.focus - 1;
            }
            return MenuResult::Continue;
        }
        if key_is_down(key.code) {
            if self.focus < self.checkboxes.len() {
                self.focus = self.focus + 1;
            }
            return MenuResult::Continue;
        }
        match key.code {
            KeyCode::Enter => {
                if self.focus == 0 {
                    MenuResult::Close
                } else {
                    self.toggle_focused();
                    MenuResult::Continue
                }
            },
            KeyCode::Esc => MenuResult::CloseAll,
            KeyCode::Char(c) => {
                if c == ' ' {
                    self.toggle_focused();
                    MenuResult::Continue
                } else if c == 'y' {
                    MenuResult::Close
                } else if c == 'n' || c == 'q' {
                    MenuResult::CloseAll
                } else {
                    self.handle_shortcut(c);
                    MenuResult::Continue
                }
            },
            _ => MenuResult::Continue,
        }
    }
}

/// The effect of a key on a confirmation dialog.
pub open spec fn confirm_step(o: ConfirmMenu, code: KeyCode, n: ConfirmMenu, res: MenuResult) -> bool {
    &&& n.title == o.title
    &&& n.message == o.message
    &&& n.info == o.info
    &&& is_up(code) ==> res is Continue && n.checkboxes == o.checkboxes
        && n.focus == if o.focus > 0 {
        o.focus - 1
    } else {
        o.focus as int
    }
    &&& is_down(code) ==> res is Continue && n.checkboxes == o.checkboxes
        && n.focus == if o.focus < o.checkboxes@.len() {
        o.focus + 1
    } else {
        o.focus as int
    }
    &&& !is_up(code) && !is_down(code) ==> n.focus == o.focus
    &&& code == KeyCode::Char(' ') ==> res is Continue && n.checkboxes@
        == toggle_focused_spec(o.checkboxes@, o.focus as int)
    &&& code == KeyCode::Enter ==> if o.focus == 0 {
        res is Close && n.checkboxes == o.checkboxes
    } else {
        res is Continue && n.checkboxes@ == toggle_focused_spec(
            o.checkboxes@,
            o.focus as int,
        )
    }
    &&& code == KeyCode::Char('y') ==> res is Close && n.checkboxes
        == o.checkboxes
    &&& cancels(code) ==> res is CloseAll && n.checkboxes
        == o.checkboxes
    &&& code matches KeyCode::Char(c) ==> (!reserved_char(c) ==> res is Continue
        && n.checkboxes@ == after_shortcut(o.checkboxes@, c))
    &&& !(code is Char) && !is_up(code) && !is_down(code) && code
        != KeyCode::Enter && code != KeyCode::Esc ==> res is Continue
        && n.checkboxes == o.checkboxes
}

/// Flipping the focused checkbox twice leaves the checkboxes as they were.
pub proof fn lemma_toggle_twice(cbs: Seq<Checkbox>, focus: int)
    ensures
        toggle_focused_spec(toggle_focused_spec(cbs, focus), focus) == cbs,
{
    if 0 < focus && focus - 1 < cbs.len() {
        assert(toggle_at(toggle_at(cbs, focus - 1), focus - 1) =~= cbs);
    }
}

} // verus!
