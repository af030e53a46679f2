//! Menu stack for nested menu navigation.
use vstd::prelude::*;

use crate::input::keymap::KeyEvent;

use super::{menu_step, Menu, MenuAction, MenuResult};

verus! {

/// Manages a stack of menus for nested navigation
#[derive(Debug)]
pub struct MenuStack {
    /// Stack of menus (last is active)
    stack: Vec<Menu>,
}

impl View for MenuStack {
    type V = Seq<Menu>;

    /// The menus from the bottom to the active one.
    closed spec fn view(&self) -> Seq<Menu> {
        self.stack@
    }
}

/// The stack after the active menu (taken off `rest`, and now `top`) answered
/// `r`: it stays for `Continue`, goes for `Close` and `Pop`, gets the new menu
/// on top of it for `Push`, and the whole stack goes for `Execute` and
/// `CloseAll`.
pub open spec fn stack_after(rest: Seq<Menu>, top: Menu, r: MenuResult) -> Seq<Menu> {
    match r {
        MenuResult::Continue => rest.push(top),
        MenuResult::Close => rest,
        MenuResult::Pop => rest,
        MenuResult::Execute(_) => Seq::empty(),
        MenuResult::Push(m) => rest.push(top).push(*m),
        MenuResult::CloseAll => Seq::empty(),
    }
}

/// The action an answer asks for.
pub open spec fn requested_action(r: MenuResult) -> Option<MenuAction> {
    match r {
        MenuResult::Execute(a) => Some(a),
        _ => None,
    }
}

impl MenuStack {
    /// Create an empty menu stack
    pub fn new() -> (res: Self)
        ensures
            res@ == Seq::<Menu>::empty(),
    {
        MenuStack { stack: Vec::new() }
    }

    /// Push a menu onto the stack
    pub fn push(&mut self, menu: Menu)
        ensures
            final(self)@ == old(self)@.push(menu),
    {
        self.stack.push(menu);
    }

    /// Pop the top menu from the stack
    pub fn pop(&mut self) -> (res: Option<Menu>)
        ensures
            old(self)@.len() == 0 ==> res is None && final(self)@ == old(self)@,
            old(self)@.len() > 0 ==> res == Some(old(self)@.last()) && final(self)@ == old(self)@.drop_last(),
    {
        self.stack.pop()
    }

    /// Get reference to current (top) menu
    pub fn current(&self) -> (res: Option<&Menu>)
        ensures
            match res {
                Some(m) => self@.len() > 0 && *m == self@.last(),
                None => self@.len() == 0,
            },
    {
        let n = self.stack.len();
        if n == 0 {
            None
        } else {
            Some(&self.stack[n - 1])
        }
    }

    /// Get mutable reference to current (top) menu
    pub fn current_mut(&mut self) -> (res: Option<&mut Menu>)
        ensures
            old(self)@.len() == 0 ==> res is None && final(self)@ == old(self)@,
            old(self)@.len() > 0 ==> res is Some && *res.unwrap() == old(self)@.last()
                && final(self)@ == old(self)@.update(
                old(self)@.len() - 1,
                *final(res.unwrap()),
            ),
    {
        self.stack.last_mut()
    }

    /// Check if any menu is active
    pub fn is_active(&self) -> (res: bool)
        ensures
            res == (self@.len() > 0),
    {
        self.stack.len() > 0
    }

    /// Clear all menus from the stack
    pub fn clear(&mut self)
        ensures
            final(self)@ == Seq::<Menu>::empty(),
    {
        self.stack.clear();
    }

    /// Get the depth of the menu stack
    pub fn depth(&self) -> (res: usize)
        ensures
            res == self@.len(),
    {
        self.stack.len()
    }

    /// Hand a key to the active menu and act on its answer; what it asks to
    /// execute is returned.  With no active menu nothing happens.
    pub fn handle_key(&mut self, key: KeyEvent) -> (res: Option<MenuAction>)
        ensures
            old(self)@.len() == 0 ==> res is None && final(self)@ == old(self)@,
            old(self)@.len() > 0 ==> exists|top: Menu, r: MenuResult|
                #[trigger] menu_step(old(self)@.last(), key.code, top, r) && final(self)@
                    == stack_after(old(self)@.drop_last(), top, r) && res == requested_action(r),
    {
        let top = self.stack.pop();
        match top {
            None => None,
            Some(menu) => {
                let ghost rest = self.stack@;
                let mut menu = menu;
                let r = menu.handle_key(key);
                let ghost r0 = r;
                let ghost top0 = menu;
                let res = match r {
                    MenuResult::Continue => {
                        self.stack.push(menu);
                        None
                    },
                    MenuResult::Close => None,
                    MenuResult::Pop => None,
                    MenuResult::Execute(action) => {
                        self.stack.clear();
                        Some(action)
                    },
                    MenuResult::Push(next) => {
                        self.stack.push(menu);
                        self.stack.push(*next);
                        None
                    },
                    MenuResult::CloseAll => {
                        self.stack.clear();
                        None
                    },
                };
                assert(self.stack@ == stack_after(rest, top0, r0));
                assert(menu_step(old(self)@.last(), key.code, top0, r0));
                res
            },
        }
    }
}

/// When a menu asks for something to be executed, every menu closes; a menu
/// that only moves keeps the stack as deep as it was, and one that pushes
/// deepens it by one.
pub proof fn lemma_stack_after_answer(rest: Seq<Menu>, top: Menu, r: MenuResult)
    ensures
        requested_action(r) is Some ==> stack_after(rest, top, r).len() == 0,
        r is Continue ==> stack_after(rest, top, r) == rest.push(top),
        r is Push ==> stack_after(rest, top, r).len() == rest.len() + 2,
        (r is Close || r is Pop) ==> stack_after(rest, top, r) == rest,
{
}

} // verus!
