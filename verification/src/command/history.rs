//! Command history with navigation.  Loading and saving it is the caller's
//! business: `new` takes what was stored, `add` reports whether there is
//! something new to store.
use vstd::prelude::*;

use super::strings_view;
use crate::text::{chars_of, trim, trim_chars};

verus! {

/// Maximum number of commands to keep in history
pub const MAX_HISTORY: usize = 100;

/// Manages command history with navigation
#[derive(Debug)]
pub struct CommandHistory {
    /// Commands in history (oldest first)
    commands: Vec<String>,
    /// Current navigation index (None = not navigating)
    nav_index: Option<usize>,
}

/// The entry that navigating to an older command lands on.
pub open spec fn older_index(len: nat, nav: Option<usize>) -> int {
    match nav {
        None => if len > 0 {
            len - 1
        } else {
            0
        },
        Some(i) => if i > 0 {
            i - 1
        } else {
            0
        },
    }
}

/// The history after adding `c`: unchanged for a blank command or a repeat of
/// the last one, else `c` appended and the oldest entries dropped beyond the
/// maximum.
pub open spec fn history_after_add(h: Seq<Seq<char>>, c: Seq<char>) -> Seq<Seq<char>> {
    if trim(c).len() == 0 || (h.len() > 0 && h.last() == c) {
        h
    } else if h.len() + 1 > MAX_HISTORY {
        h.push(c).skip(h.len() + 1 - MAX_HISTORY)
    } else {
        h.push(c)
    }
}

/// What every history keeps: at most `MAX_HISTORY` commands, and a browsing
/// position, when there is one, on one of them.
pub open spec fn history_ok(v: (Seq<Seq<char>>, Option<usize>)) -> bool {
    &&& v.0.len() <= MAX_HISTORY
    &&& v.1 matches Some(i) ==> i < v.0.len()
}

impl View for CommandHistory {
    type V = (Seq<Seq<char>>, Option<usize>);

    closed spec fn view(&self) -> (Seq<Seq<char>>, Option<usize>) {
        (strings_view(self.commands@), self.nav_index)
    }
}

impl CommandHistory {
    #[verifier::type_invariant]
    spec fn inv(self) -> bool {
        &&& self.commands.len() <= MAX_HISTORY
        &&& self.nav_index matches Some(i) ==> i < self.commands.len()
    }

    /// The well-formedness that every history keeps.
    pub closed spec fn well_formed(self) -> bool {
        self.inv()
    }

    /// Create a history from stored commands (oldest first); at most the
    /// first `MAX_HISTORY` are kept.
    pub fn new(stored: Vec<String>) -> (res: Self)
        ensures
            res@.0 == (if stored@.len() > MAX_HISTORY {
                strings_view(stored@).take(MAX_HISTORY as int)
            } else {
                strings_view(stored@)
            }),
            res@.1 is None,
            history_ok(res@),
    {
        let mut commands = stored;
        if commands.len() > MAX_HISTORY {
            commands.truncate(MAX_HISTORY);
            assert(strings_view(commands@) =~= strings_view(stored@).take(MAX_HISTORY as int));
        }
        CommandHistory { commands, nav_index: None }
    }

    /// Add a command to history (deduplicates against last entry); returns
    /// whether the history changed.
    pub fn add(&mut self, command: String) -> (changed: bool)
        ensures
            final(self)@.0 == history_after_add(old(self)@.0, command@),
            final(self)@.1 == old(self)@.1,
            changed == (final(self)@.0 != old(self)@.0),
            history_ok(final(self)@),
    {
        proof {
            use_type_invariant(&*self);
        }
        let ghost h = strings_view(self.commands@);
        let trimmed = trim_chars(&chars_of(command.as_str()));
        if trimmed.len() == 0 {
            return false;
        }
        if self.commands.len() > 0 && self.commands[self.commands.len() - 1] == command {
            return false;
        }
        let ghost c = command@;
        let mut commands = super::clone_strings(&self.commands);
        commands.push(command);
        if commands.len() > MAX_HISTORY {
            commands.remove(0);
            assert(strings_view(commands@) =~= h.push(c).skip(h.len() + 1 - MAX_HISTORY));
        } else {
            assert(strings_view(commands@) =~= h.push(c));
        }
        self.commands = commands;
        assert(strings_view(self.commands@).len() != h.len() || strings_view(self.commands@).last()
            != h.last());
        true
    }

    /// Get all commands (oldest first)
    pub fn commands(&self) -> (res: &[String])
        ensures
            strings_view(res@) == self@.0,
            history_ok(self@),
    {
        proof {
            use_type_invariant(self);
        }
        self.commands.as_slice()
    }

    /// Start or continue navigation to older command
    pub fn navigate_older(&mut self) -> (res: Option<&str>)
        ensures
            old(self)@.0.len() == 0 ==> res is None && final(self)@ == old(self)@,
            old(self)@.0.len() > 0 ==> {
                let k = older_index(old(self)@.0.len(), old(self)@.1);
                &&& final(self)@.0 == old(self)@.0
                &&& final(self)@.1 == Some(k as usize)
                &&& res matches Some(r) && r@ == old(self)@.0[k]
            },
            history_ok(final(self)@),
    {
        proof {
            use_type_invariant(&*self);
        }
        if self.commands.len() == 0 {
            return None;
        }
        let new_idx = match self.nav_index {
            None => self.commands.len() - 1,
            Some(idx) => if idx > 0 {
                idx - 1
            } else {
                0
            },
        };
        self.nav_index = Some(new_idx);
        Some(self.commands[new_idx].as_str())
    }

    /// Navigate to newer command
    pub fn navigate_newer(&mut self) -> (res: Option<&str>)
        ensures
            final(self)@.0 == old(self)@.0,
            (old(self)@.1 matches Some(i) && i + 1 < old(self)@.0.len()) ==> {
                &&& final(self)@.1 == Some((old(self)@.1->0 + 1) as usize)
                &&& res matches Some(r) && r@ == old(self)@.0[old(self)@.1->0 + 1]
            },
            !(old(self)@.1 matches Some(i) && i + 1 < old(self)@.0.len()) ==> {
                &&& res is None
                &&& final(self)@.1 is None
            },
            history_ok(final(self)@),
    {
        proof {
            use_type_invariant(&*self);
        }
        let idx = match self.nav_index {
            Some(i) => i,
            None => {
                return None;
            },
        };
        let new_idx = idx + 1;
        if new_idx >= self.commands.len() {
            self.nav_index = None;
            return None;
        }
        self.nav_index = Some(new_idx);
        Some(self.commands[new_idx].as_str())
    }

    /// Reset navigation state
    pub fn reset_navigation(&mut self)
        ensures
            final(self)@.0 == old(self)@.0,
            final(self)@.1 is None,
            history_ok(final(self)@),
    {
        proof {
            use_type_invariant(&*self);
        }
        self.nav_index = None;
    }

    /// Check if currently navigating history
    pub fn is_navigating(&self) -> (res: bool)
        ensures
            res == self@.1 is Some,
            history_ok(self@),
    {
        proof {
            use_type_invariant(self);
        }
        self.nav_index.is_some()
    }
}

/// A history with no commands is never being browsed.
pub proof fn lemma_empty_not_browsing(v: (Seq<Seq<char>>, Option<usize>))
    requires
        history_ok(v),
        v.0.len() == 0,
    ensures
        v.1 is None,
{
}

/// The history never holds more than `MAX_HISTORY` commands.
pub proof fn lemma_add_bounded(h: Seq<Seq<char>>, c: Seq<char>)
    requires
        h.len() <= MAX_HISTORY,
    ensures
        history_after_add(h, c).len() <= MAX_HISTORY,
{
}

/// A command that is not blank is the newest entry once added.
pub proof fn lemma_add_newest(h: Seq<Seq<char>>, c: Seq<char>)
    requires
        h.len() <= MAX_HISTORY,
        trim(c).len() > 0,
    ensures
        history_after_add(h, c).len() > 0,
        history_after_add(h, c).last() == c,
{
}

/// Adding the same command twice in a row adds it once.
pub proof fn lemma_add_idempotent(h: Seq<Seq<char>>, c: Seq<char>)
    requires
        h.len() <= MAX_HISTORY,
    ensures
        history_after_add(history_after_add(h, c), c) == history_after_add(h, c),
{
    if trim(c).len() > 0 {
        lemma_add_newest(h, c);
    }
}

} // verus!
